//! Topics of the forum.

use vstd::prelude::*;

verus! {

/// A topic that holds posts only.
pub const COMMON_TOPIC_TYPE: i16 = 0;

/// A topic that opens with a poll.
pub const POLL_TOPIC_TYPE: i16 = 1;

/// The answers to store with a new topic: those of the request for a poll,
/// none for any other topic. A poll without answers has no reading.
pub fn poll_answers(topic_type: i16, answers: Option<Vec<String>>) -> (res: Option<Vec<String>>)
    ensures
        topic_type == POLL_TOPIC_TYPE ==> res == answers,
        topic_type != POLL_TOPIC_TYPE ==> (res matches Some(list) && list@.len() == 0),
{
    if topic_type == POLL_TOPIC_TYPE {
        answers
    } else {
        Some(Vec::new())
    }
}

} // verus!
