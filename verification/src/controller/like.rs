//! Likes on comments and on forum posts.

use crate::types::Id;
use vstd::prelude::*;

verus! {

/// What a like is attached to.
#[derive(Clone, Copy, Debug, PartialEq, Eq, Structural)]
pub enum LikeTarget {
    Comment(Id),
    Post(Id),
}

/// The target of a like that is to be deleted: the comment where a comment is
/// named, else the post where a post is named. Where neither is named there is
/// no target and nothing to delete.
pub fn target(comment_id: Option<Id>, post_id: Option<Id>) -> (res: Option<LikeTarget>)
    ensures
        res == match (comment_id, post_id) {
            (Some(comment), _) => Some(LikeTarget::Comment(comment)),
            (None, Some(post)) => Some(LikeTarget::Post(post)),
            (None, None) => None,
        },
{
    match (comment_id, post_id) {
        (Some(comment), _) => Some(LikeTarget::Comment(comment)),
        (None, Some(post)) => Some(LikeTarget::Post(post)),
        (None, None) => None,
    }
}

} // verus!
