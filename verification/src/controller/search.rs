//! Full-text search.

use vstd::prelude::*;

verus! {

/// What a search looks through.
#[derive(Clone, Copy, Debug, PartialEq, Eq, Structural)]
pub enum Scope {
    Mandels,
    Comments,
    ForumPosts,
}

/// Reads the scope of a search: 0 the entries, 1 the comments, any other
/// number the forum posts. A search for the empty text has no scope: it finds
/// nothing, and the store is not asked.
pub fn scope(text: &str, type_: i8) -> (res: Option<Scope>)
    ensures
        res == if text@.len() == 0 {
            None
        } else if type_ == 0 {
            Some(Scope::Mandels)
        } else if type_ == 1 {
            Some(Scope::Comments)
        } else {
            Some(Scope::ForumPosts)
        },
{
    if text.is_empty() {
        None
    } else if type_ == 0 {
        Some(Scope::Mandels)
    } else if type_ == 1 {
        Some(Scope::Comments)
    } else {
        Some(Scope::ForumPosts)
    }
}

} // verus!
