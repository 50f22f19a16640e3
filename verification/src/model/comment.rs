//! Comments.

use crate::types::Id;
use vstd::prelude::*;

verus! {

/// A comment that is to be stored.
#[derive(Debug)]
pub struct NewComment {
    pub mandela_id: Id,
    pub user_id: Id,
    pub message: String,
}

} // verus!
