//! Users.

use crate::types::Id;
use vstd::prelude::*;

verus! {

/// An account that is to be stored.
#[derive(Debug)]
pub struct NewUser {
    pub name: String,
    pub group_id: Id,
    pub token: String,
}

} // verus!
