//! User groups.

use crate::types::Id;
use vstd::prelude::*;

verus! {

/// A group of users. Its code names the role of its members.
#[derive(Debug)]
pub struct UserGroup {
    pub id: Id,
    pub name: Option<String>,
    pub code: String,
}

} // verus!
