//! User accounts: what their handlers decide, and what they do to the token
//! cache.

use crate::api::error::{ErrorView, Failure, NEXT_ID_EXPIRED, WRONG_USER_PASSWORD};
use crate::api::user_cache;
use crate::api::user_cache::{is_user_code, role_of, UserCache};
use crate::api::make_error;
use crate::types::{Id, User, UserView};
use vstd::prelude::*;
use vstd::string::*;

verus! {

/// The id that the next account gets: one more than the greatest id in use.
pub fn next_id(last_id: Id) -> (next: Id)
    requires
        last_id < i32::MAX,
    ensures
        next == last_id + 1,
{
    last_id + 1
}

/// Checks the id under which a caller wants to create an account against the
/// id that is next. Any other id has expired.
pub fn check_next_id(id: Id, next_id: Id) -> (res: Result<(), Failure>)
    ensures
        id == next_id ==> res is Ok,
        id != next_id ==> (res matches Err(Failure::Domain(e)) && e@ == ErrorView::of(
            NEXT_ID_EXPIRED,
            None,
        )),
{
    if id != next_id {
        Err(make_error(NEXT_ID_EXPIRED))
    } else {
        Ok(())
    }
}

/// Enters a new account into the cache, under its token. A new account is
/// not blocked.
pub fn create(cache: &mut UserCache, id: Id, name: String, code: &str, token: &str)
    requires
        old(cache).well_formed(),
        is_user_code(code@),
    ensures
        final(cache).well_formed(),
        final(cache)@ == old(cache)@.insert(
            token@,
            UserView { id, code: role_of(code@), name: name@, blocked: false },
        ),
{
    let user = User { id, code: user_cache::user_code(code), name, blocked: false };
    user_cache::set(cache, token, user);
}

/// Resolves the token with which a caller signs in: the id of the user that
/// it stands for. A token that the cache does not hold is a wrong password.
pub fn auth(cache: &UserCache, token: &str) -> (res: Result<Id, Failure>)
    ensures
        match res {
            Ok(id) => cache@.contains_key(token@) && id == cache@[token@].id,
            Err(failure) => !cache@.contains_key(token@) && (failure matches Failure::Domain(e)
                && e@ == ErrorView::of(WRONG_USER_PASSWORD, None)),
        },
{
    match user_cache::get(cache, token) {
        Some(user) => Ok(user.id),
        None => Err(make_error(WRONG_USER_PASSWORD)),
    }
}

/// Binds a new token to the caller. The token that the caller came with
/// stays as it is.
pub fn update_token(cache: &mut UserCache, user: &User, token: &str)
    requires
        old(cache).well_formed(),
    ensures
        final(cache).well_formed(),
        final(cache)@ == old(cache)@.insert(token@, user@),
{
    user_cache::set(cache, token, user.clone());
}

} // verus!
