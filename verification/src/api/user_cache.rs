//! The token cache: for each bearer token the user it stands for.
//!
//! The cache is a plain value. Whoever shares it between tasks puts it behind
//! one lock; every operation here runs to its end without suspending.

use crate::text::str_eq;
use crate::types::{Id, User, UserCode, UserView};
use vstd::hash_map::StringHashMap;
use vstd::prelude::*;
use vstd::string::*;

verus! {

/// The mapping from token to user, with the tokens in the order in which they
/// came, so that the cache can be walked.
pub struct UserCache {
    users: StringHashMap<User>,
    tokens: Vec<String>,
}

/// A row of the users table joined with its group: what the cache is loaded
/// from.
#[derive(Debug)]
pub struct UserData {
    pub id: Id,
    pub name: String,
    pub token: String,
    pub code: String,
    pub blocked: bool,
}

/// Whether a text is the short code of a role.
pub open spec fn is_user_code(code: Seq<char>) -> bool {
    code == "admin"@ || code == "user"@ || code == "anonym"@
}

/// The role that a short code names; `Anonym` for a text that names none.
pub open spec fn role_of(code: Seq<char>) -> UserCode {
    if code == "admin"@ {
        UserCode::Admin
    } else if code == "user"@ {
        UserCode::User
    } else {
        UserCode::Anonym
    }
}

/// The user that a row describes.
pub open spec fn row_user(row: UserData) -> UserView {
    UserView { id: row.id, code: role_of(row.code@), name: row.name@, blocked: row.blocked }
}

/// The mapping that a list of rows loads: each row binds its token to its
/// user, a later row replacing an earlier one with the same token.
pub open spec fn loaded(rows: Seq<UserData>) -> Map<Seq<char>, UserView>
    decreases rows.len(),
{
    if rows.len() == 0 {
        Map::empty()
    } else {
        loaded(rows.drop_last()).insert(rows.last().token@, row_user(rows.last()))
    }
}

/// Whether some token of the mapping stands for the user with the given id.
pub open spec fn holds_user(users: Map<Seq<char>, UserView>, id: Id) -> bool {
    exists|token: Seq<char>| #[trigger] users.contains_key(token) && users[token].id == id
}

impl View for UserCache {
    type V = Map<Seq<char>, UserView>;

    closed spec fn view(&self) -> Map<Seq<char>, UserView> {
        Map::new(|token: Seq<char>| self.users@.contains_key(token), |token: Seq<char>| self.users@[token]@)
    }
}

impl UserCache {
    /// The list of tokens names exactly the keys of the mapping.
    pub closed spec fn well_formed(&self) -> bool {
        &&& forall|i: int|
            0 <= i < self.tokens.len() ==> self.users@.contains_key(#[trigger] self.tokens[i]@)
        &&& forall|token: Seq<char>| #[trigger]
            self.users@.contains_key(token) ==> exists|i: int|
                0 <= i < self.tokens.len() && #[trigger] self.tokens[i]@ == token
    }

    /// An empty cache.
    pub fn new() -> (cache: UserCache)
        ensures
            cache.well_formed(),
            cache@ == Map::<Seq<char>, UserView>::empty(),
    {
        let cache = UserCache { users: StringHashMap::new(), tokens: Vec::new() };
        assert(cache@ =~= Map::<Seq<char>, UserView>::empty());
        cache
    }
}

/// The role that a short code names, if it names one.
pub fn parse_user_code(code: &str) -> (role: Option<UserCode>)
    ensures
        role is Some <==> is_user_code(code@),
        role matches Some(r) ==> r == role_of(code@),
{
    if str_eq(code, "admin") {
        Some(UserCode::Admin)
    } else if str_eq(code, "user") {
        Some(UserCode::User)
    } else if str_eq(code, "anonym") {
        Some(UserCode::Anonym)
    } else {
        None
    }
}

/// The role that a short code names.
pub fn user_code(code: &str) -> (role: UserCode)
    requires
        is_user_code(code@),
    ensures
        role == role_of(code@),
{
    if str_eq(code, "admin") {
        UserCode::Admin
    } else if str_eq(code, "user") {
        UserCode::User
    } else {
        UserCode::Anonym
    }
}

/// Binds a token to a user, replacing the user that it stood for, if any.
pub fn set(cache: &mut UserCache, token: &str, user: User)
    requires
        old(cache).well_formed(),
    ensures
        final(cache).well_formed(),
        final(cache)@ == old(cache)@.insert(token@, user@),
{
    if !cache.users.contains_key(token) {
        cache.tokens.push(String::from_str(token));
    }
    cache.users.insert(String::from_str(token), user);
    proof {
        let last = cache.tokens.len() - 1;
        assert forall|key: Seq<char>| #[trigger] cache.users@.contains_key(key) implies exists|
            i: int,
        |
            0 <= i < cache.tokens.len() && #[trigger] cache.tokens[i]@ == key by {
            if key == token@ {
                if old(cache).users@.contains_key(token@) {
                    let i = choose|i: int|
                        0 <= i < old(cache).tokens.len() && #[trigger] old(cache).tokens[i]@
                            == token@;
                    assert(cache.tokens[i]@ == key);
                } else {
                    assert(cache.tokens[last]@ == key);
                }
            } else {
                assert(old(cache).users@.contains_key(key));
                let i = choose|i: int|
                    0 <= i < old(cache).tokens.len() && #[trigger] old(cache).tokens[i]@ == key;
                assert(cache.tokens[i]@ == key);
            }
        }
        assert(cache@ =~= old(cache)@.insert(token@, user@));
    }
}

/// The user that a token stands for: a copy of the entry, `None` for a token
/// that the cache does not hold.
pub fn get(cache: &UserCache, token: &str) -> (user: Option<User>)
    ensures
        match user {
            Some(u) => cache@.contains_key(token@) && u@ == cache@[token@],
            None => !cache@.contains_key(token@),
        },
{
    match cache.users.get(token) {
        Some(user) => Some(user.clone()),
        None => None,
    }
}

/// Walks the cache for an entry that stands for the user with the given id:
/// the token and a copy of the user.
fn find_user(cache: &UserCache, id: Id) -> (found: Option<(String, User)>)
    requires
        cache.well_formed(),
    ensures
        match found {
            Some((token, user)) => cache@.contains_key(token@) && user@ == cache@[token@]
                && user@.id == id,
            None => !holds_user(cache@, id),
        },
{
    let mut i: usize = 0;
    while i < cache.tokens.len()
        invariant
            i <= cache.tokens.len(),
            cache.well_formed(),
            forall|k: int| 0 <= k < i ==> cache.users@[#[trigger] cache.tokens[k]@].id != id,
        decreases cache.tokens.len() - i,
    {
        let token = &cache.tokens[i];
        match cache.users.get(token.as_str()) {
            Some(user) => {
                if user.id == id {
                    return Some((token.clone(), user.clone()));
                }
            },
            None => {},
        }
        i += 1;
    }
    proof {
        if holds_user(cache@, id) {
            let token = choose|token: Seq<char>| #[trigger]
                cache@.contains_key(token) && cache@[token].id == id;
            assert(cache.users@.contains_key(token));
            let k = choose|k: int|
                0 <= k < cache.tokens.len() && #[trigger] cache.tokens[k]@ == token;
            assert(cache.users@[cache.tokens[k]@].id != id);
        }
    }
    None
}

/// Sets the blocked flag of one entry that stands for the user with the given
/// id. Where several tokens stand for that user, one of them is updated; where
/// none does, the cache stays as it is.
pub fn update_blocked(cache: &mut UserCache, id: Id, blocked: bool)
    requires
        old(cache).well_formed(),
    ensures
        final(cache).well_formed(),
        !holds_user(old(cache)@, id) ==> final(cache)@ == old(cache)@,
        holds_user(old(cache)@, id) ==> exists|token: Seq<char>|
            #![trigger old(cache)@.contains_key(token)]
            old(cache)@.contains_key(token) && old(cache)@[token].id == id && final(cache)@ == old(
                cache,
            )@.insert(token, old(cache)@[token].with_blocked(blocked)),
{
    match find_user(cache, id) {
        Some((token, mut user)) => {
            user.blocked = blocked;
            proof {
                assert(old(cache)@.contains_key(token@));
            }
            set(cache, token.as_str(), user);
        },
        None => {},
    }
}

/// Loads a cache from the rows of the users table.
pub fn init(rows: Vec<UserData>) -> (cache: UserCache)
    requires
        forall|i: int| 0 <= i < rows.len() ==> is_user_code(#[trigger] rows[i].code@),
    ensures
        cache.well_formed(),
        cache@ == loaded(rows@),
{
    let mut cache = UserCache::new();
    let mut i: usize = 0;
    while i < rows.len()
        invariant
            i <= rows.len(),
            cache.well_formed(),
            cache@ == loaded(rows@.take(i as int)),
            forall|k: int| 0 <= k < rows.len() ==> is_user_code(#[trigger] rows[k].code@),
        decreases rows.len() - i,
    {
        let row = &rows[i];
        let user = User {
            id: row.id,
            code: user_code(row.code.as_str()),
            name: row.name.clone(),
            blocked: row.blocked,
        };
        set(&mut cache, row.token.as_str(), user);
        proof {
            assert(rows@.take(i + 1).drop_last() =~= rows@.take(i as int));
            assert(rows@.take(i + 1).last() == rows@[i as int]);
        }
        i += 1;
    }
    assert(rows@.take(rows.len() as int) =~= rows@);
    cache
}

/// One `set`: the token and the user bound to it.
pub struct Binding {
    pub token: Seq<char>,
    pub user: UserView,
}

/// What a cache holds after a run of `set`s on an empty cache.
pub open spec fn written(writes: Seq<Binding>) -> Map<Seq<char>, UserView>
    decreases writes.len(),
{
    if writes.len() == 0 {
        Map::empty()
    } else {
        written(writes.drop_last()).insert(writes.last().token, writes.last().user)
    }
}

/// Whatever `set`s came before, a `get` returns the user of one of them,
/// whole: the last that was made under the token. It returns nothing exactly
/// when none was made under the token.
pub proof fn lemma_reads_are_snapshots(writes: Seq<Binding>, token: Seq<char>)
    ensures
        written(writes).contains_key(token) <==> exists|i: int|
            0 <= i < writes.len() && (#[trigger] writes[i]).token == token,
        written(writes).contains_key(token) ==> exists|i: int|
            0 <= i < writes.len() && (#[trigger] writes[i]).token == token && writes[i].user
                == written(writes)[token] && forall|j: int|
                i < j < writes.len() ==> (#[trigger] writes[j]).token != token,
    decreases writes.len(),
{
    if writes.len() > 0 {
        let earlier = writes.drop_last();
        let last = writes.len() - 1;
        lemma_reads_are_snapshots(earlier, token);
        if writes.last().token == token {
            assert(writes[last].token == token);
        } else if written(earlier).contains_key(token) {
            let i = choose|i: int|
                0 <= i < earlier.len() && (#[trigger] earlier[i]).token == token && earlier[i].user
                    == written(earlier)[token] && forall|j: int|
                    i < j < earlier.len() ==> (#[trigger] earlier[j]).token != token;
            assert(writes[i] == earlier[i]);
            assert forall|j: int| i < j < writes.len() implies (#[trigger] writes[j]).token
                != token by {
                if j < last {
                    assert(writes[j] == earlier[j]);
                }
            }
        } else {
            assert forall|i: int| 0 <= i < writes.len() implies (#[trigger] writes[i]).token
                != token by {
                if i < last {
                    assert(writes[i] == earlier[i]);
                }
            }
        }
    }
}

} // verus!
