//! The access policy: which role a method asks of its caller.
//!
//! The policy is three lists of names: [`creates_content`], [`admin_only`] and
//! [`members_only`]. A method on none of them is open to every authenticated
//! caller.

use crate::api::registry::{is_registered, Method};
use crate::text::str_eq;
use crate::types::UserCode;
use vstd::prelude::*;

verus! {

/// Rank of a role: `Admin` 3, `User` 2, `Anonym` 1.
pub open spec fn rank(code: UserCode) -> int {
    match code {
        UserCode::Admin => 3,
        UserCode::User => 2,
        UserCode::Anonym => 1,
    }
}

/// Methods that create content. They are open to `Anonym` while anonymous
/// posting is allowed, and ask for `User` otherwise.
pub open spec fn creates_content(method: Seq<char>) -> bool {
    ||| method == "mandela.create"@
    ||| method == "comment.create"@
    ||| method == "forum.topic.create"@
    ||| method == "forum.post.create"@
}

/// Methods that ask for `Admin`.
pub open spec fn admin_only(method: Seq<char>) -> bool {
    ||| method == "mandela.delete"@
    ||| method == "mandela.updateTrash"@
    ||| method == "mandela.getVoteUsers"@
    ||| method == "user.update"@
    ||| method == "forum.category.create"@
    ||| method == "forum.category.update"@
    ||| method == "forum.category.delete"@
    ||| method == "forum.section.create"@
    ||| method == "forum.section.update"@
    ||| method == "forum.section.delete"@
    ||| method == "forum.topic.getVoteUsers"@
    ||| method == "like.getUsers"@
}

/// Methods that ask for `User`.
pub open spec fn members_only(method: Seq<char>) -> bool {
    ||| method == "mandela.update"@
    ||| method == "mandela.mark"@
    ||| method == "mandela.vote"@
    ||| method == "user.logout"@
    ||| method == "user.updateToken"@
    ||| method == "user.updateProfile"@
    ||| method == "comment.update"@
    ||| method == "comment.delete"@
    ||| method == "forum.topic.update"@
    ||| method == "forum.topic.delete"@
    ||| method == "forum.topic.vote"@
    ||| method == "forum.post.update"@
    ||| method == "forum.post.delete"@
    ||| method == "like.create"@
    ||| method == "like.delete"@
}

/// The least role that may call a method. A method that the policy does not
/// name is open to every authenticated caller.
pub open spec fn required_role(method: Seq<char>, anonym_allowed: bool) -> UserCode {
    if creates_content(method) {
        if anonym_allowed {
            UserCode::Anonym
        } else {
            UserCode::User
        }
    } else if admin_only(method) {
        UserCode::Admin
    } else if members_only(method) {
        UserCode::User
    } else {
        UserCode::Anonym
    }
}

/// Whether the policy lets a caller of the given role call the method.
pub open spec fn allowed(method: Seq<char>, code: UserCode, anonym_allowed: bool) -> bool {
    rank(code) >= rank(required_role(method, anonym_allowed))
}

fn is_content_creation(method: &str) -> (res: bool)
    ensures
        res == creates_content(method@),
{
    str_eq(method, "mandela.create") || str_eq(method, "comment.create") || str_eq(
        method,
        "forum.topic.create",
    ) || str_eq(method, "forum.post.create")
}

fn is_admin_only(method: &str) -> (res: bool)
    ensures
        res == admin_only(method@),
{
    str_eq(method, "mandela.delete") || str_eq(method, "mandela.updateTrash") || str_eq(
        method,
        "mandela.getVoteUsers",
    ) || str_eq(method, "user.update") || str_eq(method, "forum.category.create") || str_eq(
        method,
        "forum.category.update",
    ) || str_eq(method, "forum.category.delete") || str_eq(method, "forum.section.create")
        || str_eq(method, "forum.section.update") || str_eq(method, "forum.section.delete")
        || str_eq(method, "forum.topic.getVoteUsers") || str_eq(method, "like.getUsers")
}

fn is_members_only(method: &str) -> (res: bool)
    ensures
        res == members_only(method@),
{
    str_eq(method, "mandela.update") || str_eq(method, "mandela.mark") || str_eq(
        method,
        "mandela.vote",
    ) || str_eq(method, "user.logout") || str_eq(method, "user.updateToken") || str_eq(
        method,
        "user.updateProfile",
    ) || str_eq(method, "comment.update") || str_eq(method, "comment.delete") || str_eq(
        method,
        "forum.topic.update",
    ) || str_eq(method, "forum.topic.delete") || str_eq(method, "forum.topic.vote") || str_eq(
        method,
        "forum.post.update",
    ) || str_eq(method, "forum.post.delete") || str_eq(method, "like.create") || str_eq(
        method,
        "like.delete",
    )
}

/// The least role that may call a method.
pub fn allowed_code(method: &str, anonym_allowed: bool) -> (code: UserCode)
    ensures
        code == required_role(method@, anonym_allowed),
{
    if is_content_creation(method) {
        if anonym_allowed {
            UserCode::Anonym
        } else {
            UserCode::User
        }
    } else if is_admin_only(method) {
        UserCode::Admin
    } else if is_members_only(method) {
        UserCode::User
    } else {
        UserCode::Anonym
    }
}

/// Rank of a role.
pub fn user_security_order(user_code: &UserCode) -> (order: u8)
    ensures
        order == rank(*user_code),
{
    match user_code {
        UserCode::Admin => 3,
        UserCode::User => 2,
        UserCode::Anonym => 1,
    }
}

/// Decides whether a caller of the given role may call the method:
/// it may exactly when its rank is at least that of the required role.
pub fn authorize(method: &str, user_code: &UserCode, anonym_allowed: bool) -> (granted: bool)
    ensures
        granted == allowed(method@, *user_code, anonym_allowed),
        granted == !(rank(*user_code) < rank(required_role(method@, anonym_allowed))),
{
    let allowed_code = allowed_code(method, anonym_allowed);
    user_security_order(user_code) >= user_security_order(&allowed_code)
}

/// An administrator may call every method.
pub proof fn lemma_admin_may_call_all(method: Seq<char>, anonym_allowed: bool)
    ensures
        allowed(method, UserCode::Admin, anonym_allowed),
{
}

/// A role that may call a method may still call it once anonymous posting is
/// allowed, and every role above it may call it too.
pub proof fn lemma_allowed_is_monotonic(
    method: Seq<char>,
    lower: UserCode,
    higher: UserCode,
    anonym_allowed: bool,
)
    requires
        rank(lower) <= rank(higher),
        allowed(method, lower, anonym_allowed),
    ensures
        allowed(method, higher, anonym_allowed),
        allowed(method, lower, true),
{
}

/// The policy speaks of the methods that the registry holds and of no other
/// name: every name on one of its lists is that of a method.
pub proof fn lemma_policy_names_methods(method: Seq<char>)
    requires
        creates_content(method) || admin_only(method) || members_only(method),
    ensures
        is_registered(method),
{
    if method == "mandela.create"@ {
        assert(Method::MandelaCreate.spec_name() == method);
    }
    if method == "comment.create"@ {
        assert(Method::CommentCreate.spec_name() == method);
    }
    if method == "forum.topic.create"@ {
        assert(Method::ForumTopicCreate.spec_name() == method);
    }
    if method == "forum.post.create"@ {
        assert(Method::ForumPostCreate.spec_name() == method);
    }
    if method == "mandela.delete"@ {
        assert(Method::MandelaDelete.spec_name() == method);
    }
    if method == "mandela.updateTrash"@ {
        assert(Method::MandelaUpdateTrash.spec_name() == method);
    }
    if method == "mandela.getVoteUsers"@ {
        assert(Method::MandelaGetVoteUsers.spec_name() == method);
    }
    if method == "user.update"@ {
        assert(Method::UserUpdate.spec_name() == method);
    }
    if method == "forum.category.create"@ {
        assert(Method::ForumCategoryCreate.spec_name() == method);
    }
    if method == "forum.category.update"@ {
        assert(Method::ForumCategoryUpdate.spec_name() == method);
    }
    if method == "forum.category.delete"@ {
        assert(Method::ForumCategoryDelete.spec_name() == method);
    }
    if method == "forum.section.create"@ {
        assert(Method::ForumSectionCreate.spec_name() == method);
    }
    if method == "forum.section.update"@ {
        assert(Method::ForumSectionUpdate.spec_name() == method);
    }
    if method == "forum.section.delete"@ {
        assert(Method::ForumSectionDelete.spec_name() == method);
    }
    if method == "forum.topic.getVoteUsers"@ {
        assert(Method::ForumTopicGetVoteUsers.spec_name() == method);
    }
    if method == "like.getUsers"@ {
        assert(Method::LikeGetUsers.spec_name() == method);
    }
    if method == "mandela.update"@ {
        assert(Method::MandelaUpdate.spec_name() == method);
    }
    if method == "mandela.mark"@ {
        assert(Method::MandelaMark.spec_name() == method);
    }
    if method == "mandela.vote"@ {
        assert(Method::MandelaVote.spec_name() == method);
    }
    if method == "user.logout"@ {
        assert(Method::UserLogout.spec_name() == method);
    }
    if method == "user.updateToken"@ {
        assert(Method::UserUpdateToken.spec_name() == method);
    }
    if method == "user.updateProfile"@ {
        assert(Method::UserUpdateProfile.spec_name() == method);
    }
    if method == "comment.update"@ {
        assert(Method::CommentUpdate.spec_name() == method);
    }
    if method == "comment.delete"@ {
        assert(Method::CommentDelete.spec_name() == method);
    }
    if method == "forum.topic.update"@ {
        assert(Method::ForumTopicUpdate.spec_name() == method);
    }
    if method == "forum.topic.delete"@ {
        assert(Method::ForumTopicDelete.spec_name() == method);
    }
    if method == "forum.topic.vote"@ {
        assert(Method::ForumTopicVote.spec_name() == method);
    }
    if method == "forum.post.update"@ {
        assert(Method::ForumPostUpdate.spec_name() == method);
    }
    if method == "forum.post.delete"@ {
        assert(Method::ForumPostDelete.spec_name() == method);
    }
    if method == "like.create"@ {
        assert(Method::LikeCreate.spec_name() == method);
    }
    if method == "like.delete"@ {
        assert(Method::LikeDelete.spec_name() == method);
    }
}

} // verus!
