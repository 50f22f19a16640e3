//! The method registry: the closed set of methods that the endpoint serves.

use crate::text::str_eq;
use vstd::prelude::*;

verus! {

/// A method of the endpoint. Each stands for one handler.
#[derive(Clone, Copy, Debug, PartialEq, Eq, Structural)]
pub enum Method {
    /// `ping`
    Ping,
    /// `mandela.create`
    MandelaCreate,
    /// `mandela.update`
    MandelaUpdate,
    /// `mandela.getOne`
    MandelaGetOne,
    /// `mandela.getAll`
    MandelaGetAll,
    /// `mandela.delete`
    MandelaDelete,
    /// `mandela.mark`
    MandelaMark,
    /// `mandela.vote`
    MandelaVote,
    /// `mandela.getVoteUsers`
    MandelaGetVoteUsers,
    /// `mandela.updateTrash`
    MandelaUpdateTrash,
    /// `user.getNextId`
    UserGetNextId,
    /// `user.create`
    UserCreate,
    /// `user.delete`
    UserDelete,
    /// `user.auth`
    UserAuth,
    /// `user.logout`
    UserLogout,
    /// `user.getOne`
    UserGetOne,
    /// `user.update`
    UserUpdate,
    /// `user.updateToken`
    UserUpdateToken,
    /// `user.updateProfile`
    UserUpdateProfile,
    /// `comment.create`
    CommentCreate,
    /// `comment.getAll`
    CommentGetAll,
    /// `comment.update`
    CommentUpdate,
    /// `comment.delete`
    CommentDelete,
    /// `like.create`
    LikeCreate,
    /// `like.delete`
    LikeDelete,
    /// `like.getUsers`
    LikeGetUsers,
    /// `search.getAll`
    SearchGetAll,
    /// `rating.getMandels`
    RatingGetMandels,
    /// `rating.getUsers`
    RatingGetUsers,
    /// `forum.getAll`
    ForumGetAll,
    /// `forum.getNew`
    ForumGetNew,
    /// `forum.category.create`
    ForumCategoryCreate,
    /// `forum.category.getOne`
    ForumCategoryGetOne,
    /// `forum.category.update`
    ForumCategoryUpdate,
    /// `forum.category.delete`
    ForumCategoryDelete,
    /// `forum.section.create`
    ForumSectionCreate,
    /// `forum.section.getAll`
    ForumSectionGetAll,
    /// `forum.section.getOne`
    ForumSectionGetOne,
    /// `forum.section.update`
    ForumSectionUpdate,
    /// `forum.section.delete`
    ForumSectionDelete,
    /// `forum.topic.getAll`
    ForumTopicGetAll,
    /// `forum.topic.getOne`
    ForumTopicGetOne,
    /// `forum.topic.create`
    ForumTopicCreate,
    /// `forum.topic.update`
    ForumTopicUpdate,
    /// `forum.topic.delete`
    ForumTopicDelete,
    /// `forum.topic.vote`
    ForumTopicVote,
    /// `forum.topic.getVoteUsers`
    ForumTopicGetVoteUsers,
    /// `forum.post.getAll`
    ForumPostGetAll,
    /// `forum.post.getOne`
    ForumPostGetOne,
    /// `forum.post.create`
    ForumPostCreate,
    /// `forum.post.update`
    ForumPostUpdate,
    /// `forum.post.delete`
    ForumPostDelete,
    /// `activity.getAll`
    ActivityGetAll,
    /// `feed.getAll`
    FeedGetAll,
}

impl Method {
    /// The dotted name under which the method is called.
    pub open spec fn spec_name(self) -> Seq<char> {
        match self {
            Method::Ping => "ping"@,
            Method::MandelaCreate => "mandela.create"@,
            Method::MandelaUpdate => "mandela.update"@,
            Method::MandelaGetOne => "mandela.getOne"@,
            Method::MandelaGetAll => "mandela.getAll"@,
            Method::MandelaDelete => "mandela.delete"@,
            Method::MandelaMark => "mandela.mark"@,
            Method::MandelaVote => "mandela.vote"@,
            Method::MandelaGetVoteUsers => "mandela.getVoteUsers"@,
            Method::MandelaUpdateTrash => "mandela.updateTrash"@,
            Method::UserGetNextId => "user.getNextId"@,
            Method::UserCreate => "user.create"@,
            Method::UserDelete => "user.delete"@,
            Method::UserAuth => "user.auth"@,
            Method::UserLogout => "user.logout"@,
            Method::UserGetOne => "user.getOne"@,
            Method::UserUpdate => "user.update"@,
            Method::UserUpdateToken => "user.updateToken"@,
            Method::UserUpdateProfile => "user.updateProfile"@,
            Method::CommentCreate => "comment.create"@,
            Method::CommentGetAll => "comment.getAll"@,
            Method::CommentUpdate => "comment.update"@,
            Method::CommentDelete => "comment.delete"@,
            Method::LikeCreate => "like.create"@,
            Method::LikeDelete => "like.delete"@,
            Method::LikeGetUsers => "like.getUsers"@,
            Method::SearchGetAll => "search.getAll"@,
            Method::RatingGetMandels => "rating.getMandels"@,
            Method::RatingGetUsers => "rating.getUsers"@,
            Method::ForumGetAll => "forum.getAll"@,
            Method::ForumGetNew => "forum.getNew"@,
            Method::ForumCategoryCreate => "forum.category.create"@,
            Method::ForumCategoryGetOne => "forum.category.getOne"@,
            Method::ForumCategoryUpdate => "forum.category.update"@,
            Method::ForumCategoryDelete => "forum.category.delete"@,
            Method::ForumSectionCreate => "forum.section.create"@,
            Method::ForumSectionGetAll => "forum.section.getAll"@,
            Method::ForumSectionGetOne => "forum.section.getOne"@,
            Method::ForumSectionUpdate => "forum.section.update"@,
            Method::ForumSectionDelete => "forum.section.delete"@,
            Method::ForumTopicGetAll => "forum.topic.getAll"@,
            Method::ForumTopicGetOne => "forum.topic.getOne"@,
            Method::ForumTopicCreate => "forum.topic.create"@,
            Method::ForumTopicUpdate => "forum.topic.update"@,
            Method::ForumTopicDelete => "forum.topic.delete"@,
            Method::ForumTopicVote => "forum.topic.vote"@,
            Method::ForumTopicGetVoteUsers => "forum.topic.getVoteUsers"@,
            Method::ForumPostGetAll => "forum.post.getAll"@,
            Method::ForumPostGetOne => "forum.post.getOne"@,
            Method::ForumPostCreate => "forum.post.create"@,
            Method::ForumPostUpdate => "forum.post.update"@,
            Method::ForumPostDelete => "forum.post.delete"@,
            Method::ActivityGetAll => "activity.getAll"@,
            Method::FeedGetAll => "feed.getAll"@,
        }
    }

    /// The dotted name under which the method is called.
    pub fn name(self) -> (name: &'static str)
        ensures
            name@ == self.spec_name(),
    {
        match self {
            Method::Ping => "ping",
            Method::MandelaCreate => "mandela.create",
            Method::MandelaUpdate => "mandela.update",
            Method::MandelaGetOne => "mandela.getOne",
            Method::MandelaGetAll => "mandela.getAll",
            Method::MandelaDelete => "mandela.delete",
            Method::MandelaMark => "mandela.mark",
            Method::MandelaVote => "mandela.vote",
            Method::MandelaGetVoteUsers => "mandela.getVoteUsers",
            Method::MandelaUpdateTrash => "mandela.updateTrash",
            Method::UserGetNextId => "user.getNextId",
            Method::UserCreate => "user.create",
            Method::UserDelete => "user.delete",
            Method::UserAuth => "user.auth",
            Method::UserLogout => "user.logout",
            Method::UserGetOne => "user.getOne",
            Method::UserUpdate => "user.update",
            Method::UserUpdateToken => "user.updateToken",
            Method::UserUpdateProfile => "user.updateProfile",
            Method::CommentCreate => "comment.create",
            Method::CommentGetAll => "comment.getAll",
            Method::CommentUpdate => "comment.update",
            Method::CommentDelete => "comment.delete",
            Method::LikeCreate => "like.create",
            Method::LikeDelete => "like.delete",
            Method::LikeGetUsers => "like.getUsers",
            Method::SearchGetAll => "search.getAll",
            Method::RatingGetMandels => "rating.getMandels",
            Method::RatingGetUsers => "rating.getUsers",
            Method::ForumGetAll => "forum.getAll",
            Method::ForumGetNew => "forum.getNew",
            Method::ForumCategoryCreate => "forum.category.create",
            Method::ForumCategoryGetOne => "forum.category.getOne",
            Method::ForumCategoryUpdate => "forum.category.update",
            Method::ForumCategoryDelete => "forum.category.delete",
            Method::ForumSectionCreate => "forum.section.create",
            Method::ForumSectionGetAll => "forum.section.getAll",
            Method::ForumSectionGetOne => "forum.section.getOne",
            Method::ForumSectionUpdate => "forum.section.update",
            Method::ForumSectionDelete => "forum.section.delete",
            Method::ForumTopicGetAll => "forum.topic.getAll",
            Method::ForumTopicGetOne => "forum.topic.getOne",
            Method::ForumTopicCreate => "forum.topic.create",
            Method::ForumTopicUpdate => "forum.topic.update",
            Method::ForumTopicDelete => "forum.topic.delete",
            Method::ForumTopicVote => "forum.topic.vote",
            Method::ForumTopicGetVoteUsers => "forum.topic.getVoteUsers",
            Method::ForumPostGetAll => "forum.post.getAll",
            Method::ForumPostGetOne => "forum.post.getOne",
            Method::ForumPostCreate => "forum.post.create",
            Method::ForumPostUpdate => "forum.post.update",
            Method::ForumPostDelete => "forum.post.delete",
            Method::ActivityGetAll => "activity.getAll",
            Method::FeedGetAll => "feed.getAll",
        }
    }

    /// Looks a name up in the registry: the method that is called under that
    /// name, `None` where no method is.
    pub fn lookup(name: &str) -> (found: Option<Method>)
        ensures
            found == registered(name@),
            match found {
                Some(method) => method.spec_name() == name@,
                None => !is_registered(name@),
            },
    {
        let found = Method::find(name);
        proof {
            if let Some(method) = found {
                lemma_names_are_distinct(method, registered(name@)->0);
            }
        }
        found
    }

    fn find(name: &str) -> (found: Option<Method>)
        ensures
            match found {
                Some(method) => method.spec_name() == name@,
                None => !is_registered(name@),
            },
    {
        if str_eq(name, "ping") {
            Some(Method::Ping)
        } else if str_eq(name, "mandela.create") {
            Some(Method::MandelaCreate)
        } else if str_eq(name, "mandela.update") {
            Some(Method::MandelaUpdate)
        } else if str_eq(name, "mandela.getOne") {
            Some(Method::MandelaGetOne)
        } else if str_eq(name, "mandela.getAll") {
            Some(Method::MandelaGetAll)
        } else if str_eq(name, "mandela.delete") {
            Some(Method::MandelaDelete)
        } else if str_eq(name, "mandela.mark") {
            Some(Method::MandelaMark)
        } else if str_eq(name, "mandela.vote") {
            Some(Method::MandelaVote)
        } else if str_eq(name, "mandela.getVoteUsers") {
            Some(Method::MandelaGetVoteUsers)
        } else if str_eq(name, "mandela.updateTrash") {
            Some(Method::MandelaUpdateTrash)
        } else if str_eq(name, "user.getNextId") {
            Some(Method::UserGetNextId)
        } else if str_eq(name, "user.create") {
            Some(Method::UserCreate)
        } else if str_eq(name, "user.delete") {
            Some(Method::UserDelete)
        } else if str_eq(name, "user.auth") {
            Some(Method::UserAuth)
        } else if str_eq(name, "user.logout") {
            Some(Method::UserLogout)
        } else if str_eq(name, "user.getOne") {
            Some(Method::UserGetOne)
        } else if str_eq(name, "user.update") {
            Some(Method::UserUpdate)
        } else if str_eq(name, "user.updateToken") {
            Some(Method::UserUpdateToken)
        } else if str_eq(name, "user.updateProfile") {
            Some(Method::UserUpdateProfile)
        } else if str_eq(name, "comment.create") {
            Some(Method::CommentCreate)
        } else if str_eq(name, "comment.getAll") {
            Some(Method::CommentGetAll)
        } else if str_eq(name, "comment.update") {
            Some(Method::CommentUpdate)
        } else if str_eq(name, "comment.delete") {
            Some(Method::CommentDelete)
        } else if str_eq(name, "like.create") {
            Some(Method::LikeCreate)
        } else if str_eq(name, "like.delete") {
            Some(Method::LikeDelete)
        } else if str_eq(name, "like.getUsers") {
            Some(Method::LikeGetUsers)
        } else if str_eq(name, "search.getAll") {
            Some(Method::SearchGetAll)
        } else if str_eq(name, "rating.getMandels") {
            Some(Method::RatingGetMandels)
        } else if str_eq(name, "rating.getUsers") {
            Some(Method::RatingGetUsers)
        } else if str_eq(name, "forum.getAll") {
            Some(Method::ForumGetAll)
        } else if str_eq(name, "forum.getNew") {
            Some(Method::ForumGetNew)
        } else if str_eq(name, "forum.category.create") {
            Some(Method::ForumCategoryCreate)
        } else if str_eq(name, "forum.category.getOne") {
            Some(Method::ForumCategoryGetOne)
        } else if str_eq(name, "forum.category.update") {
            Some(Method::ForumCategoryUpdate)
        } else if str_eq(name, "forum.category.delete") {
            Some(Method::ForumCategoryDelete)
        } else if str_eq(name, "forum.section.create") {
            Some(Method::ForumSectionCreate)
        } else if str_eq(name, "forum.section.getAll") {
            Some(Method::ForumSectionGetAll)
        } else if str_eq(name, "forum.section.getOne") {
            Some(Method::ForumSectionGetOne)
        } else if str_eq(name, "forum.section.update") {
            Some(Method::ForumSectionUpdate)
        } else if str_eq(name, "forum.section.delete") {
            Some(Method::ForumSectionDelete)
        } else if str_eq(name, "forum.topic.getAll") {
            Some(Method::ForumTopicGetAll)
        } else if str_eq(name, "forum.topic.getOne") {
            Some(Method::ForumTopicGetOne)
        } else if str_eq(name, "forum.topic.create") {
            Some(Method::ForumTopicCreate)
        } else if str_eq(name, "forum.topic.update") {
            Some(Method::ForumTopicUpdate)
        } else if str_eq(name, "forum.topic.delete") {
            Some(Method::ForumTopicDelete)
        } else if str_eq(name, "forum.topic.vote") {
            Some(Method::ForumTopicVote)
        } else if str_eq(name, "forum.topic.getVoteUsers") {
            Some(Method::ForumTopicGetVoteUsers)
        } else if str_eq(name, "forum.post.getAll") {
            Some(Method::ForumPostGetAll)
        } else if str_eq(name, "forum.post.getOne") {
            Some(Method::ForumPostGetOne)
        } else if str_eq(name, "forum.post.create") {
            Some(Method::ForumPostCreate)
        } else if str_eq(name, "forum.post.update") {
            Some(Method::ForumPostUpdate)
        } else if str_eq(name, "forum.post.delete") {
            Some(Method::ForumPostDelete)
        } else if str_eq(name, "activity.getAll") {
            Some(Method::ActivityGetAll)
        } else if str_eq(name, "feed.getAll") {
            Some(Method::FeedGetAll)
        } else {
            assert forall|method: Method| method.spec_name() != name@ by {
                let _ = method.spec_name();
            }
            None
        }
    }
}

/// Whether some method is called under a name.
pub open spec fn is_registered(name: Seq<char>) -> bool {
    exists|method: Method| #[trigger] method.spec_name() == name
}

/// The method that is called under a name, if there is one.
pub open spec fn registered(name: Seq<char>) -> Option<Method> {
    if is_registered(name) {
        Some(choose|method: Method| #[trigger] method.spec_name() == name)
    } else {
        None
    }
}

/// Length and three characters of a name: enough to tell the names of the
/// methods apart.
spec fn signature(name: Seq<char>) -> (nat, char, char, char) {
    (
        name.len(),
        name[0],
        if name.len() >= 6 {
            name[name.len() - 6]
        } else {
            ' '
        },
        name[name.len() - 3],
    )
}

/// The signature of the name of each method.
spec fn method_signature(method: Method) -> (nat, char, char, char) {
    match method {
        Method::Ping => (4, 'p', ' ', 'i'),
        Method::MandelaCreate => (14, 'm', 'c', 'a'),
        Method::MandelaUpdate => (14, 'm', 'u', 'a'),
        Method::MandelaGetOne => (14, 'm', 'g', 'O'),
        Method::MandelaGetAll => (14, 'm', 'g', 'A'),
        Method::MandelaDelete => (14, 'm', 'd', 'e'),
        Method::MandelaMark => (12, 'm', 'a', 'a'),
        Method::MandelaVote => (12, 'm', 'a', 'o'),
        Method::MandelaGetVoteUsers => (20, 'm', 'e', 'e'),
        Method::MandelaUpdateTrash => (19, 'm', 'e', 'a'),
        Method::UserGetNextId => (14, 'u', 'N', 't'),
        Method::UserCreate => (11, 'u', 'c', 'a'),
        Method::UserDelete => (11, 'u', 'd', 'e'),
        Method::UserAuth => (9, 'u', 'r', 'u'),
        Method::UserLogout => (11, 'u', 'l', 'o'),
        Method::UserGetOne => (11, 'u', 'g', 'O'),
        Method::UserUpdate => (11, 'u', 'u', 'a'),
        Method::UserUpdateToken => (16, 'u', 'e', 'k'),
        Method::UserUpdateProfile => (18, 'u', 'r', 'i'),
        Method::CommentCreate => (14, 'c', 'c', 'a'),
        Method::CommentGetAll => (14, 'c', 'g', 'A'),
        Method::CommentUpdate => (14, 'c', 'u', 'a'),
        Method::CommentDelete => (14, 'c', 'd', 'e'),
        Method::LikeCreate => (11, 'l', 'c', 'a'),
        Method::LikeDelete => (11, 'l', 'd', 'e'),
        Method::LikeGetUsers => (13, 'l', 't', 'e'),
        Method::SearchGetAll => (13, 's', 'g', 'A'),
        Method::RatingGetMandels => (17, 'r', 'a', 'e'),
        Method::RatingGetUsers => (15, 'r', 't', 'e'),
        Method::ForumGetAll => (12, 'f', 'g', 'A'),
        Method::ForumGetNew => (12, 'f', 'g', 'N'),
        Method::ForumCategoryCreate => (21, 'f', 'c', 'a'),
        Method::ForumCategoryGetOne => (21, 'f', 'g', 'O'),
        Method::ForumCategoryUpdate => (21, 'f', 'u', 'a'),
        Method::ForumCategoryDelete => (21, 'f', 'd', 'e'),
        Method::ForumSectionCreate => (20, 'f', 'c', 'a'),
        Method::ForumSectionGetAll => (20, 'f', 'g', 'A'),
        Method::ForumSectionGetOne => (20, 'f', 'g', 'O'),
        Method::ForumSectionUpdate => (20, 'f', 'u', 'a'),
        Method::ForumSectionDelete => (20, 'f', 'd', 'e'),
        Method::ForumTopicGetAll => (18, 'f', 'g', 'A'),
        Method::ForumTopicGetOne => (18, 'f', 'g', 'O'),
        Method::ForumTopicCreate => (18, 'f', 'c', 'a'),
        Method::ForumTopicUpdate => (18, 'f', 'u', 'a'),
        Method::ForumTopicDelete => (18, 'f', 'd', 'e'),
        Method::ForumTopicVote => (16, 'f', 'c', 'o'),
        Method::ForumTopicGetVoteUsers => (24, 'f', 'e', 'e'),
        Method::ForumPostGetAll => (17, 'f', 'g', 'A'),
        Method::ForumPostGetOne => (17, 'f', 'g', 'O'),
        Method::ForumPostCreate => (17, 'f', 'c', 'a'),
        Method::ForumPostUpdate => (17, 'f', 'u', 'a'),
        Method::ForumPostDelete => (17, 'f', 'd', 'e'),
        Method::ActivityGetAll => (15, 'a', 'g', 'A'),
        Method::FeedGetAll => (11, 'f', 'g', 'A'),
    }
}

proof fn lemma_signature(method: Method)
    ensures
        signature(method.spec_name()) == method_signature(method),
{
    match method {
        Method::Ping => {
            reveal_strlit("ping");
        },
        Method::MandelaCreate => {
            reveal_strlit("mandela.create");
        },
        Method::MandelaUpdate => {
            reveal_strlit("mandela.update");
        },
        Method::MandelaGetOne => {
            reveal_strlit("mandela.getOne");
        },
        Method::MandelaGetAll => {
            reveal_strlit("mandela.getAll");
        },
        Method::MandelaDelete => {
            reveal_strlit("mandela.delete");
        },
        Method::MandelaMark => {
            reveal_strlit("mandela.mark");
        },
        Method::MandelaVote => {
            reveal_strlit("mandela.vote");
        },
        Method::MandelaGetVoteUsers => {
            reveal_strlit("mandela.getVoteUsers");
        },
        Method::MandelaUpdateTrash => {
            reveal_strlit("mandela.updateTrash");
        },
        Method::UserGetNextId => {
            reveal_strlit("user.getNextId");
        },
        Method::UserCreate => {
            reveal_strlit("user.create");
        },
        Method::UserDelete => {
            reveal_strlit("user.delete");
        },
        Method::UserAuth => {
            reveal_strlit("user.auth");
        },
        Method::UserLogout => {
            reveal_strlit("user.logout");
        },
        Method::UserGetOne => {
            reveal_strlit("user.getOne");
        },
        Method::UserUpdate => {
            reveal_strlit("user.update");
        },
        Method::UserUpdateToken => {
            reveal_strlit("user.updateToken");
        },
        Method::UserUpdateProfile => {
            reveal_strlit("user.updateProfile");
        },
        Method::CommentCreate => {
            reveal_strlit("comment.create");
        },
        Method::CommentGetAll => {
            reveal_strlit("comment.getAll");
        },
        Method::CommentUpdate => {
            reveal_strlit("comment.update");
        },
        Method::CommentDelete => {
            reveal_strlit("comment.delete");
        },
        Method::LikeCreate => {
            reveal_strlit("like.create");
        },
        Method::LikeDelete => {
            reveal_strlit("like.delete");
        },
        Method::LikeGetUsers => {
            reveal_strlit("like.getUsers");
        },
        Method::SearchGetAll => {
            reveal_strlit("search.getAll");
        },
        Method::RatingGetMandels => {
            reveal_strlit("rating.getMandels");
        },
        Method::RatingGetUsers => {
            reveal_strlit("rating.getUsers");
        },
        Method::ForumGetAll => {
            reveal_strlit("forum.getAll");
        },
        Method::ForumGetNew => {
            reveal_strlit("forum.getNew");
        },
        Method::ForumCategoryCreate => {
            reveal_strlit("forum.category.create");
        },
        Method::ForumCategoryGetOne => {
            reveal_strlit("forum.category.getOne");
        },
        Method::ForumCategoryUpdate => {
            reveal_strlit("forum.category.update");
        },
        Method::ForumCategoryDelete => {
            reveal_strlit("forum.category.delete");
        },
        Method::ForumSectionCreate => {
            reveal_strlit("forum.section.create");
        },
        Method::ForumSectionGetAll => {
            reveal_strlit("forum.section.getAll");
        },
        Method::ForumSectionGetOne => {
            reveal_strlit("forum.section.getOne");
        },
        Method::ForumSectionUpdate => {
            reveal_strlit("forum.section.update");
        },
        Method::ForumSectionDelete => {
            reveal_strlit("forum.section.delete");
        },
        Method::ForumTopicGetAll => {
            reveal_strlit("forum.topic.getAll");
        },
        Method::ForumTopicGetOne => {
            reveal_strlit("forum.topic.getOne");
        },
        Method::ForumTopicCreate => {
            reveal_strlit("forum.topic.create");
        },
        Method::ForumTopicUpdate => {
            reveal_strlit("forum.topic.update");
        },
        Method::ForumTopicDelete => {
            reveal_strlit("forum.topic.delete");
        },
        Method::ForumTopicVote => {
            reveal_strlit("forum.topic.vote");
        },
        Method::ForumTopicGetVoteUsers => {
            reveal_strlit("forum.topic.getVoteUsers");
        },
        Method::ForumPostGetAll => {
            reveal_strlit("forum.post.getAll");
        },
        Method::ForumPostGetOne => {
            reveal_strlit("forum.post.getOne");
        },
        Method::ForumPostCreate => {
            reveal_strlit("forum.post.create");
        },
        Method::ForumPostUpdate => {
            reveal_strlit("forum.post.update");
        },
        Method::ForumPostDelete => {
            reveal_strlit("forum.post.delete");
        },
        Method::ActivityGetAll => {
            reveal_strlit("activity.getAll");
        },
        Method::FeedGetAll => {
            reveal_strlit("feed.getAll");
        },
    }
}

/// No two methods bear the same name.
pub proof fn lemma_names_are_distinct(a: Method, b: Method)
    requires
        a.spec_name() == b.spec_name(),
    ensures
        a == b,
{
    lemma_signature(a);
    lemma_signature(b);
}

/// Every method is found in the registry under its own name.
pub proof fn lemma_method_is_registered(method: Method)
    ensures
        is_registered(method.spec_name()),
        registered(method.spec_name()) == Some(method),
{
    assert(is_registered(method.spec_name()));
    lemma_names_are_distinct(method, registered(method.spec_name())->0);
}

} // verus!
