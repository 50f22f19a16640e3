//! Posts of the forum.

use crate::config::Config;
use crate::telegram_bot::{send_admin_message, Outgoing};
use crate::text::{decimal, i64_to_decimal};
use crate::types::Id;
use vstd::prelude::*;
use vstd::string::*;

verus! {

/// The link to a topic on the site, with its name as text.
pub open spec fn topic_link(domen: Seq<char>, topic_id: Id, topic_name: Seq<char>) -> Seq<char> {
    "<a href='"@ + domen + "/forum/topic/"@ + decimal(topic_id as int) + "'>"@ + topic_name
        + "</a>"@
}

/// The text that announces a new post: the heading of the forum, the link to
/// the topic, the name of the author and, after an empty line, the post.
pub open spec fn creation_text(
    domen: Seq<char>,
    topic_id: Id,
    topic_name: Seq<char>,
    user_name: Seq<char>,
    post: Seq<char>,
) -> Seq<char> {
    "Форум\n"@ + topic_link(domen, topic_id, topic_name) + "\n"@ + user_name + "\n\n"@ + post
}

/// Formats the link to a topic on the site:
/// `<a href='<domen>/forum/topic/<id>'><name></a>`.
pub fn format_topic_title(domen: &str, topic_id: Id, topic_name: &str) -> (link: String)
    ensures
        link@ == topic_link(domen@, topic_id, topic_name@),
{
    let mut link = String::from_str("<a href='");
    link.append(domen);
    link.append("/forum/topic/");
    let id = i64_to_decimal(topic_id as i64);
    link.append(id.as_str());
    link.append("'>");
    link.append(topic_name);
    link.append("</a>");
    link
}

/// The announcement of a new post, which goes to the operators.
pub fn creation_notice(
    config: &Config,
    topic_id: Id,
    topic_name: &str,
    user_name: &str,
    post: &str,
) -> (out: Outgoing)
    ensures
        out.carries(
            &config.telegram_bot,
            config.telegram_bot.admin_chat_id@,
            creation_text(config.frontend.domen@, topic_id, topic_name@, user_name@, post@),
        ),
{
    let mut text = String::from_str("Форум\n");
    let link = format_topic_title(config.frontend.domen.as_str(), topic_id, topic_name);
    text.append(link.as_str());
    text.append("\n");
    text.append(user_name);
    text.append("\n\n");
    text.append(post);
    send_admin_message(&config.telegram_bot, text)
}

} // verus!
