//! Comments on entries.

use crate::config::Config;
use crate::controller::mandela::MandelaTitle;
use crate::controller::{format_mandela_title, mandela_link};
use crate::telegram_bot::{send_admin_message, Outgoing};
use vstd::prelude::*;
use vstd::string::*;

verus! {

/// The text that announces a new comment: the heading of the catalogue, the
/// link to the entry, the name of the author and, after an empty line, the
/// comment itself.
pub open spec fn creation_text(
    domen: Seq<char>,
    title: MandelaTitle,
    user_name: Seq<char>,
    message: Seq<char>,
) -> Seq<char> {
    "Каталог\n"@ + mandela_link(domen, title) + "\n"@ + user_name + "\n\n"@ + message
}

/// The announcement of a new comment, which goes to the operators.
pub fn creation_notice(config: &Config, title: MandelaTitle, user_name: &str, message: &str) -> (out:
    Outgoing)
    ensures
        out.carries(
            &config.telegram_bot,
            config.telegram_bot.admin_chat_id@,
            creation_text(config.frontend.domen@, title, user_name@, message@),
        ),
{
    let mut text = String::from_str("Каталог\n");
    let link = format_mandela_title(&config.frontend, title);
    text.append(link.as_str());
    text.append("\n");
    text.append(user_name);
    text.append("\n\n");
    text.append(message);
    send_admin_message(&config.telegram_bot, text)
}

} // verus!
