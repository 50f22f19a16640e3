//! The notification dispatcher: what goes out to the chat API.
//!
//! Notifications are fire and forget. This module prepares the request; the
//! caller sends it on a detached task and only logs how it went.

use crate::config::TelegramBot;
use crate::json_rpc::value::{json_of, null, Json};
use serde_json::Value;
use vstd::prelude::*;
use vstd::string::*;
use vstd::utf8::*;

pub mod api;

verus! {

/// The chat API takes no text longer than this many bytes.
pub const TEXT_LIMIT: usize = 4096;

/// How far below the limit a text that is too long is cut.
pub const SAFE_CUT_LENGTH: usize = 16;

/// Where a text of the given bytes is cut: at `limit`, or at the character
/// boundary next below it where `limit` falls inside a character.
pub open spec fn cut_point(bytes: Seq<u8>, limit: int) -> int
    decreases limit,
{
    if limit <= 0 {
        0
    } else if is_char_boundary(bytes, limit) {
        limit
    } else {
        cut_point(bytes, limit - 1)
    }
}

/// The part of a text that is kept when it is cut.
pub open spec fn kept(text: Seq<char>) -> Seq<char> {
    let bytes = encode_utf8(text);
    decode_utf8(bytes.subrange(0, cut_point(bytes, TEXT_LIMIT - SAFE_CUT_LENGTH)))
}

/// The text as it is sent: a text of more than [`TEXT_LIMIT`] bytes is cut and
/// marked with `[...]`, any other text goes out as it is.
pub open spec fn fitted(text: Seq<char>) -> Seq<char> {
    if encode_utf8(text).len() > TEXT_LIMIT {
        kept(text) + "[...]"@
    } else {
        text
    }
}

/// Fits a text to the limit of the chat API.
pub fn fit_text(text: String) -> (res: String)
    ensures
        res@ == fitted(text@),
{
    let s = text.as_str();
    if s.as_bytes().len() > TEXT_LIMIT {
        let ghost bytes = encode_utf8(text@);
        let mut cut: usize = TEXT_LIMIT - SAFE_CUT_LENGTH;
        proof {
            encode_utf8_valid_utf8(text@);
            is_char_boundary_start_end_of_seq(bytes);
        }
        while !s.is_char_boundary(cut)
            invariant
                cut <= TEXT_LIMIT - SAFE_CUT_LENGTH,
                bytes == s.spec_bytes(),
                valid_utf8(bytes),
                is_char_boundary(bytes, 0),
                cut_point(bytes, TEXT_LIMIT - SAFE_CUT_LENGTH) == cut_point(bytes, cut as int),
            decreases cut,
        {
            cut -= 1;
        }
        let (head, _) = s.split_at(cut);
        proof {
            encode_utf8_decode_utf8(head@);
            assert(cut_point(bytes, cut as int) == cut);
            assert(head@ == kept(text@));
        }
        let mut res = String::from_str(head);
        res.append("[...]");
        res
    } else {
        text
    }
}

/// The address of a method of the chat API: `<url>/bot<token>/<method>`.
pub fn make_url(bot: &TelegramBot, method: &str) -> (url: String)
    ensures
        url@ == bot.url@ + "/bot"@ + bot.token@ + "/"@ + method@,
{
    let mut url = bot.url.clone();
    url.append("/bot");
    url.append(bot.token.as_str());
    url.append("/");
    url.append(method);
    url
}

/// The parameters of a message to a chat: the text fitted to the limit, to be
/// read as HTML.
pub fn send_message_to(chat_id: String, text: String) -> (params: api::SendMessageParams)
    ensures
        params.chat_id@ == chat_id@,
        params.text@ == fitted(text@),
        params.parse_mode matches Some(mode) && mode@ == "HTML"@,
{
    api::SendMessageParams {
        chat_id,
        text: fit_text(text),
        parse_mode: Some(String::from_str("HTML")),
    }
}

/// One request to the chat API: where it goes and what it carries.
#[derive(Debug)]
pub struct Outgoing {
    pub url: String,
    pub params: api::SendMessageParams,
}

impl Outgoing {
    /// Whether this is the message with the given text to the given chat.
    pub open spec fn carries(&self, bot: &TelegramBot, chat_id: Seq<char>, text: Seq<char>) -> bool {
        &&& self.url@ == bot.url@ + "/bot"@ + bot.token@ + "/"@ + "sendMessage"@
        &&& self.params.chat_id@ == chat_id
        &&& self.params.text@ == fitted(text)
        &&& self.params.parse_mode matches Some(mode) && mode@ == "HTML"@
    }
}

fn message_to(bot: &TelegramBot, chat_id: String, text: String) -> (out: Outgoing)
    ensures
        out.carries(bot, chat_id@, text@),
{
    Outgoing { url: make_url(bot, "sendMessage"), params: send_message_to(chat_id, text) }
}

/// The message with the given text to the channel, which everyone reads.
pub fn send_message(bot: &TelegramBot, text: String) -> (out: Outgoing)
    ensures
        out.carries(bot, bot.channel@, text@),
{
    message_to(bot, bot.channel.clone(), text)
}

/// The message with the given text to the chat of the operators.
pub fn send_admin_message(bot: &TelegramBot, text: String) -> (out: Outgoing)
    ensures
        out.carries(bot, bot.admin_chat_id@, text@),
{
    message_to(bot, bot.admin_chat_id.clone(), text)
}

/// How a request to the chat API went.
#[derive(Debug)]
pub enum Delivery {
    /// The API took the request and answered with this result.
    Delivered(Value),
    /// The API refused the request, with this description.
    Refused(String),
}

/// Reads the answer of the chat API. An answer that is not `ok` is a refusal,
/// with its description, or the empty text where it has none. An answer that
/// is `ok` delivers its result, or null where it has none.
pub fn read_response(response: api::Response) -> (delivery: Delivery)
    ensures
        match (response.ok, delivery) {
            (true, Delivery::Delivered(value)) => match response.result {
                Some(result) => value == result,
                None => json_of(value) == Json::Null,
            },
            (false, Delivery::Refused(reason)) => match response.description {
                Some(description) => reason == description,
                None => reason@ == Seq::<char>::empty(),
            },
            _ => false,
        },
{
    if !response.ok {
        match response.description {
            Some(description) => Delivery::Refused(description),
            None => Delivery::Refused(String::new()),
        }
    } else {
        match response.result {
            Some(result) => Delivery::Delivered(result),
            None => Delivery::Delivered(null()),
        }
    }
}

/// The encoding of a text in two parts is the encoding of the first part
/// followed by that of the second.
pub proof fn lemma_encode_concat(a: Seq<char>, b: Seq<char>)
    ensures
        encode_utf8(a + b) == encode_utf8(a) + encode_utf8(b),
    decreases a.len(),
{
    if a.len() == 0 {
        assert(a + b =~= b);
        assert(encode_utf8(a) + encode_utf8(b) =~= encode_utf8(b));
    } else {
        lemma_encode_concat(a.drop_first(), b);
        assert((a + b).drop_first() =~= a.drop_first() + b);
        assert((a + b)[0] == a[0]);
        assert(encode_utf8(a + b) =~= encode_utf8(a) + encode_utf8(b));
    }
}

/// A cut point lies between zero and the limit, on a character boundary.
pub proof fn lemma_cut_point_is_boundary(bytes: Seq<u8>, limit: int)
    requires
        valid_utf8(bytes),
        0 <= limit,
    ensures
        0 <= cut_point(bytes, limit) <= limit,
        is_char_boundary(bytes, cut_point(bytes, limit)),
    decreases limit,
{
    is_char_boundary_start_end_of_seq(bytes);
    if limit > 0 && !is_char_boundary(bytes, limit) {
        lemma_cut_point_is_boundary(bytes, limit - 1);
    }
}

/// A text of more than [`TEXT_LIMIT`] bytes goes out as a head of itself
/// followed by `[...]`, in no more than [`TEXT_LIMIT`] bytes: the head takes
/// at most `TEXT_LIMIT - SAFE_CUT_LENGTH` of them, the mark five.
pub proof fn lemma_long_text_is_cut(text: Seq<char>)
    requires
        encode_utf8(text).len() > TEXT_LIMIT,
    ensures
        fitted(text) == kept(text) + "[...]"@,
        kept(text).is_prefix_of(text),
        encode_utf8(kept(text)).len() <= TEXT_LIMIT - SAFE_CUT_LENGTH,
        encode_utf8(fitted(text)).len() == encode_utf8(kept(text)).len() + 5,
        encode_utf8(fitted(text)).len() <= TEXT_LIMIT,
{
    let bytes = encode_utf8(text);
    let limit = TEXT_LIMIT - SAFE_CUT_LENGTH;
    let cut = cut_point(bytes, limit);
    let head = bytes.subrange(0, cut);
    encode_utf8_valid_utf8(text);
    encode_utf8_decode_utf8(text);
    lemma_cut_point_is_boundary(bytes, limit);
    valid_utf8_split(bytes, cut);
    decode_utf8_split(bytes, cut);
    decode_utf8_encode_utf8(head);
    let rest = decode_utf8(bytes.subrange(cut, bytes.len() as int));
    assert(text == kept(text) + rest);
    assert(text.subrange(0, kept(text).len() as int) =~= kept(text));
    lemma_encode_concat(kept(text), "[...]"@);
    reveal_strlit("[...]");
    assert(is_ascii_chars("[...]"@));
    is_ascii_chars_encode_utf8("[...]"@);
}

/// Within any four bytes in a row of a text there is a character boundary:
/// no character takes more than four bytes.
proof fn lemma_boundary_within_four(bytes: Seq<u8>, index: int)
    requires
        valid_utf8(bytes),
        0 <= index <= bytes.len(),
    ensures
        exists|boundary: int|
            index - 4 < boundary <= index && 0 <= boundary && #[trigger] is_char_boundary(
                bytes,
                boundary,
            ),
    decreases bytes.len(),
{
    is_char_boundary_start_end_of_seq(bytes);
    if bytes.len() == 0 {
        assert(is_char_boundary(bytes, 0));
    } else {
        let first = length_of_first_scalar(bytes);
        let rest = pop_first_scalar(bytes);
        assert(1 <= first <= 4 && first <= bytes.len());
        if index < first {
            assert(is_char_boundary(bytes, 0));
        } else {
            lemma_boundary_within_four(rest, index - first);
            let inner = choose|boundary: int|
                index - first - 4 < boundary <= index - first && 0 <= boundary
                    && #[trigger] is_char_boundary(rest, boundary);
            assert(is_char_boundary(bytes, inner + first)) by {
                reveal_with_fuel(is_char_boundary, 2);
            }
        }
    }
}

/// A cut point lies fewer than four bytes below the limit, where the text
/// reaches the limit.
pub proof fn lemma_cut_point_is_near(bytes: Seq<u8>, limit: int)
    requires
        valid_utf8(bytes),
        0 <= limit <= bytes.len(),
    ensures
        limit - 4 < cut_point(bytes, limit) <= limit,
{
    lemma_boundary_within_four(bytes, limit);
    let boundary = choose|boundary: int|
        limit - 4 < boundary <= limit && 0 <= boundary && #[trigger] is_char_boundary(
            bytes,
            boundary,
        );
    lemma_cut_point_reaches(bytes, limit, boundary);
    lemma_cut_point_is_boundary(bytes, limit);
}

/// The cut point for a limit is not below any boundary that is not above the
/// limit.
proof fn lemma_cut_point_reaches(bytes: Seq<u8>, limit: int, boundary: int)
    requires
        0 <= boundary <= limit,
        is_char_boundary(bytes, boundary),
    ensures
        boundary <= cut_point(bytes, limit),
    decreases limit,
{
    if limit > 0 && !is_char_boundary(bytes, limit) {
        lemma_cut_point_reaches(bytes, limit - 1, boundary);
    }
}

/// Of a text that is too long, all but at most three of the first
/// `TEXT_LIMIT - SAFE_CUT_LENGTH` bytes are kept.
pub proof fn lemma_long_text_keeps_its_head(text: Seq<char>)
    requires
        encode_utf8(text).len() > TEXT_LIMIT,
    ensures
        TEXT_LIMIT - SAFE_CUT_LENGTH - 4 < encode_utf8(kept(text)).len() <= TEXT_LIMIT
            - SAFE_CUT_LENGTH,
{
    let bytes = encode_utf8(text);
    let limit = TEXT_LIMIT - SAFE_CUT_LENGTH;
    encode_utf8_valid_utf8(text);
    lemma_cut_point_is_near(bytes, limit);
    lemma_cut_point_is_boundary(bytes, limit);
    valid_utf8_split(bytes, cut_point(bytes, limit));
    decode_utf8_encode_utf8(bytes.subrange(0, cut_point(bytes, limit)));
}

/// A text that has been fitted goes out as it is when it is fitted again.
pub proof fn lemma_fitting_settles(text: Seq<char>)
    ensures
        fitted(fitted(text)) == fitted(text),
{
    if encode_utf8(text).len() > TEXT_LIMIT {
        lemma_long_text_is_cut(text);
    }
}

/// A text of plain ASCII that is too long is cut after exactly
/// `TEXT_LIMIT - SAFE_CUT_LENGTH` characters.
pub proof fn lemma_ascii_text_is_cut_at_limit(text: Seq<char>)
    requires
        is_ascii_chars(text),
        text.len() > TEXT_LIMIT,
    ensures
        fitted(text) == text.take(TEXT_LIMIT - SAFE_CUT_LENGTH) + "[...]"@,
{
    let bytes = encode_utf8(text);
    let limit = TEXT_LIMIT - SAFE_CUT_LENGTH;
    let head = text.take(limit);
    encode_utf8_valid_utf8(text);
    is_ascii_chars_encode_utf8(text);
    is_ascii_chars_nat_bound(text);
    assert(!is_continuation_byte(bytes[limit])) by {
        assert(text[limit] as u8 == bytes[limit]);
        assert((text[limit] as nat) < 128);
    }
    is_char_boundary_iff_not_is_continuation_byte(bytes, limit);
    assert(cut_point(bytes, limit) == limit);
    assert(is_ascii_chars(head));
    is_ascii_chars_encode_utf8(head);
    assert(encode_utf8(head) =~= bytes.subrange(0, limit)) by {
        assert forall|i: int| 0 <= i < limit implies encode_utf8(head)[i] == bytes[i] by {
            assert(head[i] as u8 == encode_utf8(head)[i]);
            assert(text[i] as u8 == bytes[i]);
        }
    }
    encode_utf8_decode_utf8(head);
}

} // verus!
