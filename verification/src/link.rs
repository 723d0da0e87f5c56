//! Links to messages.

use vstd::prelude::*;
use teloxide::types::{ChatId, Message, MessageId};
use crate::text::{append_decimal, decimal, owned};

verus! {

/// The largest id of a channel or supergroup; the ids of the others lie below it.
pub const MAX_CHANNEL_ID: i64 = -1_000_000_000_000;

/// The smallest id of a channel or supergroup.
pub const MIN_CHANNEL_ID: i64 = -1_997_852_516_352;

/// The largest id of a user; users have the ids from zero on, groups the negative ones above the
/// channels.
pub const MAX_USER_ID: i64 = 1_099_511_627_775;

/// An address holds no more than four gigabytes; no user name comes near this many characters.
pub const MAX_USERNAME_CHARS: usize = 0x1000_0000;

/// The id is that of a channel or supergroup.
pub open spec fn is_channel(chat_id: i64) -> bool {
    MIN_CHANNEL_ID <= chat_id <= MAX_CHANNEL_ID
}

/// Messages of such a chat can be addressed: its id is one that a chat can have.
pub open spec fn linkable(chat_id: i64, username: Option<Seq<char>>) -> bool {
    &&& MIN_CHANNEL_ID <= chat_id <= MAX_USER_ID
    &&& username matches Some(u) ==> u.len() <= MAX_USERNAME_CHARS
}

/// A user name of letters, digits and underscores, which an address shows as it is.
pub open spec fn is_plain(username: Seq<char>) -> bool {
    &&& username.len() > 0
    &&& forall|i: int|
        0 <= i < username.len() ==> {
            let c = #[trigger] username[i];
            'a' <= c <= 'z' || 'A' <= c <= 'Z' || '0' <= c <= '9' || c == '_'
        }
}

/// The address that `teloxide` gives to a message, if it gives one.
pub uninterp spec fn public_url(
    chat_id: i64,
    username: Option<Seq<char>>,
    message_id: i32,
) -> Option<Seq<char>>;

/// `teloxide::types::Message::url_of`, the address as text. Messages of channels and supergroups
/// have an address on `t.me`, below the user name of the chat, or below `c` and the bare id of
/// the chat where it has no user name; other messages have none. It panics on an id that no chat
/// has. Not stated is how a user name with other characters than letters, digits and underscores
/// is escaped.
#[verifier::external_body]
fn message_url(chat_id: i64, username: Option<&str>, message_id: i32) -> (r: Option<String>)
    requires
        linkable(chat_id, username.deep_view()),
    ensures
        r.deep_view() == public_url(chat_id, username.deep_view(), message_id),
        r is Some <==> is_channel(chat_id),
        r matches Some(url) ==> "https://t.me/"@.is_prefix_of(url@),
        r matches Some(url) ==> username is None ==> url@ == "https://t.me/c/"@ + decimal(
            MAX_CHANNEL_ID - chat_id,
        ) + "/"@ + decimal(message_id as int),
        r matches Some(url) ==> username matches Some(u) ==> is_plain(u@) ==> url@
            == "https://t.me/"@ + u@ + "/"@ + decimal(message_id as int),
{
    Message::url_of(ChatId(chat_id), username, MessageId(message_id)).map(|url| url.to_string())
}

/// The link to a message, given its public address, if it has one. In a private chat the id of
/// the chat is that of the user.
pub open spec fn message_link(url: Option<Seq<char>>, chat_id: i64, msg_id: i32) -> Seq<char> {
    match url {
        Some(u) => u,
        None => "tg://openmessage?user_id="@ + decimal(chat_id as int) + "&message_id="@ + decimal(
            msg_id as int,
        ),
    }
}

/// The link to a message, given its public address, if it has one.
pub fn link_or_fallback(url: Option<String>, chat_id: i64, msg_id: i32) -> (r: String)
    ensures
        r@ == message_link(url.deep_view(), chat_id, msg_id),
{
    match url {
        Some(u) => u,
        None => {
            let mut r: String = owned("tg://openmessage?user_id=");
            append_decimal(&mut r, chat_id);
            r.append("&message_id=");
            append_decimal(&mut r, msg_id as i64);
            assert(r@ =~= message_link(None, chat_id, msg_id));
            r
        },
    }
}

/// The link to a message, for all but the chats whose user name an address has to escape.
pub open spec fn known_link(
    chat_id: i64,
    username: Option<Seq<char>>,
    msg_id: i32,
) -> Option<Seq<char>> {
    if !is_channel(chat_id) {
        Some(message_link(None, chat_id, msg_id))
    } else {
        match username {
            None => Some(
                "https://t.me/c/"@ + decimal(MAX_CHANNEL_ID - chat_id) + "/"@ + decimal(
                    msg_id as int,
                ),
            ),
            Some(u) => if is_plain(u) {
                Some("https://t.me/"@ + u + "/"@ + decimal(msg_id as int))
            } else {
                None
            },
        }
    }
}

/// Tells whether `build_message_link` may be called.
pub fn is_linkable(chat_id: i64, username: Option<&str>) -> (r: bool)
    ensures
        r == linkable(chat_id, username.deep_view()),
{
    let fits: bool = match username {
        Some(u) => u.unicode_len() <= MAX_USERNAME_CHARS,
        None => true,
    };
    MIN_CHANNEL_ID <= chat_id && chat_id <= MAX_USER_ID && fits
}

/// The link to a message: its public address where it has one, else a link that opens the chat.
/// There always is one.
pub fn build_message_link(chat_id: i64, username: Option<&str>, msg_id: i32) -> (r: String)
    requires
        linkable(chat_id, username.deep_view()),
    ensures
        r@ == message_link(public_url(chat_id, username.deep_view(), msg_id), chat_id, msg_id),
        known_link(chat_id, username.deep_view(), msg_id) matches Some(link) ==> r@ == link,
        r@.len() > 0,
{
    let url: Option<String> = message_url(chat_id, username, msg_id);
    proof {
        reveal_strlit("https://t.me/");
        reveal_strlit("tg://openmessage?user_id=");
    }
    link_or_fallback(url, chat_id, msg_id)
}

/// A message with a public address is linked by it. Any other is linked by a text that opens the
/// chat, and that tells both the chat and the message.
pub proof fn law_links_lead_to_the_message(url: Option<Seq<char>>, chat_id: i64, msg_id: i32)
    ensures
        url matches Some(u) ==> message_link(url, chat_id, msg_id) == u,
        url is None ==> message_link(url, chat_id, msg_id) == "tg://openmessage?user_id="@
            + decimal(chat_id as int) + "&message_id="@ + decimal(msg_id as int),
{
}

/// Which link is known: outside channels the one that opens the chat, in a channel without a user
/// name the one below the bare id of the channel, and below a plain user name that name.
pub proof fn law_known_links(chat_id: i64, username: Seq<char>, msg_id: i32)
    ensures
        (chat_id > -1_000_000_000_000 || chat_id < -1_997_852_516_352) ==> known_link(
            chat_id,
            None,
            msg_id,
        ) == known_link(chat_id, Some(username), msg_id) && known_link(chat_id, None, msg_id)
            == Some(
            "tg://openmessage?user_id="@ + decimal(chat_id as int) + "&message_id="@ + decimal(
                msg_id as int,
            ),
        ),
        -1_997_852_516_352 <= chat_id <= -1_000_000_000_000 ==> known_link(chat_id, None, msg_id)
            == Some(
            "https://t.me/c/"@ + decimal(-1_000_000_000_000 - chat_id) + "/"@ + decimal(
                msg_id as int,
            ),
        ),
        -1_997_852_516_352 <= chat_id <= -1_000_000_000_000 && username.len() > 0 && (forall|i: int|
            0 <= i < username.len() ==> {
                let c = #[trigger] username[i];
                'a' <= c <= 'z' || 'A' <= c <= 'Z' || '0' <= c <= '9' || c == '_'
            }) ==> known_link(chat_id, Some(username), msg_id) == Some(
            "https://t.me/"@ + username + "/"@ + decimal(msg_id as int),
        ),
{
}

/// A message can be linked in every chat whose id a channel, a group or a user can have; a user
/// name is no obstacle up to a length that none has.
pub proof fn law_ids_of_chats_are_linkable(chat_id: i64, username: Option<Seq<char>>)
    ensures
        (username matches Some(u) ==> u.len() <= 0x1000_0000) ==> (linkable(chat_id, username)
            <==> -1_997_852_516_352 <= chat_id <= 1_099_511_627_775),
{
}

} // verus!
