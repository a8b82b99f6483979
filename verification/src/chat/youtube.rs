//! Turns what a YouTube live chat delivers into chat messages.

use vstd::prelude::*;
use vstd::string::StringExecFns;
use crate::chat::ChatMessage;
use crate::chat::ChatMessageView;
use crate::chat::ChatPlatform;
use crate::chat::Permission;

verus! {

/// One piece of a chat line.
#[derive(Debug, PartialEq, Eq)]
pub enum MessagePart {
    Text(String),
    /// An emoji; it adds nothing to the line's text.
    Emoji,
}

/// One line of a live chat, as far as the switcher's chat handling reads it.
#[derive(Debug, PartialEq, Eq)]
pub struct ChatLine {
    pub author: Option<String>,
    pub message: Vec<MessagePart>,
    pub is_owner: bool,
    pub is_moderator: bool,
}

/// The text that one piece adds to its line.
pub open spec fn part_text(part: MessagePart) -> Seq<char> {
    match part {
        MessagePart::Text(text) => text@,
        MessagePart::Emoji => Seq::empty(),
    }
}

/// The text of a line: the texts of its pieces, one after the other.
pub open spec fn line_text(parts: Seq<MessagePart>) -> Seq<char>
    decreases parts.len(),
{
    if parts.len() == 0 {
        Seq::empty()
    } else {
        line_text(parts.drop_last()) + part_text(parts.last())
    }
}

/// The permission of a line's author: the channel's owner is an admin, a
/// moderator a mod, everyone else public.
pub open spec fn author_permission(is_owner: bool, is_moderator: bool) -> Permission {
    if is_owner {
        Permission::Admin
    } else if is_moderator {
        Permission::Mod
    } else {
        Permission::Public
    }
}

/// The chat message that a line of the given channel stands for. An author
/// without a name is called `Unknown`.
pub open spec fn line_message(line: ChatLine, channel: Seq<char>) -> ChatMessageView {
    ChatMessageView {
        platform: ChatPlatform::Youtube,
        permission: author_permission(line.is_owner, line.is_moderator),
        sender: match line.author {
            Some(name) => name@,
            None => "Unknown"@,
        },
        message: line_text(line.message@),
        channel,
    }
}

/// The permission of a line's author.
pub fn permission_of(is_owner: bool, is_moderator: bool) -> (r: Permission)
    ensures
        r == author_permission(is_owner, is_moderator),
{
    if is_owner {
        Permission::Admin
    } else if is_moderator {
        Permission::Mod
    } else {
        Permission::Public
    }
}

/// Joins the texts of a line's pieces.
pub fn message_text(parts: &Vec<MessagePart>) -> (r: String)
    ensures
        r@ == line_text(parts@),
{
    let mut text = String::new();
    let mut i: usize = 0;
    while i < parts.len()
        invariant
            0 <= i <= parts.len(),
            text@ == line_text(parts@.subrange(0, i as int)),
        decreases parts.len() - i,
    {
        assert(parts@.subrange(0, i + 1).drop_last() =~= parts@.subrange(0, i as int));
        match &parts[i] {
            MessagePart::Text(piece) => {
                text.append(piece.as_str());
            },
            MessagePart::Emoji => {},
        }
        i += 1;
    }
    assert(parts@.subrange(0, parts.len() as int) =~= parts@);
    text
}

/// The chat message that a line of the given channel stands for.
pub fn chat_message(line: &ChatLine, channel: &str) -> (r: ChatMessage)
    ensures
        r@ == line_message(*line, channel@),
{
    let sender = match &line.author {
        Some(name) => name.clone(),
        None => "Unknown".to_owned(),
    };
    ChatMessage {
        platform: ChatPlatform::Youtube,
        permission: permission_of(line.is_owner, line.is_moderator),
        sender,
        message: message_text(&line.message),
        channel: channel.to_owned(),
    }
}

} // verus!
