//! The rules of sending, editing, deleting and forwarding chat messages.
use vstd::prelude::*;
use crate::refusal::Refusal;
use crate::signaling::PushNotice;
use crate::text::{is_blank, is_blank_seq, owned};

verus! {

/// The longest message accepted, in bytes of UTF-8.
pub const MAX_MESSAGE_LENGTH: usize = 4000;

/// Why a message text is refused, if it is: blank (empty or only white space),
/// or longer than the limit.
pub open spec fn content_refusal(content: &str) -> Option<Refusal> {
    if is_blank_seq(content@) {
        Some(Refusal::EmptyContent)
    } else if content.len() > MAX_MESSAGE_LENGTH {
        Some(Refusal::ContentTooLong)
    } else {
        None
    }
}

/// Checks the text of a message that is sent or edited.
pub fn validate_content(content: &str) -> (r: Result<(), Refusal>)
    ensures
        match content_refusal(content) {
            None => r is Ok,
            Some(refusal) => r == Err::<(), Refusal>(refusal),
        },
{
    if is_blank(content) {
        return Err(Refusal::EmptyContent);
    }
    if content.len() > MAX_MESSAGE_LENGTH {
        return Err(Refusal::ContentTooLong);
    }
    Ok(())
}

/// Only a member of a group may send to it or read it.
pub fn check_group_member(is_member: bool) -> (r: Result<(), Refusal>)
    ensures
        is_member ==> r is Ok,
        !is_member ==> r == Err::<(), Refusal>(Refusal::NotGroupMember),
{
    crate::refusal::require(is_member, Refusal::NotGroupMember)
}

/// The message that was looked up, or `Message not found`.
pub fn require_message<T>(found: Option<T>) -> (r: Result<T, Refusal>)
    ensures
        match found {
            Some(m) => r == Ok::<T, Refusal>(m),
            None => r == Err::<T, Refusal>(Refusal::MessageNotFound),
        },
{
    match found {
        Some(m) => Ok(m),
        None => Err(Refusal::MessageNotFound),
    }
}

/// What a user wants to do to a message.
#[derive(Debug, Clone, Copy, PartialEq, Eq, Structural)]
pub enum MessageChange {
    Edit,
    Delete,
}

/// Only the sender of a message may edit or delete it.
pub fn check_sender(sender_id: u128, user_id: u128, change: MessageChange) -> (r: Result<(), Refusal>)
    ensures
        sender_id == user_id ==> r is Ok,
        sender_id != user_id ==> r == Err::<(), Refusal>(
            match change {
                MessageChange::Edit => Refusal::CannotEditOthersMessage,
                MessageChange::Delete => Refusal::CannotDeleteOthersMessage,
            },
        ),
{
    if sender_id == user_id {
        Ok(())
    } else {
        match change {
            MessageChange::Edit => Err(Refusal::CannotEditOthersMessage),
            MessageChange::Delete => Err(Refusal::CannotDeleteOthersMessage),
        }
    }
}

/// A participation lookup (`SELECT EXISTS ...`), where an unknown answer
/// counts as no.
pub fn check_participant(exists: Option<bool>, refusal: Refusal) -> (r: Result<(), Refusal>)
    ensures
        exists == Some(true) ==> r is Ok,
        exists != Some(true) ==> r == Err::<(), Refusal>(refusal),
{
    match exists {
        Some(true) => Ok(()),
        _ => Err(refusal),
    }
}

/// The chat a message is forwarded to: the first of those named.
pub fn forward_target(chat_ids: &Vec<u128>) -> (r: Result<u128, Refusal>)
    ensures
        chat_ids@.len() > 0 ==> r == Ok::<u128, Refusal>(chat_ids@[0]),
        chat_ids@.len() == 0 ==> r == Err::<u128, Refusal>(Refusal::NoTargetChat),
{
    if chat_ids.len() > 0 {
        Ok(chat_ids[0])
    } else {
        Err(Refusal::NoTargetChat)
    }
}

/// Where a message goes.
#[derive(Debug, Clone, Copy, PartialEq, Eq, Structural)]
pub enum Conversation {
    Chat,
    Group,
}

/// The notice pushed to the other participants when a message is sent to
/// the chat or group `target_id`: titled by the kind of conversation, with the
/// sender's display name (or a generic line) as body and the target's id as data.
pub fn message_notice(kind: Conversation, sender_name: Option<String>, target_id: &str) -> (n:
    PushNotice)
    ensures
        n.title@ == match kind {
            Conversation::Chat => "New Message"@,
            Conversation::Group => "New Group Message"@,
        },
        n.body@ == match sender_name {
            Some(s) => s@,
            None => match kind {
                Conversation::Chat => "New message"@,
                Conversation::Group => "New group message"@,
            },
        },
        n.data@.len() == 1,
        n.data@[0].0@ == match kind {
            Conversation::Chat => "chat_id"@,
            Conversation::Group => "group_id"@,
        },
        n.data@[0].1@ == target_id@,
{
    let (title, fallback, key) = match kind {
        Conversation::Chat => ("New Message", "New message", "chat_id"),
        Conversation::Group => ("New Group Message", "New group message", "group_id"),
    };
    let body = match sender_name {
        Some(s) => s,
        None => owned(fallback),
    };
    PushNotice { title: owned(title), body, data: vec![(owned(key), owned(target_id))] }
}

/// The name a message's sender is shown with: the display name, or `Unknown`.
pub fn sender_name_or_unknown(display_name: Option<String>) -> (s: String)
    ensures
        s@ == match display_name {
            Some(n) => n@,
            None => "Unknown"@,
        },
{
    match display_name {
        Some(n) => n,
        None => owned("Unknown"),
    }
}

/// The text a stored message is shown with: its content, or the empty text
/// when it has none.
pub fn content_or_empty(content: Option<String>) -> (s: String)
    ensures
        s@ == match content {
            Some(c) => c@,
            None => Seq::<char>::empty(),
        },
{
    match content {
        Some(c) => c,
        None => String::new(),
    }
}

} // verus!
