//! The refusals of the HTTP handlers, each with its status and message.
use vstd::prelude::*;
use crate::app_error::{AppError, app_error_message, app_error_status};
use crate::text::owned;

verus! {

/// A request that a handler turns down.
#[derive(Debug, Clone, Copy, PartialEq, Eq, Structural)]
pub enum Refusal {
    EmptyContent,
    ContentTooLong,
    NotGroupMember,
    MessageNotFound,
    CannotEditOthersMessage,
    CannotDeleteOthersMessage,
    NotInSourceChat,
    NotInTargetChat,
    NoTargetChat,
    NotChatParticipant,
    NotGroupParticipant,
    NoChatAccess,
    NotSender,
    GroupNotFoundOrDenied,
    GroupNotFound,
    ChatNotFound,
    OnlyAdminsUpdate,
    OnlyAdminsAdd,
    OnlyAdminsRemove,
    GroupFull,
    CannotRemoveOwner,
    StatusNotFound,
    UserAlreadyExists,
    InvalidCredentials,
    OtpNotImplemented,
}

/// The HTTP status of a refusal.
pub open spec fn refusal_status(r: Refusal) -> u16 {
    match r {
        Refusal::EmptyContent | Refusal::ContentTooLong | Refusal::NoTargetChat | Refusal::GroupFull
        | Refusal::UserAlreadyExists | Refusal::InvalidCredentials | Refusal::OtpNotImplemented => 400,
        Refusal::MessageNotFound | Refusal::GroupNotFoundOrDenied | Refusal::GroupNotFound
        | Refusal::ChatNotFound | Refusal::StatusNotFound => 404,
        _ => 403,
    }
}

/// The message of a refusal.
pub open spec fn refusal_message(r: Refusal) -> Seq<char> {
    match r {
        Refusal::EmptyContent => "Message content cannot be empty"@,
        Refusal::ContentTooLong => "Message content exceeds maximum length of 4000 characters"@,
        Refusal::NotGroupMember => "Not a member of this group"@,
        Refusal::MessageNotFound => "Message not found"@,
        Refusal::CannotEditOthersMessage => "Cannot edit another user's message"@,
        Refusal::CannotDeleteOthersMessage => "Cannot delete another user's message"@,
        Refusal::NotInSourceChat => "Not a participant in source chat"@,
        Refusal::NotInTargetChat => "Not a participant in target chat"@,
        Refusal::NoTargetChat => "No target chat_id provided"@,
        Refusal::NotChatParticipant => "Not a participant in this chat"@,
        Refusal::NotGroupParticipant => "Not a participant in this group"@,
        Refusal::NoChatAccess => "No access to this chat"@,
        Refusal::NotSender => "Not the sender of this message"@,
        Refusal::GroupNotFoundOrDenied => "Group not found or access denied"@,
        Refusal::GroupNotFound => "Group not found"@,
        Refusal::ChatNotFound => "Chat not found"@,
        Refusal::OnlyAdminsUpdate => "Only admins can update group settings"@,
        Refusal::OnlyAdminsAdd => "Only admins can add members"@,
        Refusal::OnlyAdminsRemove => "Only admins can remove members"@,
        Refusal::GroupFull => "Group is full"@,
        Refusal::CannotRemoveOwner => "Cannot remove group owner"@,
        Refusal::StatusNotFound => "Status not found or not owned by user"@,
        Refusal::UserAlreadyExists => "User already exists"@,
        Refusal::InvalidCredentials => "Invalid credentials"@,
        Refusal::OtpNotImplemented => "OTP functionality not yet implemented"@,
    }
}

impl Refusal {
    /// The message of the refusal.
    pub fn message(&self) -> (m: &'static str)
        ensures
            m@ == refusal_message(*self),
    {
        match self {
            Refusal::EmptyContent => "Message content cannot be empty",
            Refusal::ContentTooLong => "Message content exceeds maximum length of 4000 characters",
            Refusal::NotGroupMember => "Not a member of this group",
            Refusal::MessageNotFound => "Message not found",
            Refusal::CannotEditOthersMessage => "Cannot edit another user's message",
            Refusal::CannotDeleteOthersMessage => "Cannot delete another user's message",
            Refusal::NotInSourceChat => "Not a participant in source chat",
            Refusal::NotInTargetChat => "Not a participant in target chat",
            Refusal::NoTargetChat => "No target chat_id provided",
            Refusal::NotChatParticipant => "Not a participant in this chat",
            Refusal::NotGroupParticipant => "Not a participant in this group",
            Refusal::NoChatAccess => "No access to this chat",
            Refusal::NotSender => "Not the sender of this message",
            Refusal::GroupNotFoundOrDenied => "Group not found or access denied",
            Refusal::GroupNotFound => "Group not found",
            Refusal::ChatNotFound => "Chat not found",
            Refusal::OnlyAdminsUpdate => "Only admins can update group settings",
            Refusal::OnlyAdminsAdd => "Only admins can add members",
            Refusal::OnlyAdminsRemove => "Only admins can remove members",
            Refusal::GroupFull => "Group is full",
            Refusal::CannotRemoveOwner => "Cannot remove group owner",
            Refusal::StatusNotFound => "Status not found or not owned by user",
            Refusal::UserAlreadyExists => "User already exists",
            Refusal::InvalidCredentials => "Invalid credentials",
            Refusal::OtpNotImplemented => "OTP functionality not yet implemented",
        }
    }

    /// The error response of the refusal: its status and message.
    pub fn to_app_error(&self) -> (e: AppError)
        ensures
            app_error_status(e) == refusal_status(*self),
            app_error_message(e) == refusal_message(*self),
    {
        let m = owned(self.message());
        match self {
            Refusal::EmptyContent | Refusal::ContentTooLong | Refusal::NoTargetChat
            | Refusal::GroupFull | Refusal::UserAlreadyExists | Refusal::InvalidCredentials
            | Refusal::OtpNotImplemented => AppError::BadRequest(m),
            Refusal::MessageNotFound | Refusal::GroupNotFoundOrDenied | Refusal::GroupNotFound
            | Refusal::ChatNotFound | Refusal::StatusNotFound => {
                AppError::NotFound(m)
            },
            _ => AppError::Forbidden(m),
        }
    }
}

/// Refuses with `refusal` unless `ok`.
pub fn require(ok: bool, refusal: Refusal) -> (r: Result<(), Refusal>)
    ensures
        ok ==> r is Ok,
        !ok ==> r == Err::<(), Refusal>(refusal),
{
    if ok {
        Ok(())
    } else {
        Err(refusal)
    }
}

/// The row a lookup found, or `refusal` when it found none.
pub fn found<T>(row: Option<T>, refusal: Refusal) -> (r: Result<T, Refusal>)
    ensures
        match row {
            Some(x) => r == Ok::<T, Refusal>(x),
            None => r == Err::<T, Refusal>(refusal),
        },
{
    match row {
        Some(x) => Ok(x),
        None => Err(refusal),
    }
}

} // verus!
