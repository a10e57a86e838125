//! The request and response bodies of the HTTP API that carry no rule of
//! their own beyond their shape.
use vstd::prelude::*;

verus! {

/// A new chat and who takes part in it.
#[derive(Debug, Clone)]
pub struct ChatCreate {
    pub name: String,
    pub is_group: bool,
    pub participant_ids: Vec<String>,
}

/// Changes to a chat; a field left out stays as it is.
#[derive(Debug, Clone)]
pub struct ChatUpdate {
    pub name: Option<String>,
    pub participant_ids: Option<Vec<String>>,
}

/// The API's documentation root.
#[derive(Debug, Clone, Copy)]
pub struct ApiDoc;

/// The description of an uploaded medium.
#[derive(Debug, Clone)]
pub struct MediaUpload {
    pub media_type: String,
    pub size: i64,
    pub mime_type: String,
}

/// An error answer: the message and the HTTP status.
#[derive(Debug, Clone)]
pub struct ErrorResponse {
    pub error: String,
    pub status: u16,
}

/// A reaction to add to a message.
#[derive(Debug, Clone)]
pub struct AddReactionRequest {
    pub emoji: String,
}

/// A reaction to take back from a message.
#[derive(Debug, Clone)]
pub struct RemoveReactionRequest {
    pub emoji: String,
}

/// The kinds of media a message may carry.
#[derive(Debug, Clone, Copy, PartialEq, Eq, Structural)]
pub enum MediaType {
    Image,
    Video,
    Audio,
    Document,
}

/// The claims of the message API's tokens.
#[derive(Debug, Clone)]
pub struct Claims {
    pub sub: String,
    pub exp: usize,
    pub iat: usize,
}

/// A request to create an account.
#[derive(Debug, Clone)]
pub struct RegisterRequest {
    pub username: String,
    pub email: String,
    pub password: String,
    pub display_name: Option<String>,
}

/// A public key for end-to-end encryption.
#[derive(Debug, Clone)]
pub struct PublicKeyRequest {
    pub public_key: String,
}

/// Changes to a user's profile; a field left out stays as it is.
#[derive(Debug, Clone)]
pub struct UpdateProfileInput {
    pub username: Option<String>,
    pub email: Option<String>,
}

/// A change to one column of a user's row.
#[derive(Debug, Clone, Copy, PartialEq, Eq, Structural)]
pub enum ProfileField {
    Username,
    Email,
}

impl UpdateProfileInput {
    /// The updates to make, in order: the username, then the email, each only
    /// when given.
    pub fn changes(&self) -> (r: Vec<(ProfileField, String)>)
        ensures
            r@.len() == (if self.username is Some { 1int } else { 0int }) + (if self.email is Some {
                1int
            } else {
                0int
            }),
            self.username matches Some(u) ==> r@[0].0 == ProfileField::Username && r@[0].1 == u,
            self.email matches Some(e) ==> r@[r@.len() - 1].0 == ProfileField::Email && r@[r@.len()
                - 1].1 == e,
    {
        let mut r: Vec<(ProfileField, String)> = Vec::new();
        if let Some(u) = &self.username {
            r.push((ProfileField::Username, u.clone()));
        }
        if let Some(e) = &self.email {
            r.push((ProfileField::Email, e.clone()));
        }
        r
    }
}

} // verus!
