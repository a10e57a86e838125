//! Where uploaded files are stored and served from, and the ownership rules of
//! media and statuses.
use vstd::prelude::*;
use crate::refusal::Refusal;
use crate::text::{owned, push_str};

verus! {

/// Where an uploaded file is written and the URL it is served at.
pub struct StoredFile {
    pub path: String,
    pub url: String,
}

/// A stored file named `name` in directory `dir`, served under `/<dir>/`.
pub open spec fn stored_file_spec(dir: Seq<char>, name: Seq<char>) -> (Seq<char>, Seq<char>) {
    (dir + "/"@ + name, "/"@ + dir + "/"@ + name)
}

/// `dir/name` and `/dir/name`.
fn stored_in(dir: &str, name: &str) -> (f: StoredFile)
    ensures
        (f.path@, f.url@) == stored_file_spec(dir@, name@),
{
    let mut path = owned(dir);
    push_str(&mut path, "/");
    push_str(&mut path, name);
    let mut url = owned("/");
    push_str(&mut url, dir);
    push_str(&mut url, "/");
    push_str(&mut url, name);
    proof {
        assert(path@ =~= dir@ + "/"@ + name@);
        assert(url@ =~= "/"@ + dir@ + "/"@ + name@);
    }
    StoredFile { path, url }
}

/// The name an uploaded file keeps, or `default` when it came without one.
pub open spec fn name_or(name: Option<Seq<char>>, default: Seq<char>) -> Seq<char> {
    match name {
        Some(n) => n,
        None => default,
    }
}

/// The views of an optional file name.
pub open spec fn name_view(name: Option<&str>) -> Option<Seq<char>> {
    match name {
        Some(n) => Some(n@),
        None => None,
    }
}

/// A media upload: written to `media_uploads/<name>` and served at
/// `/media/<name>`, where the name is the uploaded one or `file`.
pub fn media_upload_location(file_name: Option<&str>) -> (f: StoredFile)
    ensures
        f.path@ == "media_uploads/"@ + name_or(name_view(file_name), "file"@),
        f.url@ == "/media/"@ + name_or(name_view(file_name), "file"@),
{
    let name = match file_name {
        Some(n) => n,
        None => "file",
    };
    let mut path = owned("media_uploads/");
    push_str(&mut path, name);
    let mut url = owned("/media/");
    push_str(&mut url, name);
    StoredFile { path, url }
}

/// The kind of thing an avatar belongs to.
#[derive(Debug, Clone, Copy, PartialEq, Eq, Structural)]
pub enum AvatarOwner {
    User,
    Group,
}

/// The directory and the file-name prefix of each kind of avatar.
pub open spec fn avatar_dir_prefix(owner: AvatarOwner) -> (Seq<char>, Seq<char>) {
    match owner {
        AvatarOwner::User => ("user_avatars"@, "user_"@),
        AvatarOwner::Group => ("group_avatars"@, "group_"@),
    }
}

/// The file name of an avatar: the prefix, the owner's id, `_`, and the
/// uploaded name or `avatar`.
pub open spec fn avatar_file_name(owner: AvatarOwner, id: Seq<char>, name: Option<Seq<char>>) -> Seq<char> {
    avatar_dir_prefix(owner).1 + id + "_"@ + name_or(name, "avatar"@)
}

/// An avatar upload for the user or group `id`: written to
/// `<dir>/<file name>` and served at `/<dir>/<file name>`.
pub fn avatar_location(owner: AvatarOwner, id: &str, file_name: Option<&str>) -> (f: StoredFile)
    ensures
        (f.path@, f.url@) == stored_file_spec(
            avatar_dir_prefix(owner).0,
            avatar_file_name(owner, id@, name_view(file_name)),
        ),
{
    let (dir, prefix) = match owner {
        AvatarOwner::User => ("user_avatars", "user_"),
        AvatarOwner::Group => ("group_avatars", "group_"),
    };
    let mut name = owned(prefix);
    push_str(&mut name, id);
    push_str(&mut name, "_");
    match file_name {
        Some(n) => push_str(&mut name, n),
        None => push_str(&mut name, "avatar"),
    }
    assert(name@ =~= avatar_file_name(owner, id@, name_view(file_name)));
    stored_in(dir, name.as_str())
}

/// How long a status stays visible, in seconds (24 hours).
pub const STATUS_LIFETIME_SECS: i64 = 86400;

/// When a status posted at `now` (seconds since the epoch) expires.
pub fn status_expires_at(now: i64) -> (t: i64)
    requires
        now <= i64::MAX - STATUS_LIFETIME_SECS,
    ensures
        t == now + STATUS_LIFETIME_SECS,
{
    now + STATUS_LIFETIME_SECS
}

/// Whether a status is still shown at `now`.
pub fn status_visible(expires_at: i64, now: i64) -> (b: bool)
    ensures
        b == (expires_at > now),
{
    expires_at > now
}

/// A status is deleted only by its owner: a delete that removed no row found
/// none of the user's.
pub fn check_status_deleted(rows_affected: u64) -> (r: Result<(), Refusal>)
    ensures
        rows_affected == 0 ==> r == Err::<(), Refusal>(Refusal::StatusNotFound),
        rows_affected > 0 ==> r is Ok,
{
    crate::refusal::require(rows_affected != 0, Refusal::StatusNotFound)
}

/// `404 Not Found`.
pub const NOT_FOUND: u16 = 404;

/// `403 Forbidden`.
pub const FORBIDDEN: u16 = 403;

/// Media is deleted only by the user who uploaded it: `owner` is the
/// uploader of the media looked up (`None` when there is none).
pub fn check_media_owner(owner: Option<u128>, user_id: u128) -> (r: Result<(), u16>)
    ensures
        owner is None ==> r == Err::<(), u16>(NOT_FOUND),
        owner matches Some(o) && o != user_id ==> r == Err::<(), u16>(FORBIDDEN),
        owner == Some(user_id) ==> r is Ok,
{
    match owner {
        None => Err(NOT_FOUND),
        Some(o) => {
            if o != user_id {
                Err(FORBIDDEN)
            } else {
                Ok(())
            }
        },
    }
}

/// The body of a media upload's answer.
#[derive(Debug, Clone)]
pub struct UploadResponse {
    pub url: String,
}

/// The body of an avatar upload's answer.
#[derive(Debug, Clone)]
pub struct AvatarUrlResponse {
    pub avatar_url: String,
}

/// A new status: an image or video, a text, or both.
#[derive(Debug, Clone)]
pub struct StatusInput {
    pub media_url: Option<String>,
    pub text: Option<String>,
}

} // verus!
