//! The WebSocket sessions of the session-based server: admission by a token
//! in the query string, the frames a session accepts, its heartbeat, and the
//! broadcasts it forwards.
use vstd::prelude::*;
use crate::signaling::{json_field, json_string_field, field_view, string_at};
use crate::text::{owned, segments, split_char, starts_with, starts_with_seq, str_eq, views};

verus! {

/// How often a session pings its client, in seconds.
pub const HEARTBEAT_INTERVAL_SECS: u64 = 5;

/// How long a client may stay silent before its session ends, in nanoseconds (30 s).
pub const CLIENT_TIMEOUT_NANOS: u128 = 30_000_000_000;

/// The token in a query string: the first `&`-separated parameter that begins
/// with `token=`, and of it the text between the first and the second `=`.
pub open spec fn query_token(query: Seq<char>) -> Option<Seq<char>> {
    first_token_param(segments(query, '&'))
}

/// The value part of the first parameter that begins with `token=`.
pub open spec fn first_token_param(params: Seq<Seq<char>>) -> Option<Seq<char>>
    decreases params.len(),
{
    if params.len() == 0 {
        None
    } else if starts_with_seq(params[0], "token="@) {
        Some(segments(params[0], '=')[1])
    } else {
        first_token_param(params.drop_first())
    }
}

/// The token a WebSocket client presents in its query string, if any.
pub fn token_from_query(query: &str) -> (t: Option<String>)
    ensures
        crate::config::opt_view(t) == query_token(query@),
{
    let params = split_char(query, '&');
    let ghost all = views(params@);
    let mut i: usize = 0;
    assert(all.skip(0) =~= all);
    while i < params.len()
        invariant
            i <= params.len(),
            all == views(params@),
            all == segments(query@, '&'),
            first_token_param(all.skip(i as int)) == first_token_param(all),
        decreases params.len() - i,
    {
        let p = params[i].as_str();
        proof {
            reveal_strlit("token=");
            assert(all.skip(i as int)[0] == p@);
            assert(all.skip(i as int).drop_first() =~= all.skip(i + 1));
        }
        if starts_with(p, "token=") {
            let pieces = split_char(p, '=');
            proof {
                assert(p@.subrange(0, 6) =~= "token="@);
                assert(p@.subrange(0, 6)[5] == p@[5]);
                assert(p@[5] == '=');
                lemma_second_piece(p@);
                assert(views(pieces@).len() == pieces@.len());
            }
            let t = pieces[1].clone();
            proof {
                assert(views(pieces@)[1] == pieces@[1]@);
                assert(first_token_param(all.skip(i as int)) == Some(segments(p@, '=')[1]));
                assert(t@ == segments(p@, '=')[1]);
                assert(query_token(query@) == first_token_param(all));
            }
            return Some(t);
        }
        i = i + 1;
    }
    assert(all.skip(i as int) =~= Seq::<Seq<char>>::empty());
    None
}

/// A text that begins with `token=` has at least two `=`-separated pieces.
proof fn lemma_second_piece(p: Seq<char>)
    requires
        p.len() >= 6,
        p[5] == '=',
    ensures
        segments(p, '=').len() >= 2,
    decreases p.len(),
{
    if p.len() == 6 {
        assert(p.drop_last().len() == 5);
        crate::text::lemma_segments_nonempty(p.drop_last(), '=');
    } else {
        lemma_second_piece(p.drop_last());
        assert(p.drop_last()[5] == '=');
    }
}

/// Why a session refuses a text frame.
#[derive(Debug, Clone, Copy, PartialEq, Eq, Structural)]
pub enum FrameError {
    /// The frame is not JSON; the parser's own message describes it.
    Malformed,
    MissingContent,
    MissingChatId,
    InvalidType,
}

impl FrameError {
    /// The status and message of a refusal; the parser's message is not known here.
    pub fn status_and_message(&self) -> (r: (u16, Option<&'static str>))
        ensures
            r.0 == 400,
            match self {
                FrameError::Malformed => r.1 is None,
                FrameError::MissingContent => r.1 matches Some(m) && m@ == "Missing message content"@,
                FrameError::MissingChatId => r.1 matches Some(m) && m@ == "Missing chat_id"@,
                FrameError::InvalidType => r.1 matches Some(m) && m@ == "Invalid message type"@,
            },
    {
        match self {
            FrameError::Malformed => (400, None),
            FrameError::MissingContent => (400, Some("Missing message content")),
            FrameError::MissingChatId => (400, Some("Missing chat_id")),
            FrameError::InvalidType => (400, Some("Invalid message type")),
        }
    }
}

/// What a session answers to the text frame `text`: a `message` needs a string
/// `content` and then a string `chat_id`; a `status` is accepted; any other
/// type, or none, is refused.
pub open spec fn frame_outcome(text: Seq<char>) -> Result<(), FrameError> {
    match json_string_field(text, "type"@) {
        None => Err(FrameError::Malformed),
        Some(f) => {
            let kind = string_at(Some(f));
            if kind == Some("message"@) {
                if string_at(json_string_field(text, "content"@)) is None {
                    Err(FrameError::MissingContent)
                } else if string_at(json_string_field(text, "chat_id"@)) is None {
                    Err(FrameError::MissingChatId)
                } else {
                    Ok(())
                }
            } else if kind == Some("status"@) {
                Ok(())
            } else {
                Err(FrameError::InvalidType)
            }
        },
    }
}

/// An update of a user's status, forwarded to that user's sessions.
#[derive(Debug, Clone)]
pub struct UpdateUserStatus {
    pub user_id: String,
    pub status: String,
}

/// The WebSocket session of one user.
pub struct Session {
    pub id: String,
    pub user_id: String,
}

impl Session {
    /// A session of `user_id` with a fresh random id.
    pub fn new(user_id: String) -> (s: Session)
        ensures
            s.user_id@ == user_id@,
            s.id@.len() == 36,
    {
        Session { id: crate::clock::new_uuid_string(), user_id }
    }

    /// Checks a text frame from the client.
    pub fn handle_message(&self, msg: &str) -> (r: Result<(), FrameError>)
        ensures
            r == frame_outcome(msg@),
    {
        proof {
            reveal_strlit("type");
            reveal_strlit("content");
            reveal_strlit("chat_id");
        }
        let kind = json_field(msg, "type");
        match kind {
            None => Err(FrameError::Malformed),
            Some(Some(Some(k))) => {
                if str_eq(k.as_str(), "message") {
                    match json_field(msg, "content") {
                        Some(Some(Some(_))) => {},
                        _ => {
                            return Err(FrameError::MissingContent);
                        },
                    }
                    match json_field(msg, "chat_id") {
                        Some(Some(Some(_))) => Ok(()),
                        _ => Err(FrameError::MissingChatId),
                    }
                } else if str_eq(k.as_str(), "status") {
                    Ok(())
                } else {
                    Err(FrameError::InvalidType)
                }
            },
            Some(_) => Err(FrameError::InvalidType),
        }
    }

    /// Whether the session forwards a message broadcast to `chat_id`: only a
    /// message that belongs to that chat.
    pub fn forwards_broadcast(&self, chat_id: &str, message_chat_id: &str) -> (b: bool)
        ensures
            b == (message_chat_id@ == chat_id@),
    {
        str_eq(message_chat_id, chat_id)
    }

    /// Whether the session forwards a status update: only its own user's.
    pub fn forwards_status(&self, update: &UpdateUserStatus) -> (b: bool)
        ensures
            b == (update.user_id@ == self.user_id@),
    {
        str_eq(update.user_id.as_str(), self.user_id.as_str())
    }
}

/// Whether a client silent for `since_last_nanos` has timed out.
pub fn heartbeat_expired(since_last_nanos: u128) -> (b: bool)
    ensures
        b == (since_last_nanos > CLIENT_TIMEOUT_NANOS),
{
    since_last_nanos > CLIENT_TIMEOUT_NANOS
}

/// The kinds of frame a session receives.
#[derive(Debug, Clone, Copy, PartialEq, Eq, Structural)]
pub enum IncomingFrame {
    Ping,
    Pong,
    Text,
    Close,
    Other,
}

/// What a session does on a frame.
#[derive(Debug, Clone, Copy, PartialEq, Eq, Structural)]
pub enum FrameResponse {
    /// Record the heartbeat and answer with a pong.
    RefreshAndPong,
    /// Record the heartbeat.
    Refresh,
    /// Check the text with `handle_message` and report a refusal to the client.
    CheckText,
    /// Close the connection and stop the session.
    CloseAndStop,
    /// Stop the session.
    Stop,
}

/// What a session does on each kind of frame.
pub fn frame_response(frame: IncomingFrame) -> (r: FrameResponse)
    ensures
        r == match frame {
            IncomingFrame::Ping => FrameResponse::RefreshAndPong,
            IncomingFrame::Pong => FrameResponse::Refresh,
            IncomingFrame::Text => FrameResponse::CheckText,
            IncomingFrame::Close => FrameResponse::CloseAndStop,
            IncomingFrame::Other => FrameResponse::Stop,
        },
{
    match frame {
        IncomingFrame::Ping => FrameResponse::RefreshAndPong,
        IncomingFrame::Pong => FrameResponse::Refresh,
        IncomingFrame::Text => FrameResponse::CheckText,
        IncomingFrame::Close => FrameResponse::CloseAndStop,
        IncomingFrame::Other => FrameResponse::Stop,
    }
}

} // verus!
