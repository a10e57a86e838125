//! Fixed-window rate limiting of requests per client, counted in Redis.
//!
//! Each client has one counter per minute-long window. A request increments
//! the counter of the current window; the first increment also gives the
//! counter an expiry of one window; a request that brings the count above the
//! limit is refused with `429 Too Many Requests`. Any Redis failure is
//! answered with `500`.
use vstd::prelude::*;
use crate::decimal::{decimal_digits, lemma_unsigned_round_trip, write_u64};
use crate::text::{owned, push_str};

verus! {

/// The length of a window, in seconds.
pub const RATE_LIMIT_WINDOW: u64 = 60;

/// The requests a client may make in one window.
pub const MAX_REQUESTS_PER_WINDOW: u32 = 100;

/// `429 Too Many Requests`.
pub const TOO_MANY_REQUESTS: u16 = 429;

/// `500 Internal Server Error`.
pub const INTERNAL_SERVER_ERROR: u16 = 500;

/// The Redis key of the counter of `client` for the window that holds the
/// instant `now_secs`.
pub open spec fn window_key_spec(client: Seq<char>, now_secs: nat) -> Seq<char> {
    "rate_limit:"@ + client + ":"@ + decimal_digits(now_secs / (RATE_LIMIT_WINDOW as nat))
}

/// The Redis key `rate_limit:<client>:<window number>`.
pub fn window_key(client: &str, now_secs: u64) -> (k: String)
    ensures
        k@ == window_key_spec(client@, now_secs as nat),
{
    let mut k = owned("rate_limit:");
    push_str(&mut k, client);
    push_str(&mut k, ":");
    write_u64(now_secs / RATE_LIMIT_WINDOW, &mut k);
    k
}

/// Requests of one client in the same window share a counter, and requests in
/// different windows never do.
pub proof fn lemma_window_keys(client: Seq<char>, a: nat, b: nat)
    ensures
        (window_key_spec(client, a) == window_key_spec(client, b)) <==> (a / 60 == b / 60),
{
    let prefix = "rate_limit:"@ + client + ":"@;
    let da = decimal_digits(a / (RATE_LIMIT_WINDOW as nat));
    let db = decimal_digits(b / (RATE_LIMIT_WINDOW as nat));
    if window_key_spec(client, a) == window_key_spec(client, b) {
        assert((prefix + da).skip(prefix.len() as int) =~= da);
        assert((prefix + db).skip(prefix.len() as int) =~= db);
        lemma_unsigned_round_trip(a / 60);
        lemma_unsigned_round_trip(b / 60);
    }
}

/// Whether a count admits the request.
pub open spec fn within_limit(count: u32) -> bool {
    count <= MAX_REQUESTS_PER_WINDOW
}

/// The answer to a request that brought its window's counter to `count`.
pub fn verdict(count: u32) -> (r: Result<(), u16>)
    ensures
        within_limit(count) ==> r is Ok,
        !within_limit(count) ==> r == Err::<(), u16>(TOO_MANY_REQUESTS),
{
    if count > MAX_REQUESTS_PER_WINDOW {
        Err(TOO_MANY_REQUESTS)
    } else {
        Ok(())
    }
}

/// What to do after the increment of a window's counter.
#[derive(Debug, Clone, Copy)]
pub enum AfterIncrement {
    /// Give the counter an expiry of `seconds`, then answer `after_expiry`.
    Expire { seconds: u64, count: u32 },
    /// Answer now.
    Answer(Result<(), u16>),
}

/// The step after the counter's increment, which gave `count` (`None` when
/// Redis failed): the first request of a window sets the window's expiry.
pub fn after_increment(count: Option<u32>) -> (a: AfterIncrement)
    ensures
        match count {
            None => a == AfterIncrement::Answer(Err(INTERNAL_SERVER_ERROR)),
            Some(c) => if c == 1 {
                a == (AfterIncrement::Expire { seconds: RATE_LIMIT_WINDOW, count: c })
            } else {
                &&& a matches AfterIncrement::Answer(r)
                &&& (within_limit(c) ==> r is Ok)
                &&& (!within_limit(c) ==> r == Err::<(), u16>(TOO_MANY_REQUESTS))
            },
        },
{
    match count {
        None => AfterIncrement::Answer(Err(INTERNAL_SERVER_ERROR)),
        Some(c) => {
            if c == 1 {
                AfterIncrement::Expire { seconds: RATE_LIMIT_WINDOW, count: c }
            } else {
                AfterIncrement::Answer(verdict(c))
            }
        },
    }
}

/// The answer once the expiry was set (`expired_ok`) or failed.
pub fn after_expiry(expired_ok: bool, count: u32) -> (r: Result<(), u16>)
    ensures
        !expired_ok ==> r == Err::<(), u16>(INTERNAL_SERVER_ERROR),
        expired_ok && within_limit(count) ==> r is Ok,
        expired_ok && !within_limit(count) ==> r == Err::<(), u16>(TOO_MANY_REQUESTS),
{
    if !expired_ok {
        Err(INTERNAL_SERVER_ERROR)
    } else {
        verdict(count)
    }
}

/// The key a request is counted under: the `X-Forwarded-For` header, or, when
/// that is absent, `X-Real-IP`; `unknown` when neither is present or the one
/// chosen is not visible ASCII. Each header is `None` when absent and
/// `Some(None)` when its value is not text.
pub open spec fn client_key_spec(
    forwarded_for: Option<Option<Seq<char>>>,
    real_ip: Option<Option<Seq<char>>>,
) -> Seq<char> {
    let chosen = match forwarded_for {
        Some(v) => Some(v),
        None => real_ip,
    };
    match chosen {
        Some(Some(v)) => v,
        _ => "unknown"@,
    }
}

/// The views of a header's value.
pub open spec fn header_view(h: Option<Option<&str>>) -> Option<Option<Seq<char>>> {
    match h {
        Some(Some(v)) => Some(Some(v@)),
        Some(None) => Some(None),
        None => None,
    }
}

/// The key a request is counted under.
pub fn client_key(forwarded_for: Option<Option<&str>>, real_ip: Option<Option<&str>>) -> (k: String)
    ensures
        k@ == client_key_spec(header_view(forwarded_for), header_view(real_ip)),
{
    let chosen = match forwarded_for {
        Some(v) => Some(v),
        None => real_ip,
    };
    match chosen {
        Some(Some(v)) => owned(v),
        _ => owned("unknown"),
    }
}

/// A request admitted by the per-client token bucket, with the key it was
/// counted under.
pub struct RateLimited {
    pub key: String,
}

impl RateLimited {
    /// The key of the session server's limiter: the `X-Forwarded-For` header,
    /// or `unknown` when it is absent or not text.
    pub fn key_for(forwarded_for: Option<Option<&str>>) -> (k: String)
        ensures
            k@ == client_key_spec(header_view(forwarded_for), Some(None)),
    {
        match forwarded_for {
            Some(Some(v)) => owned(v),
            _ => owned("unknown"),
        }
    }
}

} // verus!
