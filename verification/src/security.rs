//! The request screening and response headers of the HTTP server.
use vstd::prelude::*;
use crate::decimal::{parse_unsigned_spec, parse_usize};
use crate::rate_limit::header_view;
use crate::text::{starts_with, starts_with_seq, str_eq};

verus! {

/// The largest request body accepted, in bytes (10 MiB).
pub const MAX_BODY_BYTES: usize = 10485760;

/// `415 Unsupported Media Type`.
pub const UNSUPPORTED_MEDIA_TYPE: u16 = 415;

/// `413 Payload Too Large`.
pub const PAYLOAD_TOO_LARGE: u16 = 413;

/// The text of a header that is present: its value, or `default` when the
/// value is not visible ASCII.
pub open spec fn header_text(h: Option<Seq<char>>, default: Seq<char>) -> Seq<char> {
    match h {
        Some(v) => v,
        None => default,
    }
}

/// A `POST` or `PUT` with a `Content-Type` that is not JSON.
pub open spec fn wrong_media_type(method: Seq<char>, content_type: Option<Option<Seq<char>>>) -> bool {
    &&& (method == "POST"@ || method == "PUT"@)
    &&& content_type matches Some(v) && !starts_with_seq(header_text(v, ""@), "application/json"@)
}

/// A `Content-Length` that is a number above the limit. A length that is not
/// a number is let through.
pub open spec fn too_large(content_length: Option<Option<Seq<char>>>) -> bool {
    content_length matches Some(v) && (match parse_unsigned_spec(header_text(v, "0"@), usize::MAX as int) {
        Some(n) => n > MAX_BODY_BYTES,
        None => false,
    })
}

/// Screens a request before it reaches a handler: a `POST` or `PUT` whose
/// `Content-Type` does not begin with `application/json` is refused with 415;
/// a request that declares a body above 10 MiB with 413.
pub fn screen_request(
    method: &str,
    content_type: Option<Option<&str>>,
    content_length: Option<Option<&str>>,
) -> (r: Result<(), u16>)
    ensures
        wrong_media_type(method@, header_view(content_type)) ==> r == Err::<(), u16>(
            UNSUPPORTED_MEDIA_TYPE,
        ),
        !wrong_media_type(method@, header_view(content_type)) && too_large(
            header_view(content_length),
        ) ==> r == Err::<(), u16>(PAYLOAD_TOO_LARGE),
        !wrong_media_type(method@, header_view(content_type)) && !too_large(
            header_view(content_length),
        ) ==> r is Ok,
{
    if str_eq(method, "POST") || str_eq(method, "PUT") {
        if let Some(v) = content_type {
            let text = match v {
                Some(t) => t,
                None => "",
            };
            if !starts_with(text, "application/json") {
                return Err(UNSUPPORTED_MEDIA_TYPE);
            }
        }
    }
    if let Some(v) = content_length {
        let text = match v {
            Some(t) => t,
            None => "0",
        };
        if let Some(n) = parse_usize(text) {
            if n > MAX_BODY_BYTES {
                return Err(PAYLOAD_TOO_LARGE);
            }
        }
    }
    Ok(())
}

/// The headers every response carries, as name and value.
pub open spec fn fixed_headers_spec() -> Seq<(Seq<char>, Seq<char>)> {
    seq![
        ("x-content-type-options"@, "nosniff"@),
        ("x-frame-options"@, "DENY"@),
        ("x-xss-protection"@, "1; mode=block"@),
        ("referrer-policy"@, "strict-origin-when-cross-origin"@),
    ]
}

/// The name and value views of a list of headers.
pub open spec fn header_pairs(v: Seq<(&str, &str)>) -> Seq<(Seq<char>, Seq<char>)> {
    v.map_values(|p: (&str, &str)| (p.0@, p.1@))
}

/// The security headers added to every response; the request's `Origin`, when
/// there is one, is echoed in `Access-Control-Allow-Origin` as well.
pub fn fixed_security_headers() -> (v: Vec<(&'static str, &'static str)>)
    ensures
        header_pairs(v@) == fixed_headers_spec(),
{
    let v = vec![
        ("x-content-type-options", "nosniff"),
        ("x-frame-options", "DENY"),
        ("x-xss-protection", "1; mode=block"),
        ("referrer-policy", "strict-origin-when-cross-origin"),
    ];
    assert(header_pairs(v@) =~= fixed_headers_spec());
    v
}

/// The policies of the security-headers layer.
pub struct SecurityPolicy {
    pub content_security_policy: &'static str,
    pub x_content_type_options: &'static str,
    pub x_frame_options: &'static str,
    pub x_xss_protection: &'static str,
    pub strict_transport_security_secs: u64,
    pub referrer_policy: &'static str,
}

/// The policies of the security-headers layer: scripts, styles and images
/// from the site itself (images also over HTTPS and as data), no framing,
/// HSTS for a year.
pub fn security_headers() -> (p: SecurityPolicy)
    ensures
        p.content_security_policy@
            == "default-src 'self'; img-src 'self' https: data:; script-src 'self' 'unsafe-inline' 'unsafe-eval'; style-src 'self' 'unsafe-inline';"@,
        p.x_content_type_options@ == "nosniff"@,
        p.x_frame_options@ == "DENY"@,
        p.x_xss_protection@ == "1; mode=block"@,
        p.strict_transport_security_secs == 31536000,
        p.referrer_policy@ == "strict-origin-when-cross-origin"@,
{
    SecurityPolicy {
        content_security_policy: "default-src 'self'; img-src 'self' https: data:; script-src 'self' 'unsafe-inline' 'unsafe-eval'; style-src 'self' 'unsafe-inline';",
        x_content_type_options: "nosniff",
        x_frame_options: "DENY",
        x_xss_protection: "1; mode=block",
        strict_transport_security_secs: 31536000,
        referrer_policy: "strict-origin-when-cross-origin",
    }
}

} // verus!
