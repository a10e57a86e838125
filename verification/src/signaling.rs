//! The WebSocket endpoint's decisions: how an incoming text frame is routed
//! (call signalling relayed to one user or to a group, anything else treated
//! as a chat message), who a group relay reaches, and the notices pushed to
//! users who are called.
use vstd::prelude::*;
use crate::text::{owned, str_eq, views};

verus! {

/// What `serde_json` finds under `key` in the text `text`: `None` when the text
/// is not JSON; `Some(None)` when the value has no such key (it is not an
/// object, or the object lacks it); `Some(Some(None))` when the value under the
/// key is not a string; `Some(Some(Some(s)))` when it is the string `s`.
pub uninterp spec fn json_string_field(text: Seq<char>, key: Seq<char>) -> Option<
    Option<Option<Seq<char>>>,
>;

/// What `serde_json` writes for the JSON object in `text` with the string
/// `value` set under `key`; `None` when `text` is not a JSON object.
pub uninterp spec fn json_set_string_field(text: Seq<char>, key: Seq<char>, value: Seq<char>) -> Option<
    Seq<char>,
>;

/// The views of a field lookup.
pub open spec fn field_view(f: Option<Option<Option<String>>>) -> Option<Option<Option<Seq<char>>>> {
    match f {
        Some(Some(Some(s))) => Some(Some(Some(s@))),
        Some(Some(None)) => Some(Some(None)),
        Some(None) => Some(None),
        None => None,
    }
}

/// `serde_json::from_str::<Value>(text)`, then `get(key)` and `as_str()` on
/// what is found. The result is named: it depends on the two texts alone.
#[verifier::external_body]
pub(crate) fn json_field(text: &str, key: &str) -> (r: Option<Option<Option<String>>>)
    ensures
        field_view(r) == json_string_field(text@, key@),
{
    match serde_json::from_str::<serde_json::Value>(text) {
        Ok(v) => Some(v.get(key).map(|f| f.as_str().map(|s| s.to_string()))),
        Err(_) => None,
    }
}

/// `serde_json::from_str::<Value>(text)`, the string `value` set under `key`
/// of the object, and `to_string()` of the result. The result is named: it
/// depends on the three texts alone.
#[verifier::external_body]
fn json_with_string_field(text: &str, key: &str, value: &str) -> (r: Option<String>)
    ensures
        crate::config::opt_view(r) == json_set_string_field(text@, key@, value@),
{
    match serde_json::from_str::<serde_json::Value>(text) {
        Ok(mut v) => match v.as_object_mut() {
            Some(m) => {
                m.insert(key.to_string(), serde_json::Value::String(value.to_string()));
                Some(v.to_string())
            },
            None => None,
        },
        Err(_) => None,
    }
}

/// An ASCII hexadecimal digit, in either case.
pub open spec fn hex_char(c: char) -> bool {
    ('0' <= c && c <= '9') || ('a' <= c && c <= 'f') || ('A' <= c && c <= 'F')
}

/// Thirty-two hex digits in groups of 8, 4, 4, 4 and 12, joined by hyphens.
pub open spec fn hyphenated_uuid(s: Seq<char>) -> bool {
    &&& s.len() == 36
    &&& forall|i: int|
        0 <= i < 36 ==> if i == 8 || i == 13 || i == 18 || i == 23 {
            #[trigger] s[i] == '-'
        } else {
            hex_char(s[i])
        }
}

/// `c` with an ASCII capital lowered.
pub open spec fn ascii_lower(c: char) -> char {
    if 'A' <= c && c <= 'Z' {
        ((c as u32) + 32) as char
    } else {
        c
    }
}

/// The texts `uuid::Uuid::parse_str` accepts: 32 hex digits; the hyphenated
/// form; the hyphenated form in braces; or `urn:uuid:` (in any case) before
/// the hyphenated form.
pub open spec fn uuid_parses(s: Seq<char>) -> bool {
    ||| s.len() == 32 && (forall|i: int| 0 <= i < 32 ==> hex_char(#[trigger] s[i]))
    ||| hyphenated_uuid(s)
    ||| s.len() == 38 && s[0] == '{' && s[37] == '}' && hyphenated_uuid(s.subrange(1, 37))
    ||| s.len() == 45 && (forall|i: int| 0 <= i < 9 ==> ascii_lower(#[trigger] s[i]) == "urn:uuid:"@[i])
        && hyphenated_uuid(s.subrange(9, 45))
}

fn is_hex(c: char) -> (b: bool)
    ensures
        b == hex_char(c),
{
    ('0' <= c && c <= '9') || ('a' <= c && c <= 'f') || ('A' <= c && c <= 'F')
}

/// Whether the 36 characters of `s` from `start` are a hyphenated UUID.
fn hyphenated_at(s: &str, start: usize, n: usize) -> (b: bool)
    requires
        n == s@.len(),
        start + 36 <= n,
    ensures
        b == hyphenated_uuid(s@.subrange(start as int, start + 36)),
{
    let ghost t = s@.subrange(start as int, start + 36);
    let mut i: usize = 0;
    while i < 36
        invariant
            i <= 36,
            n == s@.len(),
            start + 36 <= n,
            t == s@.subrange(start as int, start + 36),
            forall|k: int|
                0 <= k < i ==> if k == 8 || k == 13 || k == 18 || k == 23 {
                    #[trigger] t[k] == '-'
                } else {
                    hex_char(t[k])
                },
        decreases 36 - i,
    {
        let c = s.get_char(start + i);
        assert(t[i as int] == c);
        let ok = if i == 8 || i == 13 || i == 18 || i == 23 {
            c == '-'
        } else {
            is_hex(c)
        };
        if !ok {
            return false;
        }
        i = i + 1;
    }
    true
}

/// Whether `uuid::Uuid::parse_str` accepts `s`.
pub fn is_uuid(s: &str) -> (b: bool)
    ensures
        b == uuid_parses(s@),
{
    let n = s.unicode_len();
    if n == 32 {
        let mut i: usize = 0;
        while i < 32
            invariant
                i <= 32,
                n == s@.len(),
                n == 32,
                forall|k: int| 0 <= k < i ==> hex_char(#[trigger] s@[k]),
            decreases 32 - i,
        {
            if !is_hex(s.get_char(i)) {
                return false;
            }
            i = i + 1;
        }
        true
    } else if n == 36 {
        let r = hyphenated_at(s, 0, n);
        assert(s@.subrange(0, 36) =~= s@);
        r
    } else if n == 38 {
        s.get_char(0) == '{' && s.get_char(37) == '}' && hyphenated_at(s, 1, n)
    } else if n == 45 {
        proof {
            reveal_strlit("urn:uuid:");
        }
        let prefix = "urn:uuid:";
        let mut i: usize = 0;
        while i < 9
            invariant
                i <= 9,
                n == s@.len(),
                n == 45,
                prefix@ == "urn:uuid:"@,
                prefix@.len() == 9,
                forall|k: int| 0 <= k < i ==> ascii_lower(#[trigger] s@[k]) == "urn:uuid:"@[k],
            decreases 9 - i,
        {
            let c = s.get_char(i);
            let lower = if 'A' <= c && c <= 'Z' {
                ((c as u32) + 32) as u8 as char
            } else {
                c
            };
            assert(lower == ascii_lower(c));
            if lower != prefix.get_char(i) {
                return false;
            }
            i = i + 1;
        }
        hyphenated_at(s, 9, n)
    } else {
        false
    }
}

/// The string found under a key, if the key holds one.
pub open spec fn string_at(f: Option<Option<Option<Seq<char>>>>) -> Option<Seq<char>> {
    match f {
        Some(Some(Some(s))) => Some(s),
        _ => None,
    }
}

/// Whether the key is present, whatever its value.
pub open spec fn present(f: Option<Option<Option<Seq<char>>>>) -> bool {
    f matches Some(Some(_))
}

/// The string under a key, or the empty string when it holds none.
pub open spec fn str_or_empty(f: Option<Option<Option<Seq<char>>>>) -> Seq<char> {
    match f {
        Some(Some(Some(s))) => s,
        _ => Seq::empty(),
    }
}

/// Where a frame goes.
pub ghost enum RouteView {
    Call { to: Seq<char> },
    GroupOffer { to: Seq<char>, from: Seq<char> },
    GroupRelay { to: Seq<char>, from: Seq<char> },
    Skip,
    Chat,
}

/// The route of a frame whose `type`, `to` and `from` lookups gave `kind`,
/// `to` and `from`: a `call-offer` with a `to` goes to that user; a
/// `group-call-offer`, `group-call-answer` or `group-ice-candidate` with both
/// `to` and `from` goes to the group (and without them is dropped); a frame
/// that is not JSON, has no string `type`, or has another type is a chat message.
pub open spec fn route_spec(
    kind: Option<Option<Option<Seq<char>>>>,
    to: Option<Option<Option<Seq<char>>>>,
    from: Option<Option<Option<Seq<char>>>>,
) -> RouteView {
    match string_at(kind) {
        None => RouteView::Chat,
        Some(k) => if k == "call-offer"@ && present(to) {
            RouteView::Call { to: str_or_empty(to) }
        } else if k == "group-call-offer"@ {
            if present(to) && present(from) {
                RouteView::GroupOffer { to: str_or_empty(to), from: str_or_empty(from) }
            } else {
                RouteView::Skip
            }
        } else if k == "group-call-answer"@ || k == "group-ice-candidate"@ {
            if present(to) && present(from) {
                RouteView::GroupRelay { to: str_or_empty(to), from: str_or_empty(from) }
            } else {
                RouteView::Skip
            }
        } else {
            RouteView::Chat
        },
    }
}

/// Where a frame goes.
#[derive(Debug)]
pub enum SignalRoute {
    /// A call offer for one user.
    Call { to: String },
    /// A group call offer, from `from` to the group `to` (or to all when `to` is empty).
    GroupOffer { to: String, from: String },
    /// A group call answer or ICE candidate, relayed as offers are.
    GroupRelay { to: String, from: String },
    /// A signalling frame without its addresses: nothing is done.
    Skip,
    /// Not signalling: a chat message.
    Chat,
}

impl SignalRoute {
    pub open spec fn view(&self) -> RouteView {
        match self {
            SignalRoute::Call { to } => RouteView::Call { to: to@ },
            SignalRoute::GroupOffer { to, from } => RouteView::GroupOffer { to: to@, from: from@ },
            SignalRoute::GroupRelay { to, from } => RouteView::GroupRelay { to: to@, from: from@ },
            SignalRoute::Skip => RouteView::Skip,
            SignalRoute::Chat => RouteView::Chat,
        }
    }
}

/// The string under a key, or the empty string.
fn text_or_empty(f: &Option<Option<Option<String>>>) -> (s: String)
    ensures
        s@ == str_or_empty(field_view(*f)),
{
    match f {
        Some(Some(Some(s))) => s.clone(),
        _ => String::new(),
    }
}

/// The route of a frame, given what its `type`, `to` and `from` lookups gave.
pub fn route_signal(
    kind: Option<Option<Option<String>>>,
    to: Option<Option<Option<String>>>,
    from: Option<Option<Option<String>>>,
) -> (r: SignalRoute)
    ensures
        r.view() == route_spec(field_view(kind), field_view(to), field_view(from)),
{
    let k = match &kind {
        Some(Some(Some(k))) => k.as_str(),
        _ => {
            return SignalRoute::Chat;
        },
    };
    let has_to = matches!(to, Some(Some(_)));
    let has_from = matches!(from, Some(Some(_)));
    if str_eq(k, "call-offer") && has_to {
        SignalRoute::Call { to: text_or_empty(&to) }
    } else if str_eq(k, "group-call-offer") {
        if has_to && has_from {
            SignalRoute::GroupOffer { to: text_or_empty(&to), from: text_or_empty(&from) }
        } else {
            SignalRoute::Skip
        }
    } else if str_eq(k, "group-call-answer") || str_eq(k, "group-ice-candidate") {
        if has_to && has_from {
            SignalRoute::GroupRelay { to: text_or_empty(&to), from: text_or_empty(&from) }
        } else {
            SignalRoute::Skip
        }
    } else {
        SignalRoute::Chat
    }
}

/// What the connection does with one incoming text frame.
#[derive(Debug)]
pub enum SocketAction {
    /// Send `relay` (the offer with `from` set to the caller) to `to`'s
    /// connection when `to` is connected; when `notify`, push an incoming-call
    /// notice to `to`'s subscriptions.
    RelayCall { to: String, relay: Option<String>, notify: bool },
    /// Send the frame unchanged to the connections that `relay_targets`
    /// selects; when `notify`, push an incoming-group-call notice to the
    /// members of group `to` other than `from`.
    RelayGroup { to: String, from: String, notify: bool },
    /// Nothing to do.
    Skip,
    /// Read the frame as a chat message and broadcast it.
    Chat,
}

/// The action for a frame `text` received on the connection of `user_id`.
pub open spec fn socket_action_spec(user_id: Seq<char>, text: Seq<char>, a: SocketAction) -> bool {
    let route = route_spec(
        json_string_field(text, "type"@),
        json_string_field(text, "to"@),
        json_string_field(text, "from"@),
    );
    match route {
        RouteView::Call { to } => a matches SocketAction::RelayCall { to: t, relay, notify } && t@
            == to && crate::config::opt_view(relay) == json_set_string_field(text, "from"@, user_id)
            && notify == uuid_parses(to),
        RouteView::GroupOffer { to, from } => a matches SocketAction::RelayGroup {
            to: t,
            from: f,
            notify,
        } && t@ == to && f@ == from && notify == (uuid_parses(to) && uuid_parses(from)),
        RouteView::GroupRelay { to, from } => a matches SocketAction::RelayGroup {
            to: t,
            from: f,
            notify,
        } && t@ == to && f@ == from && !notify,
        RouteView::Skip => a is Skip,
        RouteView::Chat => a is Chat,
    }
}

/// Decides what the connection of `user_id` does with the text frame `text`:
/// call offers are relayed to their recipient with the caller filled in as
/// `from`; group signalling is relayed to the group; the rest is chat.
pub fn socket_action(user_id: &str, text: &str) -> (a: SocketAction)
    ensures
        socket_action_spec(user_id@, text@, a),
{
    proof {
        reveal_strlit("type");
        reveal_strlit("to");
        reveal_strlit("from");
    }
    let kind = json_field(text, "type");
    let to = json_field(text, "to");
    let from = json_field(text, "from");
    match route_signal(kind, to, from) {
        SignalRoute::Call { to } => {
            let relay = json_with_string_field(text, "from", user_id);
            let notify = is_uuid(to.as_str());
            SocketAction::RelayCall { to, relay, notify }
        },
        SignalRoute::GroupOffer { to, from } => {
            let notify = is_uuid(to.as_str()) && is_uuid(from.as_str());
            SocketAction::RelayGroup { to, from, notify }
        },
        SignalRoute::GroupRelay { to, from } => SocketAction::RelayGroup { to, from, notify: false },
        SignalRoute::Skip => SocketAction::Skip,
        SignalRoute::Chat => SocketAction::Chat,
    }
}

/// A group relay reaches a connected user unless the user sent it, and, when
/// it names a recipient, only that recipient.
pub open spec fn relay_reaches(user: Seq<char>, to: Seq<char>, from: Seq<char>) -> bool {
    user != from && (to.len() == 0 || user == to)
}

/// The connected users a group relay from `from` to `to` reaches, in the
/// order given.
pub fn relay_targets(connected: &Vec<String>, to: &str, from: &str) -> (r: Vec<String>)
    ensures
        views(r@) == views(connected@).filter(|u: Seq<char>| relay_reaches(u, to@, from@)),
{
    let ghost pred = |u: Seq<char>| relay_reaches(u, to@, from@);
    let to_empty = to.unicode_len() == 0;
    let mut r: Vec<String> = Vec::new();
    let mut i: usize = 0;
    while i < connected.len()
        invariant
            i <= connected.len(),
            to_empty == (to@.len() == 0),
            pred == (|u: Seq<char>| relay_reaches(u, to@, from@)),
            views(r@) == views(connected@).take(i as int).filter(pred),
        decreases connected.len() - i,
    {
        let u = &connected[i];
        proof {
            reveal(Seq::filter);
            assert(views(connected@).take(i + 1).drop_last() =~= views(
                connected@,
            ).take(i as int));
        }
        let reaches = !str_eq(u.as_str(), from) && (to_empty || str_eq(u.as_str(), to));
        if reaches {
            r.push(u.clone());
            assert(views(r@) =~= views(connected@).take(i as int).filter(pred).push(
                u@,
            ));
        }
        i = i + 1;
    }
    assert(views(connected@).take(i as int) =~= views(connected@));
    r
}

/// No group relay goes back to its sender, and one with a recipient reaches
/// no one else.
pub proof fn lemma_relay_targets_exclude_sender(
    connected: Seq<Seq<char>>,
    to: Seq<char>,
    from: Seq<char>,
    i: int,
)
    requires
        0 <= i < connected.filter(|u: Seq<char>| relay_reaches(u, to, from)).len(),
    ensures
        connected.filter(|u: Seq<char>| relay_reaches(u, to, from))[i] != from,
        to.len() > 0 ==> connected.filter(|u: Seq<char>| relay_reaches(u, to, from))[i] == to,
{
    connected.lemma_filter_pred(|u: Seq<char>| relay_reaches(u, to, from), i);
}

/// The notice pushed to a user's subscriptions.
pub struct PushNotice {
    pub title: String,
    pub body: String,
    /// The entries of the notice's `data` object, as name and value.
    pub data: Vec<(String, String)>,
}

/// The notice of an incoming call.
pub fn call_notice() -> (n: PushNotice)
    ensures
        n.title@ == "Incoming Call"@,
        n.body@ == "You have an incoming call!"@,
        n.data@.len() == 1,
        n.data@[0].0@ == "type"@ && n.data@[0].1@ == "call-offer"@,
{
    PushNotice {
        title: owned("Incoming Call"),
        body: owned("You have an incoming call!"),
        data: vec![(owned("type"), owned("call-offer"))],
    }
}

/// The notice of an incoming call in the group `group_id`.
pub fn group_call_notice(group_id: &str) -> (n: PushNotice)
    ensures
        n.title@ == "Incoming Group Call"@,
        n.body@ == "You have an incoming group call!"@,
        n.data@.len() == 2,
        n.data@[0].0@ == "type"@ && n.data@[0].1@ == "group-call-offer"@,
        n.data@[1].0@ == "group_id"@ && n.data@[1].1@ == group_id@,
{
    PushNotice {
        title: owned("Incoming Group Call"),
        body: owned("You have an incoming group call!"),
        data: vec![(owned("type"), owned("group-call-offer")), (owned("group_id"), owned(group_id))],
    }
}

/// A field holding the string `s`.
pub open spec fn text_field(s: Seq<char>) -> Option<Option<Option<Seq<char>>>> {
    Some(Some(Some(s)))
}

/// How each kind of signalling frame is routed, when it names both a
/// recipient `to` and a sender `from`: a call offer goes to `to`; a group
/// call offer, a group call answer and a group ICE candidate each go to the
/// group, from `from` to `to`.
pub proof fn lemma_route_per_type(to: Seq<char>, from: Seq<char>)
    ensures
        route_spec(text_field("call-offer"@), text_field(to), text_field(from)) == (RouteView::Call { to }),
        route_spec(text_field("group-call-offer"@), text_field(to), text_field(from))
            == (RouteView::GroupOffer { to, from }),
        route_spec(text_field("group-call-answer"@), text_field(to), text_field(from))
            == (RouteView::GroupRelay { to, from }),
        route_spec(text_field("group-ice-candidate"@), text_field(to), text_field(from))
            == (RouteView::GroupRelay { to, from }),
{
    reveal_strlit("call-offer");
    reveal_strlit("group-call-offer");
    reveal_strlit("group-call-answer");
    reveal_strlit("group-ice-candidate");
    assert("call-offer"@.len() == 10);
    assert("group-call-offer"@.len() == 16);
    assert("group-call-answer"@.len() == 17);
    assert("group-ice-candidate"@.len() == 19);
}

/// A frame whose type is none of the four signalling types is chat,
/// whatever addresses it names.
pub proof fn lemma_other_types_are_chat(
    other: Seq<char>,
    to: Option<Option<Option<Seq<char>>>>,
    from: Option<Option<Option<Seq<char>>>>,
)
    requires
        other != "call-offer"@,
        other != "group-call-offer"@,
        other != "group-call-answer"@,
        other != "group-ice-candidate"@,
    ensures
        route_spec(text_field(other), to, from) == RouteView::Chat,
{
}

/// Group signalling without both addresses is dropped, whatever its kind.
pub proof fn lemma_group_signal_without_addresses_dropped(
    kind: Seq<char>,
    to: Option<Option<Option<Seq<char>>>>,
    from: Option<Option<Option<Seq<char>>>>,
)
    requires
        kind == "group-call-offer"@ || kind == "group-call-answer"@ || kind == "group-ice-candidate"@,
        !present(to) || !present(from),
    ensures
        route_spec(text_field(kind), to, from) == RouteView::Skip,
{
    reveal_strlit("call-offer");
    reveal_strlit("group-call-offer");
    reveal_strlit("group-call-answer");
    reveal_strlit("group-ice-candidate");
    assert("call-offer"@.len() == 10);
    assert("group-call-offer"@.len() == 16);
    assert("group-call-answer"@.len() == 17);
    assert("group-ice-candidate"@.len() == 19);
}

/// A group call answer or ICE candidate frame that names `to` and `from` is
/// relayed to the group as it stands, from `from` to `to`, with no push notice.
pub proof fn lemma_group_answer_and_ice_relayed(
    user_id: Seq<char>,
    text: Seq<char>,
    a: SocketAction,
    kind: Seq<char>,
    to: Seq<char>,
    from: Seq<char>,
)
    requires
        kind == "group-call-answer"@ || kind == "group-ice-candidate"@,
        json_string_field(text, "type"@) == text_field(kind),
        json_string_field(text, "to"@) == text_field(to),
        json_string_field(text, "from"@) == text_field(from),
        socket_action_spec(user_id, text, a),
    ensures
        a matches SocketAction::RelayGroup { to: t, from: f, notify } && t@ == to && f@ == from && !notify,
{
    lemma_route_per_type(to, from);
}

} // verus!
