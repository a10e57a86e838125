//! The store of login sessions: creation under a per-user limit, activity
//! tracking with expiry, revocation, clean-up and notifications.
use vstd::prelude::*;
use vstd::string::*;
use crate::auth_error::AuthError;
use crate::clock::{unix_now, new_uuid_string};
use crate::text::{str_eq, contains, contains_seq, owned, clone_opt, owned_opt};

verus! {

/// At most this many sessions of one user are active (not revoked) at a time.
pub const MAX_SESSIONS_PER_USER: usize = 5;

/// A session expires this many seconds after it was created.
pub const SESSION_EXPIRY_SECONDS: i64 = 86400;

/// A session expires after this many seconds without activity.
pub const SESSION_INACTIVITY_SECONDS: i64 = 1800;

/// One recorded action of a session.
#[derive(Debug)]
pub struct SessionActivity {
    pub timestamp: i64,
    pub action: String,
    pub details: Option<String>,
}

impl Clone for SessionActivity {
    fn clone(&self) -> (r: Self)
        ensures
            r == *self,
    {
        SessionActivity {
            timestamp: self.timestamp,
            action: self.action.clone(),
            details: clone_opt(&self.details),
        }
    }
}

/// What identifies the client of a session.
#[derive(Debug)]
pub struct SessionFingerprint {
    pub user_agent: String,
    pub ip_address: String,
    pub device_type: String,
    pub browser: String,
    pub os: String,
    pub screen_resolution: Option<String>,
    pub timezone: String,
}

impl Clone for SessionFingerprint {
    fn clone(&self) -> (r: Self)
        ensures
            r == *self,
    {
        SessionFingerprint {
            user_agent: self.user_agent.clone(),
            ip_address: self.ip_address.clone(),
            device_type: self.device_type.clone(),
            browser: self.browser.clone(),
            os: self.os.clone(),
            screen_resolution: clone_opt(&self.screen_resolution),
            timezone: self.timezone.clone(),
        }
    }
}

/// The kind of event a session notification reports.
#[derive(Debug, Clone, Copy, PartialEq, Eq, Structural)]
pub enum NotificationType {
    Login,
    Logout,
    PasswordChange,
    SessionRevoked,
    SuspiciousActivity,
    DeviceChange,
    LocationChange,
}

/// How serious a session notification is.
#[derive(Debug, Clone, Copy, PartialEq, Eq, Structural)]
pub enum NotificationSeverity {
    Info,
    Warning,
    Critical,
}

/// A notice attached to a session.
#[derive(Debug)]
pub struct SessionNotification {
    pub timestamp: i64,
    pub notification_type: NotificationType,
    pub message: String,
    pub severity: NotificationSeverity,
}

impl Clone for SessionNotification {
    fn clone(&self) -> (r: Self)
        ensures
            r == *self,
    {
        SessionNotification {
            timestamp: self.timestamp,
            notification_type: self.notification_type,
            message: self.message.clone(),
            severity: self.severity,
        }
    }
}

/// A login session of one user on one device.
#[derive(Debug)]
pub struct Session {
    pub user_id: i32,
    pub device_id: String,
    pub created_at: i64,
    pub last_active: i64,
    pub ip_address: String,
    pub device_info: Option<String>,
    pub revoked: bool,
    pub activities: Vec<SessionActivity>,
    pub fingerprint: SessionFingerprint,
    pub notifications: Vec<SessionNotification>,
}

/// A session as a value: its lists as sequences.
pub struct SessionView {
    pub user_id: i32,
    pub device_id: String,
    pub created_at: i64,
    pub last_active: i64,
    pub ip_address: String,
    pub device_info: Option<String>,
    pub revoked: bool,
    pub activities: Seq<SessionActivity>,
    pub fingerprint: SessionFingerprint,
    pub notifications: Seq<SessionNotification>,
}

impl View for Session {
    type V = SessionView;

    open spec fn view(&self) -> SessionView {
        SessionView {
            user_id: self.user_id,
            device_id: self.device_id,
            created_at: self.created_at,
            last_active: self.last_active,
            ip_address: self.ip_address,
            device_info: self.device_info,
            revoked: self.revoked,
            activities: self.activities@,
            fingerprint: self.fingerprint,
            notifications: self.notifications@,
        }
    }
}

fn clone_activities(v: &Vec<SessionActivity>) -> (r: Vec<SessionActivity>)
    ensures
        r@ == v@,
{
    let mut r: Vec<SessionActivity> = Vec::new();
    let n = v.len();
    let mut i: usize = 0;
    while i < n
        invariant
            i <= n,
            n == v@.len(),
            r@ == v@.take(i as int),
        decreases n - i,
    {
        r.push(v[i].clone());
        assert(v@.take(i + 1) =~= v@.take(i as int).push(v@[i as int]));
        i = i + 1;
    }
    assert(v@.take(n as int) =~= v@);
    r
}

fn clone_notifications(v: &Vec<SessionNotification>) -> (r: Vec<SessionNotification>)
    ensures
        r@ == v@,
{
    let mut r: Vec<SessionNotification> = Vec::new();
    let n = v.len();
    let mut i: usize = 0;
    while i < n
        invariant
            i <= n,
            n == v@.len(),
            r@ == v@.take(i as int),
        decreases n - i,
    {
        r.push(v[i].clone());
        assert(v@.take(i + 1) =~= v@.take(i as int).push(v@[i as int]));
        i = i + 1;
    }
    assert(v@.take(n as int) =~= v@);
    r
}

impl Session {
    /// A copy of the session.
    pub fn duplicate(&self) -> (r: Session)
        ensures
            r@ == self@,
    {
        Session {
            user_id: self.user_id,
            device_id: self.device_id.clone(),
            created_at: self.created_at,
            last_active: self.last_active,
            ip_address: self.ip_address.clone(),
            device_info: clone_opt(&self.device_info),
            revoked: self.revoked,
            activities: clone_activities(&self.activities),
            fingerprint: self.fingerprint.clone(),
            notifications: clone_notifications(&self.notifications),
        }
    }
}

/// A session counts toward its user's limit: it belongs to `user` and is not revoked.
pub open spec fn is_active_for(s: SessionView, user: i32) -> bool {
    s.user_id == user && !s.revoked
}

/// One stored session: its id and the session.
pub type SessionEntry = (Seq<char>, SessionView);

/// The number of active sessions of `user` in `es`.
pub open spec fn active_count(es: Seq<SessionEntry>, user: i32) -> nat
    decreases es.len(),
{
    if es.len() == 0 {
        0
    } else {
        active_count(es.drop_last(), user) + if is_active_for(es.last().1, user) {
            1nat
        } else {
            0nat
        }
    }
}

/// No two stored sessions share an id.
pub open spec fn ids_distinct(es: Seq<SessionEntry>) -> bool {
    forall|i: int, j: int|
        0 <= i < es.len() && 0 <= j < es.len() && i != j ==> #[trigger] es[i].0 != #[trigger] es[j].0
}

/// A session with this id is stored.
pub open spec fn has_id(es: Seq<SessionEntry>, id: Seq<char>) -> bool {
    exists|i: int| 0 <= i < es.len() && #[trigger] es[i].0 == id
}

/// Where the session with this id is stored.
pub open spec fn index_of(es: Seq<SessionEntry>, id: Seq<char>) -> int {
    choose|i: int| 0 <= i < es.len() && #[trigger] es[i].0 == id
}

/// The stored session with this id.
pub open spec fn session_of(es: Seq<SessionEntry>, id: Seq<char>) -> SessionView {
    es[index_of(es, id)].1
}

/// The session has lived longer than a day, or has been idle longer than half an hour, at `now`.
pub open spec fn expired_at(s: SessionView, now: i64) -> bool {
    now - s.created_at > SESSION_EXPIRY_SECONDS || now - s.last_active > SESSION_INACTIVITY_SECONDS
}

/// The activity recorded when a session is created.
pub open spec fn creation_activity(now: i64, device_id: Seq<char>, ip: Seq<char>) -> (i64, Seq<char>, Seq<char>) {
    (now, "created"@, "Device: "@ + device_id + ", IP: "@ + ip)
}

/// A newly created session of `user`, as `create_session` stores it at time `now`.
pub open spec fn is_new_session(
    v: SessionView,
    user: i32,
    device_id: Seq<char>,
    ip: Seq<char>,
    device_info: Option<String>,
    fingerprint: SessionFingerprint,
    now: i64,
) -> bool {
    &&& v.user_id == user
    &&& v.device_id@ == device_id
    &&& v.created_at == now
    &&& v.last_active == now
    &&& v.ip_address@ == ip
    &&& v.device_info == device_info
    &&& !v.revoked
    &&& v.fingerprint == fingerprint
    &&& v.activities.len() == 1
    &&& v.activities[0].timestamp == now
    &&& v.activities[0].action@ == "created"@
    &&& v.activities[0].details matches Some(d) && d@ == creation_activity(now, device_id, ip).2
    &&& v.notifications.len() == 1
    &&& v.notifications[0].timestamp == now
    &&& v.notifications[0].notification_type == NotificationType::Login
    &&& v.notifications[0].message@ == "New session created"@
    &&& v.notifications[0].severity == NotificationSeverity::Info
}

/// What recording `action` (with `details`) at time `now` on the session
/// `id` of the store `es` gives: the answer `r` and the new store `new_es`.
/// An unknown id and a revoked session are refused with the store unchanged;
/// a session expired at `now` is removed and refused; otherwise the activity
/// is recorded and the session marked active at `now`.
pub open spec fn activity_outcome(
    es: Seq<SessionEntry>,
    id: Seq<char>,
    now: i64,
    action: Seq<char>,
    details: Option<String>,
    r: Result<(), AuthError>,
    new_es: Seq<SessionEntry>,
) -> bool {
    if !has_id(es, id) {
        r matches Err(AuthError::InvalidSession) && new_es == es
    } else if session_of(es, id).revoked {
        r matches Err(AuthError::SessionRevoked) && new_es == es
    } else if expired_at(session_of(es, id), now) {
        r matches Err(AuthError::SessionExpired) && new_es == es.remove(index_of(es, id))
    } else {
        r is Ok && has_id(new_es, id) && new_es == es.update(index_of(es, id), (id, session_of(new_es, id)))
            && activity_recorded(session_of(es, id), session_of(new_es, id), now, action, details)
    }
}

/// `t` is `s` after recording `action` at `now`: the activity appended and the
/// session marked active at `now`, nothing else changed.
pub open spec fn activity_recorded(
    s: SessionView,
    t: SessionView,
    now: i64,
    action: Seq<char>,
    details: Option<String>,
) -> bool {
    &&& t == SessionView { last_active: now, activities: t.activities, ..s }
    &&& t.activities.len() == s.activities.len() + 1
    &&& t.activities.drop_last() == s.activities
    &&& t.activities.last().timestamp == now
    &&& t.activities.last().action@ == action
    &&& t.activities.last().details == details
}

/// `es` with the entry of `id` set to `v`: replaced where the id is stored, appended otherwise.
pub open spec fn put(es: Seq<SessionEntry>, id: Seq<char>, v: SessionView) -> Seq<SessionEntry> {
    if has_id(es, id) {
        es.update(index_of(es, id), (id, v))
    } else {
        es.push((id, v))
    }
}

/// The device class a user agent names.
pub open spec fn device_type_of(ua: Seq<char>) -> Seq<char> {
    if contains_seq(ua, "Mobile"@) {
        "Mobile"@
    } else if contains_seq(ua, "Tablet"@) {
        "Tablet"@
    } else {
        "Desktop"@
    }
}

/// The browser a user agent names.
pub open spec fn browser_of(ua: Seq<char>) -> Seq<char> {
    if contains_seq(ua, "Chrome"@) {
        "Chrome"@
    } else if contains_seq(ua, "Firefox"@) {
        "Firefox"@
    } else if contains_seq(ua, "Safari"@) {
        "Safari"@
    } else {
        "Unknown"@
    }
}

/// The operating system a user agent names.
pub open spec fn os_of(ua: Seq<char>) -> Seq<char> {
    if contains_seq(ua, "Windows"@) {
        "Windows"@
    } else if contains_seq(ua, "Mac"@) {
        "macOS"@
    } else if contains_seq(ua, "Linux"@) {
        "Linux"@
    } else if contains_seq(ua, "Android"@) {
        "Android"@
    } else if contains_seq(ua, "iOS"@) {
        "iOS"@
    } else {
        "Unknown"@
    }
}

/// The fingerprint's client differs from the session's: another device class,
/// browser, operating system or address.
pub open spec fn suspicious(old: SessionFingerprint, new: SessionFingerprint) -> bool {
    old.device_type@ != new.device_type@ || old.browser@ != new.browser@ || old.os@ != new.os@
        || old.ip_address@ != new.ip_address@
}

/// The sessions of `user`, revoked ones included, in store order.
pub open spec fn sessions_of_user(es: Seq<SessionEntry>, user: i32) -> Seq<SessionView>
    decreases es.len(),
{
    if es.len() == 0 {
        Seq::empty()
    } else if es.last().1.user_id == user {
        sessions_of_user(es.drop_last(), user).push(es.last().1)
    } else {
        sessions_of_user(es.drop_last(), user)
    }
}

/// The entries that have not expired at `now`, in store order.
pub open spec fn unexpired(es: Seq<SessionEntry>, now: i64) -> Seq<SessionEntry>
    decreases es.len(),
{
    if es.len() == 0 {
        Seq::empty()
    } else if !expired_at(es.last().1, now) {
        unexpired(es.drop_last(), now).push(es.last())
    } else {
        unexpired(es.drop_last(), now)
    }
}

/// The earliest creation time among the active sessions of `user`.
pub open spec fn oldest_active_created_at(es: Seq<SessionEntry>, user: i32) -> int
    decreases es.len(),
{
    if es.len() == 0 {
        i64::MAX as int
    } else {
        let rest = oldest_active_created_at(es.drop_last(), user);
        if is_active_for(es.last().1, user) && (es.last().1.created_at as int) < rest {
            es.last().1.created_at as int
        } else {
            rest
        }
    }
}

/// A session stored under a new id counts once more among its user's active
/// sessions and leaves every other user's count as it was.
pub proof fn lemma_new_session_counted(es: Seq<SessionEntry>, id: Seq<char>, v: SessionView, other: i32)
    requires
        !has_id(es, id),
        !v.revoked,
    ensures
        active_count(put(es, id, v), v.user_id) == active_count(es, v.user_id) + 1,
        other != v.user_id ==> active_count(put(es, id, v), other) == active_count(es, other),
{
    assert(put(es, id, v).drop_last() =~= es);
}

// ---------------------------------------------------------------- lemmas

pub proof fn lemma_count_update(es: Seq<SessionEntry>, i: int, x: SessionEntry, user: i32)
    requires
        0 <= i < es.len(),
    ensures
        active_count(es.update(i, x), user) + (if is_active_for(es[i].1, user) { 1int } else { 0int })
            == active_count(es, user) + (if is_active_for(x.1, user) { 1int } else { 0int }),
    decreases es.len(),
{
    let es2 = es.update(i, x);
    if i == es.len() - 1 {
        assert(es2.drop_last() =~= es.drop_last());
    } else {
        lemma_count_update(es.drop_last(), i, x, user);
        assert(es2.drop_last() =~= es.drop_last().update(i, x));
    }
}

pub proof fn lemma_count_remove(es: Seq<SessionEntry>, i: int, user: i32)
    requires
        0 <= i < es.len(),
    ensures
        active_count(es.remove(i), user) + (if is_active_for(es[i].1, user) { 1int } else { 0int })
            == active_count(es, user),
    decreases es.len(),
{
    let es2 = es.remove(i);
    if i == es.len() - 1 {
        assert(es2 =~= es.drop_last());
    } else {
        lemma_count_remove(es.drop_last(), i, user);
        assert(es2.drop_last() =~= es.drop_last().remove(i));
        assert(es2.last() == es.last());
    }
}

pub proof fn lemma_count_unexpired(es: Seq<SessionEntry>, now: i64, user: i32)
    ensures
        active_count(unexpired(es, now), user) <= active_count(es, user),
    decreases es.len(),
{
    if es.len() > 0 {
        lemma_count_unexpired(es.drop_last(), now, user);
        let rest = unexpired(es.drop_last(), now);
        assert(rest.push(es.last()).drop_last() =~= rest);
    }
}

proof fn lemma_unexpired_members(es: Seq<SessionEntry>, now: i64, k: int)
    requires
        0 <= k < unexpired(es, now).len(),
    ensures
        exists|i: int| 0 <= i < es.len() && es[i] == #[trigger] unexpired(es, now)[k],
    decreases es.len(),
{
    let u = unexpired(es, now);
    if es.len() > 0 {
        let rest = unexpired(es.drop_last(), now);
        if k < rest.len() {
            lemma_unexpired_members(es.drop_last(), now, k);
            let i = choose|i: int| 0 <= i < es.drop_last().len() && es.drop_last()[i] == rest[k];
            assert(es[i] == u[k]);
        } else {
            assert(es[es.len() - 1] == u[k]);
        }
    }
}

proof fn lemma_unexpired_distinct(es: Seq<SessionEntry>, now: i64)
    requires
        ids_distinct(es),
    ensures
        ids_distinct(unexpired(es, now)),
    decreases es.len(),
{
    if es.len() > 0 {
        let d = es.drop_last();
        assert(ids_distinct(d));
        lemma_unexpired_distinct(d, now);
        let rest = unexpired(d, now);
        if !expired_at(es.last().1, now) {
            let u = unexpired(es, now);
            assert forall|i: int, j: int|
                0 <= i < u.len() && 0 <= j < u.len() && i != j implies #[trigger] u[i].0
                != #[trigger] u[j].0 by {
                if i < rest.len() && j < rest.len() {
                } else if i < rest.len() {
                    lemma_unexpired_members(d, now, i);
                    let a = choose|a: int| 0 <= a < d.len() && d[a] == #[trigger] rest[i];
                    assert(es[a] == d[a]);
                } else {
                    lemma_unexpired_members(d, now, j);
                    let a = choose|a: int| 0 <= a < d.len() && d[a] == #[trigger] rest[j];
                    assert(es[a] == d[a]);
                }
            }
        }
    }
}

proof fn lemma_index_of_unique(es: Seq<SessionEntry>, i: int)
    requires
        ids_distinct(es),
        0 <= i < es.len(),
    ensures
        has_id(es, es[i].0),
        index_of(es, es[i].0) == i,
{
    assert(has_id(es, es[i].0));
}

proof fn lemma_distinct_update(es: Seq<SessionEntry>, i: int, v: SessionView)
    requires
        ids_distinct(es),
        0 <= i < es.len(),
    ensures
        ids_distinct(es.update(i, (es[i].0, v))),
{
    let es2 = es.update(i, (es[i].0, v));
    assert forall|a: int, b: int|
        0 <= a < es2.len() && 0 <= b < es2.len() && a != b implies #[trigger] es2[a].0
        != #[trigger] es2[b].0 by {
        assert(es2[a].0 == es[a].0);
        assert(es2[b].0 == es[b].0);
    }
}

proof fn lemma_distinct_remove(es: Seq<SessionEntry>, i: int)
    requires
        ids_distinct(es),
        0 <= i < es.len(),
    ensures
        ids_distinct(es.remove(i)),
{
    let es2 = es.remove(i);
    assert forall|a: int, b: int|
        0 <= a < es2.len() && 0 <= b < es2.len() && a != b implies #[trigger] es2[a].0
        != #[trigger] es2[b].0 by {
        let a2 = if a < i { a } else { a + 1 };
        let b2 = if b < i { b } else { b + 1 };
        assert(es2[a] == es[a2]);
        assert(es2[b] == es[b2]);
    }
}

proof fn lemma_oldest_is_min(es: Seq<SessionEntry>, user: i32, k: int)
    requires
        0 <= k < es.len(),
        is_active_for(es[k].1, user),
    ensures
        oldest_active_created_at(es, user) <= es[k].1.created_at,
    decreases es.len(),
{
    if k < es.len() - 1 {
        lemma_oldest_is_min(es.drop_last(), user, k);
    }
}

proof fn lemma_oldest_attained(es: Seq<SessionEntry>, user: i32)
    requires
        active_count(es, user) > 0,
    ensures
        exists|k: int|
            0 <= k < es.len() && is_active_for(es[k].1, user) && #[trigger] es[k].1.created_at
                == oldest_active_created_at(es, user),
    decreases es.len(),
{
    let d = es.drop_last();
    let last = es.len() - 1;
    if active_count(d, user) > 0 {
        lemma_oldest_attained(d, user);
        let k = choose|k: int|
            0 <= k < d.len() && is_active_for(d[k].1, user) && #[trigger] d[k].1.created_at
                == oldest_active_created_at(d, user);
        if is_active_for(es[last].1, user) && (es[last].1.created_at as int)
            < oldest_active_created_at(d, user) {
            assert(es[last].1.created_at == oldest_active_created_at(es, user));
        } else {
            assert(es[k].1.created_at == oldest_active_created_at(es, user));
        }
    } else {
        assert(is_active_for(es[last].1, user));
        if (es[last].1.created_at as int) < oldest_active_created_at(d, user) {
            assert(es[last].1.created_at == oldest_active_created_at(es, user));
        } else {
            // no active session before the last one, so the minimum is the last one's
            lemma_no_active_oldest_is_max(d, user);
            assert(es[last].1.created_at == oldest_active_created_at(es, user));
        }
    }
}

proof fn lemma_no_active_oldest_is_max(es: Seq<SessionEntry>, user: i32)
    requires
        active_count(es, user) == 0,
    ensures
        oldest_active_created_at(es, user) == i64::MAX,
    decreases es.len(),
{
    if es.len() > 0 {
        lemma_no_active_oldest_is_max(es.drop_last(), user);
    }
}

proof fn lemma_count_positive(es: Seq<SessionEntry>, user: i32, k: int)
    requires
        0 <= k < es.len(),
        is_active_for(es[k].1, user),
    ensures
        active_count(es, user) > 0,
    decreases es.len(),
{
    if k < es.len() - 1 {
        lemma_count_positive(es.drop_last(), user, k);
    }
}

proof fn lemma_count_zero(es: Seq<SessionEntry>, user: i32)
    requires
        forall|k: int| 0 <= k < es.len() ==> !is_active_for(#[trigger] es[k].1, user),
    ensures
        active_count(es, user) == 0,
    decreases es.len(),
{
    if es.len() > 0 {
        let d = es.drop_last();
        assert forall|k: int| 0 <= k < d.len() implies !is_active_for(#[trigger] d[k].1, user) by {
            assert(d[k] == es[k]);
        }
        lemma_count_zero(d, user);
    }
}

// ---------------------------------------------------------------- the store

/// The session store: session ids and their sessions.
pub struct SessionManager {
    sessions: Vec<(String, Session)>,
}

/// The value of a stored entry.
pub open spec fn entry_view(e: (String, Session)) -> SessionEntry {
    (e.0@, e.1@)
}

/// A fresh session at `now`.
fn new_session(
    user_id: i32,
    device_id: String,
    ip_address: String,
    device_info: Option<String>,
    fingerprint: SessionFingerprint,
    now: i64,
) -> (s: Session)
    ensures
        is_new_session(s@, user_id, device_id@, ip_address@, device_info, fingerprint, now),
{
    let mut details = owned("Device: ");
    details.append(device_id.as_str());
    details.append(", IP: ");
    details.append(ip_address.as_str());
    let mut activities: Vec<SessionActivity> = Vec::new();
    activities.push(SessionActivity { timestamp: now, action: owned("created"), details: Some(details) });
    let mut notifications: Vec<SessionNotification> = Vec::new();
    notifications.push(
        SessionNotification {
            timestamp: now,
            notification_type: NotificationType::Login,
            message: owned("New session created"),
            severity: NotificationSeverity::Info,
        },
    );
    Session {
        user_id,
        device_id,
        created_at: now,
        last_active: now,
        ip_address,
        device_info,
        revoked: false,
        activities,
        fingerprint,
        notifications,
    }
}

impl SessionManager {
    /// The stored sessions, in store order.
    pub closed spec fn entries(&self) -> Seq<SessionEntry> {
        self.sessions@.map_values(|e: (String, Session)| entry_view(e))
    }

    /// Ids are unique and no user has more than the allowed number of active sessions.
    pub open spec fn wf(&self) -> bool {
        &&& ids_distinct(self.entries())
        &&& forall|u: i32| #[trigger] active_count(self.entries(), u) <= MAX_SESSIONS_PER_USER
    }

    /// An empty store.
    pub fn new() -> (m: Self)
        ensures
            m.wf(),
            m.entries() == Seq::<SessionEntry>::empty(),
    {
        let m = SessionManager { sessions: Vec::new() };
        assert(m.entries() =~= Seq::<SessionEntry>::empty());
        m
    }

    /// Where the session with this id is stored.
    fn find(&self, id: &str) -> (r: Option<usize>)
        requires
            ids_distinct(self.entries()),
        ensures
            match r {
                Some(i) => i < self.entries().len() && has_id(self.entries(), id@) && index_of(
                    self.entries(),
                    id@,
                ) == i,
                None => !has_id(self.entries(), id@),
            },
    {
        let n = self.sessions.len();
        let mut i: usize = 0;
        while i < n
            invariant
                i <= n,
                n == self.sessions@.len(),
                self.entries().len() == n,
                ids_distinct(self.entries()),
                forall|k: int| 0 <= k < i ==> #[trigger] self.entries()[k].0 != id@,
            decreases n - i,
        {
            if str_eq(self.sessions[i].0.as_str(), id) {
                proof {
                    assert(self.entries()[i as int] == entry_view(self.sessions@[i as int]));
                    lemma_index_of_unique(self.entries(), i as int);
                }
                return Some(i);
            }
            assert(self.entries()[i as int] == entry_view(self.sessions@[i as int]));
            i = i + 1;
        }
        None
    }

    /// The number of active sessions of `user_id`.
    pub fn get_user_session_count(&self, user_id: i32) -> (n: usize)
        ensures
            n == active_count(self.entries(), user_id),
    {
        let len = self.sessions.len();
        let mut count: usize = 0;
        let mut i: usize = 0;
        while i < len
            invariant
                i <= len,
                len == self.sessions@.len(),
                self.entries().len() == len,
                count == active_count(self.entries().take(i as int), user_id),
                count <= i,
            decreases len - i,
        {
            let s = &self.sessions[i].1;
            proof {
                let t = self.entries().take(i + 1);
                assert(t.drop_last() =~= self.entries().take(i as int));
                assert(t.last() == entry_view(self.sessions@[i as int]));
            }
            if s.user_id == user_id && !s.revoked {
                count = count + 1;
            }
            i = i + 1;
        }
        assert(self.entries().take(len as int) =~= self.entries());
        count
    }

    /// Stores a new session under `session_id`, created at `now`, unless the user
    /// already has the allowed number of active sessions.
    pub fn create_session_at(
        &mut self,
        session_id: String,
        now: i64,
        user_id: i32,
        device_id: String,
        ip_address: String,
        device_info: Option<String>,
        fingerprint: SessionFingerprint,
    ) -> (r: Result<String, AuthError>)
        requires
            old(self).wf(),
        ensures
            final(self).wf(),
            active_count(old(self).entries(), user_id) >= MAX_SESSIONS_PER_USER ==> (r matches Err(
                AuthError::SessionLimitExceeded,
            ) && final(self).entries() == old(self).entries()),
            active_count(old(self).entries(), user_id) < MAX_SESSIONS_PER_USER ==> (r matches Ok(id)
                && id@ == session_id@ && has_id(final(self).entries(), session_id@) && is_new_session(
                session_of(final(self).entries(), session_id@),
                user_id,
                device_id@,
                ip_address@,
                device_info,
                fingerprint,
                now,
            ) && final(self).entries() == put(
                old(self).entries(),
                session_id@,
                session_of(final(self).entries(), session_id@),
            )),
    {
        let count = self.get_user_session_count(user_id);
        if count >= MAX_SESSIONS_PER_USER {
            return Err(AuthError::SessionLimitExceeded);
        }
        let ghost es = self.entries();
        let session = new_session(user_id, device_id, ip_address, device_info, fingerprint, now);
        let ghost v = session@;
        let result = session_id.clone();
        match self.find(session_id.as_str()) {
            Some(i) => {
                let _old = self.sessions.remove(i);
                self.sessions.insert(i, (session_id, session));
                proof {
                    assert(self.entries() =~= es.update(i as int, (result@, v)));
                    lemma_distinct_update(es, i as int, v);
                    assert forall|u: i32| #[trigger] active_count(self.entries(), u)
                        <= MAX_SESSIONS_PER_USER by {
                        lemma_count_update(es, i as int, (result@, v), u);
                        assert(active_count(es, u) <= MAX_SESSIONS_PER_USER);
                    }
                    lemma_index_of_unique(self.entries(), i as int);
                }
            },
            None => {
                self.sessions.push((session_id, session));
                proof {
                    assert(self.entries() =~= es.push((result@, v)));
                    assert(self.entries().drop_last() =~= es);
                    assert forall|a: int, b: int|
                        0 <= a < self.entries().len() && 0 <= b < self.entries().len() && a != b
                            implies #[trigger] self.entries()[a].0 != #[trigger] self.entries()[b].0 by {
                        if a < es.len() && b < es.len() {
                            assert(self.entries()[a] == es[a]);
                            assert(self.entries()[b] == es[b]);
                        } else if a < es.len() {
                            assert(self.entries()[a] == es[a]);
                        } else {
                            assert(self.entries()[b] == es[b]);
                        }
                    }
                    assert forall|u: i32| #[trigger] active_count(self.entries(), u)
                        <= MAX_SESSIONS_PER_USER by {
                        assert(active_count(es, u) <= MAX_SESSIONS_PER_USER);
                    }
                    lemma_index_of_unique(self.entries(), es.len() as int);
                }
            },
        }
        Ok(result)
    }

    /// Stores a new session under a fresh id, created now (see `create_session_at`).
    pub fn create_session(
        &mut self,
        user_id: i32,
        device_id: String,
        ip_address: String,
        device_info: Option<String>,
        fingerprint: SessionFingerprint,
    ) -> (r: Result<String, AuthError>)
        requires
            old(self).wf(),
        ensures
            final(self).wf(),
            active_count(old(self).entries(), user_id) >= MAX_SESSIONS_PER_USER ==> (r matches Err(
                AuthError::SessionLimitExceeded,
            ) && final(self).entries() == old(self).entries()),
            active_count(old(self).entries(), user_id) < MAX_SESSIONS_PER_USER ==> (r matches Ok(id)
                && has_id(final(self).entries(), id@) && (exists|now: i64|
                is_new_session(
                    #[trigger] session_of(final(self).entries(), id@),
                    user_id,
                    device_id@,
                    ip_address@,
                    device_info,
                    fingerprint,
                    now,
                )) && final(self).entries() == put(
                old(self).entries(),
                id@,
                session_of(final(self).entries(), id@),
            )),
    {
        let id = new_uuid_string();
        let now = unix_now();
        self.create_session_at(id, now, user_id, device_id, ip_address, device_info, fingerprint)
    }

    /// Whether `session` has expired at `now`.
    pub fn is_session_expired_at(session: &Session, now: i64) -> (b: bool)
        ensures
            b == expired_at(session@, now),
            now - session.created_at > 86400 ==> b,
            now - session.last_active > 1800 ==> b,
            now - session.created_at <= 86400 && now - session.last_active <= 1800 ==> !b,
    {
        (now as i128) - (session.created_at as i128) > SESSION_EXPIRY_SECONDS as i128 || (now as i128)
            - (session.last_active as i128) > SESSION_INACTIVITY_SECONDS as i128
    }

    /// Whether `session` has expired now: the answer of `is_session_expired_at`
    /// at the instant the clock reads.
    fn is_session_expired(&self, session: &Session) -> (b: bool)
        ensures
            exists|now: i64|
                -crate::tokens::TIMESTAMP_BOUND <= now <= crate::tokens::TIMESTAMP_BOUND && b
                    == #[trigger] expired_at(session@, now),
    {
        let now = unix_now();
        Self::is_session_expired_at(session, now)
    }

    /// Records `action` on the session at time `now`; an expired session is
    /// removed instead.
    pub fn update_session_activity_at(
        &mut self,
        now: i64,
        session_id: &str,
        action: &str,
        details: Option<String>,
    ) -> (r: Result<(), AuthError>)
        requires
            old(self).wf(),
        ensures
            final(self).wf(),
            activity_outcome(old(self).entries(), session_id@, now, action@, details, r, final(self).entries()),
            has_id(old(self).entries(), session_id@) && session_of(old(self).entries(), session_id@).revoked
                ==> (r matches Err(AuthError::SessionRevoked)) && final(self).entries() == old(self).entries(),
            r is Ok ==> has_id(final(self).entries(), session_id@) && session_of(final(self).entries(), session_id@).last_active == now
                && session_of(final(self).entries(), session_id@).created_at == session_of(old(self).entries(), session_id@).created_at
                && !session_of(old(self).entries(), session_id@).revoked,
    {
        let ghost es = self.entries();
        match self.find(session_id) {
            None => Err(AuthError::InvalidSession),
            Some(i) => {
                if self.sessions[i].1.revoked {
                    assert(self.entries()[i as int] == entry_view(self.sessions@[i as int]));
                    return Err(AuthError::SessionRevoked);
                }
                assert(self.entries()[i as int] == entry_view(self.sessions@[i as int]));
                if Self::is_session_expired_at(&self.sessions[i].1, now) {
                    self.sessions.remove(i);
                    proof {
                        assert(self.entries() =~= es.remove(i as int));
                        lemma_distinct_remove(es, i as int);
                        assert forall|u: i32| #[trigger] active_count(self.entries(), u)
                            <= MAX_SESSIONS_PER_USER by {
                            lemma_count_remove(es, i as int, u);
                            assert(active_count(es, u) <= MAX_SESSIONS_PER_USER);
                        }
                    }
                    return Err(AuthError::SessionExpired);
                }
                let (id, mut s) = self.sessions.remove(i);
                s.last_active = now;
                s.activities.push(SessionActivity { timestamp: now, action: owned(action), details });
                self.sessions.insert(i, (id, s));
                proof {
                    let nv = self.sessions@[i as int].1@;
                    assert(self.entries() =~= es.update(i as int, (session_id@, nv)));
                    lemma_distinct_update(es, i as int, nv);
                    assert forall|u: i32| #[trigger] active_count(self.entries(), u)
                        <= MAX_SESSIONS_PER_USER by {
                        lemma_count_update(es, i as int, (session_id@, nv), u);
                        assert(active_count(es, u) <= MAX_SESSIONS_PER_USER);
                    }
                    lemma_index_of_unique(self.entries(), i as int);
                    assert(nv.activities.drop_last() =~= es[i as int].1.activities);
                }
                Ok(())
            },
        }
    }

    /// Records `action` on the session now (see `update_session_activity_at`).
    pub fn update_session_activity(
        &mut self,
        session_id: &str,
        action: &str,
        details: Option<String>,
    ) -> (r: Result<(), AuthError>)
        requires
            old(self).wf(),
        ensures
            final(self).wf(),
            exists|now: i64|
                #[trigger] activity_outcome(
                    old(self).entries(),
                    session_id@,
                    now,
                    action@,
                    details,
                    r,
                    final(self).entries(),
                ) && -crate::tokens::TIMESTAMP_BOUND <= now <= crate::tokens::TIMESTAMP_BOUND,
    {
        let now = unix_now();
        self.update_session_activity_at(now, session_id, action, details)
    }

    /// The activities of the session with this id.
    pub fn get_session_activities(&self, session_id: &str) -> (r: Result<
        Vec<SessionActivity>,
        AuthError,
    >)
        requires
            ids_distinct(self.entries()),
        ensures
            has_id(self.entries(), session_id@) ==> (r matches Ok(v) && v@ == session_of(
                self.entries(),
                session_id@,
            ).activities),
            !has_id(self.entries(), session_id@) ==> (r matches Err(AuthError::InvalidSession)),
    {
        match self.find(session_id) {
            Some(i) => {
                assert(self.entries()[i as int] == entry_view(self.sessions@[i as int]));
                Ok(clone_activities(&self.sessions[i].1.activities))
            },
            None => Err(AuthError::InvalidSession),
        }
    }

    /// Removes the session with this id, if there is one.
    pub fn remove_session(&mut self, session_id: &str)
        requires
            old(self).wf(),
        ensures
            final(self).wf(),
            has_id(old(self).entries(), session_id@) ==> final(self).entries() == old(
                self,
            ).entries().remove(index_of(old(self).entries(), session_id@)),
            !has_id(old(self).entries(), session_id@) ==> final(self).entries() == old(
                self,
            ).entries(),
            !has_id(final(self).entries(), session_id@),
    {
        let ghost es = self.entries();
        match self.find(session_id) {
            Some(i) => {
                self.sessions.remove(i);
                proof {
                    assert(self.entries() =~= es.remove(i as int));
                    lemma_distinct_remove(es, i as int);
                    assert forall|u: i32| #[trigger] active_count(self.entries(), u)
                        <= MAX_SESSIONS_PER_USER by {
                        lemma_count_remove(es, i as int, u);
                        assert(active_count(es, u) <= MAX_SESSIONS_PER_USER);
                    }
                    if has_id(self.entries(), session_id@) {
                        let k = choose|k: int| 0 <= k < self.entries().len() && #[trigger] self.entries()[k].0 == session_id@;
                        let k2 = if k < i { k } else { k + 1 };
                        assert(self.entries()[k] == es[k2]);
                    }
                }
            },
            None => {},
        }
    }

    /// Marks the session with this id as revoked.
    pub fn revoke_session(&mut self, session_id: &str) -> (r: Result<(), AuthError>)
        requires
            old(self).wf(),
        ensures
            final(self).wf(),
            has_id(old(self).entries(), session_id@) ==> r is Ok && final(self).entries() == old(
                self,
            ).entries().update(
                index_of(old(self).entries(), session_id@),
                (
                    session_id@,
                    SessionView { revoked: true, ..session_of(old(self).entries(), session_id@) },
                ),
            ),
            !has_id(old(self).entries(), session_id@) ==> (r matches Err(AuthError::InvalidSession)
                && final(self).entries() == old(self).entries()),
    {
        let ghost es = self.entries();
        match self.find(session_id) {
            Some(i) => {
                assert(self.entries()[i as int] == entry_view(self.sessions@[i as int]));
                let (id, mut s) = self.sessions.remove(i);
                s.revoked = true;
                self.sessions.insert(i, (id, s));
                proof {
                    let nv = self.sessions@[i as int].1@;
                    assert(self.entries() =~= es.update(i as int, (session_id@, nv)));
                    lemma_distinct_update(es, i as int, nv);
                    assert forall|u: i32| #[trigger] active_count(self.entries(), u)
                        <= MAX_SESSIONS_PER_USER by {
                        lemma_count_update(es, i as int, (session_id@, nv), u);
                        assert(active_count(es, u) <= MAX_SESSIONS_PER_USER);
                    }
                }
                Ok(())
            },
            None => Err(AuthError::InvalidSession),
        }
    }

    /// Marks every session of `user_id` as revoked.
    pub fn revoke_all_sessions(&mut self, user_id: i32)
        requires
            old(self).wf(),
        ensures
            final(self).wf(),
            final(self).entries().len() == old(self).entries().len(),
            forall|k: int|
                0 <= k < old(self).entries().len() ==> #[trigger] final(self).entries()[k] == (
                    if old(self).entries()[k].1.user_id == user_id {
                        (
                            old(self).entries()[k].0,
                            SessionView { revoked: true, ..old(self).entries()[k].1 },
                        )
                    } else {
                        old(self).entries()[k]
                    }
                ),
            active_count(final(self).entries(), user_id) == 0,
    {
        let ghost es = self.entries();
        let n = self.sessions.len();
        let mut i: usize = 0;
        while i < n
            invariant
                i <= n,
                n == self.sessions@.len(),
                self.entries().len() == n,
                es.len() == n,
                ids_distinct(self.entries()),
                forall|u: i32| #[trigger] active_count(self.entries(), u) <= MAX_SESSIONS_PER_USER,
                forall|k: int|
                    0 <= k < i ==> #[trigger] self.entries()[k] == (if es[k].1.user_id == user_id {
                        (es[k].0, SessionView { revoked: true, ..es[k].1 })
                    } else {
                        es[k]
                    }),
                forall|k: int| i <= k < n ==> #[trigger] self.entries()[k] == es[k],
            decreases n - i,
        {
            let ghost cur = self.entries();
            assert(cur[i as int] == entry_view(self.sessions@[i as int]));
            if self.sessions[i].1.user_id == user_id {
                let (id, mut s) = self.sessions.remove(i);
                s.revoked = true;
                self.sessions.insert(i, (id, s));
                proof {
                    let nv = self.sessions@[i as int].1@;
                    assert(self.entries() =~= cur.update(i as int, (cur[i as int].0, nv)));
                    lemma_distinct_update(cur, i as int, nv);
                    assert forall|u: i32| #[trigger] active_count(self.entries(), u)
                        <= MAX_SESSIONS_PER_USER by {
                        lemma_count_update(cur, i as int, (cur[i as int].0, nv), u);
                        assert(active_count(cur, u) <= MAX_SESSIONS_PER_USER);
                    }
                }
            }
            i = i + 1;
        }
        proof {
            lemma_count_zero(self.entries(), user_id);
        }
    }

    /// Copies of all sessions of `user_id`, revoked ones included.
    pub fn get_user_sessions(&self, user_id: i32) -> (r: Vec<Session>)
        ensures
            r@.map_values(|s: Session| s@) == sessions_of_user(self.entries(), user_id),
    {
        let mut r: Vec<Session> = Vec::new();
        let n = self.sessions.len();
        let mut i: usize = 0;
        while i < n
            invariant
                i <= n,
                n == self.sessions@.len(),
                self.entries().len() == n,
                r@.map_values(|s: Session| s@) == sessions_of_user(
                    self.entries().take(i as int),
                    user_id,
                ),
            decreases n - i,
        {
            let ghost before = r@;
            proof {
                let t = self.entries().take(i + 1);
                assert(t.drop_last() =~= self.entries().take(i as int));
                assert(t.last() == entry_view(self.sessions@[i as int]));
            }
            if self.sessions[i].1.user_id == user_id {
                let c = self.sessions[i].1.duplicate();
                r.push(c);
                assert(r@.map_values(|s: Session| s@) =~= before.map_values(|s: Session| s@).push(
                    c@,
                ));
            }
            i = i + 1;
        }
        assert(self.entries().take(n as int) =~= self.entries());
        r
    }

    /// Removes every session that has expired at `now`.
    pub fn cleanup_expired_sessions_at(&mut self, now: i64)
        requires
            old(self).wf(),
        ensures
            final(self).wf(),
            final(self).entries() == unexpired(old(self).entries(), now),
    {
        let ghost es = self.entries();
        let mut old_sessions: Vec<(String, Session)> = Vec::new();
        std::mem::swap(&mut old_sessions, &mut self.sessions);
        assert(old_sessions@.map_values(|e: (String, Session)| entry_view(e)) == es);
        let n = old_sessions.len();
        let mut i: usize = 0;
        let mut kept: Vec<(String, Session)> = Vec::new();
        while i < n
            invariant
                i <= n,
                n == old_sessions@.len(),
                old_sessions@.map_values(|e: (String, Session)| entry_view(e)) == es,
                kept@.map_values(|e: (String, Session)| entry_view(e)) == unexpired(
                    es.take(i as int),
                    now,
                ),
            decreases n - i,
        {
            let ghost before = kept@;
            proof {
                let t = es.take(i + 1);
                assert(t.drop_last() =~= es.take(i as int));
                assert(t.last() == entry_view(old_sessions@[i as int]));
            }
            if !Self::is_session_expired_at(&old_sessions[i].1, now) {
                let e = (old_sessions[i].0.clone(), old_sessions[i].1.duplicate());
                kept.push(e);
                assert(kept@.map_values(|e: (String, Session)| entry_view(e)) =~= before.map_values(
                    |e: (String, Session)| entry_view(e),
                ).push(entry_view(old_sessions@[i as int])));
            }
            i = i + 1;
        }
        assert(es.take(n as int) =~= es);
        self.sessions = kept;
        proof {
            lemma_unexpired_distinct(es, now);
            assert forall|u: i32| #[trigger] active_count(self.entries(), u)
                <= MAX_SESSIONS_PER_USER by {
                lemma_count_unexpired(es, now, u);
                assert(active_count(es, u) <= MAX_SESSIONS_PER_USER);
            }
        }
    }

    /// Removes every session that has expired now.
    pub fn cleanup_expired_sessions(&mut self)
        requires
            old(self).wf(),
        ensures
            final(self).wf(),
            exists|now: i64| final(self).entries() == #[trigger] unexpired(old(self).entries(), now),
    {
        let now = unix_now();
        self.cleanup_expired_sessions_at(now);
    }

    /// Removes one session of `user_id` created at the earliest creation time of
    /// the user's active sessions.
    pub fn cleanup_oldest_session(&mut self, user_id: i32) -> (r: Result<(), AuthError>)
        requires
            old(self).wf(),
        ensures
            final(self).wf(),
            active_count(old(self).entries(), user_id) == 0 ==> (r matches Err(
                AuthError::NoSessionsToCleanup,
            ) && final(self).entries() == old(self).entries()),
            active_count(old(self).entries(), user_id) > 0 ==> r is Ok && exists|k: int|
                0 <= k < old(self).entries().len() && old(self).entries()[k].1.user_id == user_id
                    && old(self).entries()[k].1.created_at == oldest_active_created_at(
                    old(self).entries(),
                    user_id,
                ) && final(self).entries() == #[trigger] old(self).entries().remove(k),
    {
        let ghost es = self.entries();
        let n = self.sessions.len();
        // the earliest creation time among the active sessions
        let mut oldest: i64 = i64::MAX;
        let mut found = false;
        let mut i: usize = 0;
        while i < n
            invariant
                i <= n,
                n == self.sessions@.len(),
                es == self.entries(),
                es.len() == n,
                oldest == oldest_active_created_at(es.take(i as int), user_id),
                found == (active_count(es.take(i as int), user_id) > 0),
            decreases n - i,
        {
            proof {
                let t = es.take(i + 1);
                assert(t.drop_last() =~= es.take(i as int));
                assert(t.last() == entry_view(self.sessions@[i as int]));
            }
            let s = &self.sessions[i].1;
            if s.user_id == user_id && !s.revoked {
                found = true;
                if s.created_at < oldest {
                    oldest = s.created_at;
                }
            }
            i = i + 1;
        }
        assert(es.take(n as int) =~= es);
        if !found {
            return Err(AuthError::NoSessionsToCleanup);
        }
        proof {
            lemma_oldest_attained(es, user_id);
        }
        // the first session of the user created at that time
        let mut j: usize = 0;
        while j < n
            invariant
                j <= n,
                n == self.sessions@.len(),
                es == self.entries(),
                es.len() == n,
                oldest == oldest_active_created_at(es, user_id),
                es == old(self).entries(),
                active_count(es, user_id) > 0,
                ids_distinct(es),
                forall|u: i32| #[trigger] active_count(es, u) <= MAX_SESSIONS_PER_USER,
                exists|k: int|
                    j <= k < n && es[k].1.user_id == user_id && #[trigger] es[k].1.created_at
                        == oldest,
            decreases n - j,
        {
            assert(es[j as int] == entry_view(self.sessions@[j as int]));
            if self.sessions[j].1.user_id == user_id && self.sessions[j].1.created_at == oldest {
                self.sessions.remove(j);
                proof {
                    assert(self.entries() =~= es.remove(j as int));
                    lemma_distinct_remove(es, j as int);
                    assert forall|u: i32| #[trigger] active_count(self.entries(), u)
                        <= MAX_SESSIONS_PER_USER by {
                        lemma_count_remove(es, j as int, u);
                        assert(active_count(es, u) <= MAX_SESSIONS_PER_USER);
                    }
                    assert(self.entries() == es.remove(j as int));
                }
                return Ok(());
            }
            j = j + 1;
        }
        Err(AuthError::NoSessionsToCleanup)
    }

    /// The device class, browser and operating system that a user agent names.
    pub fn parse_user_agent(&self, user_agent: &str) -> (r: (String, String, String))
        ensures
            r.0@ == device_type_of(user_agent@),
            r.1@ == browser_of(user_agent@),
            r.2@ == os_of(user_agent@),
    {
        let device_type = if contains(user_agent, "Mobile") {
            "Mobile"
        } else if contains(user_agent, "Tablet") {
            "Tablet"
        } else {
            "Desktop"
        };
        let browser = if contains(user_agent, "Chrome") {
            "Chrome"
        } else if contains(user_agent, "Firefox") {
            "Firefox"
        } else if contains(user_agent, "Safari") {
            "Safari"
        } else {
            "Unknown"
        };
        let os = if contains(user_agent, "Windows") {
            "Windows"
        } else if contains(user_agent, "Mac") {
            "macOS"
        } else if contains(user_agent, "Linux") {
            "Linux"
        } else if contains(user_agent, "Android") {
            "Android"
        } else if contains(user_agent, "iOS") {
            "iOS"
        } else {
            "Unknown"
        };
        (owned(device_type), owned(browser), owned(os))
    }

    /// The fingerprint of a client from its `User-Agent` header and remote
    /// address, `unknown` standing for a missing one.
    pub fn create_session_fingerprint(&self, user_agent: Option<&str>, remote_addr: Option<&str>) -> (f:
        SessionFingerprint)
        ensures
            f.user_agent@ == (match user_agent {
                Some(u) => u@,
                None => "unknown"@,
            }),
            f.ip_address@ == (match remote_addr {
                Some(a) => a@,
                None => "unknown"@,
            }),
            f.device_type@ == device_type_of(f.user_agent@),
            f.browser@ == browser_of(f.user_agent@),
            f.os@ == os_of(f.user_agent@),
            f.screen_resolution is None,
            f.timezone@ == "UTC"@,
    {
        let ua = match user_agent {
            Some(u) => owned(u),
            None => owned("unknown"),
        };
        let ip = match remote_addr {
            Some(a) => owned(a),
            None => owned("unknown"),
        };
        let (device_type, browser, os) = self.parse_user_agent(ua.as_str());
        SessionFingerprint {
            user_agent: ua,
            ip_address: ip,
            device_type,
            browser,
            os,
            screen_resolution: None,
            timezone: owned("UTC"),
        }
    }

    /// Whether the new fingerprint's client differs from the session's.
    pub fn check_suspicious_activity(&self, session: &Session, new_fingerprint: &SessionFingerprint) -> (b:
        bool)
        ensures
            b == suspicious(session.fingerprint, *new_fingerprint),
            session.fingerprint.device_type@ != new_fingerprint.device_type@ ==> b,
            session.fingerprint.browser@ != new_fingerprint.browser@ ==> b,
            session.fingerprint.os@ != new_fingerprint.os@ ==> b,
            session.fingerprint.ip_address@ != new_fingerprint.ip_address@ ==> b,
            session.fingerprint.device_type@ == new_fingerprint.device_type@
                && session.fingerprint.browser@ == new_fingerprint.browser@
                && session.fingerprint.os@ == new_fingerprint.os@
                && session.fingerprint.ip_address@ == new_fingerprint.ip_address@ ==> !b,
    {
        if !(session.fingerprint.device_type == new_fingerprint.device_type) {
            return true;
        }
        if !(session.fingerprint.browser == new_fingerprint.browser) {
            return true;
        }
        if !(session.fingerprint.os == new_fingerprint.os) {
            return true;
        }
        if !(session.fingerprint.ip_address == new_fingerprint.ip_address) {
            return true;
        }
        false
    }

    /// Appends a notification to the session with this id.
    pub fn add_notification(&mut self, session_id: &str, notification: SessionNotification) -> (r:
        Result<(), AuthError>)
        requires
            old(self).wf(),
        ensures
            final(self).wf(),
            has_id(old(self).entries(), session_id@) ==> r is Ok && final(self).entries() == old(
                self,
            ).entries().update(
                index_of(old(self).entries(), session_id@),
                (
                    session_id@,
                    SessionView {
                        notifications: session_of(
                            old(self).entries(),
                            session_id@,
                        ).notifications.push(notification),
                        ..session_of(old(self).entries(), session_id@)
                    },
                ),
            ),
            !has_id(old(self).entries(), session_id@) ==> (r matches Err(AuthError::InvalidSession)
                && final(self).entries() == old(self).entries()),
    {
        let ghost es = self.entries();
        match self.find(session_id) {
            Some(i) => {
                assert(self.entries()[i as int] == entry_view(self.sessions@[i as int]));
                let (id, mut s) = self.sessions.remove(i);
                s.notifications.push(notification);
                self.sessions.insert(i, (id, s));
                proof {
                    let nv = self.sessions@[i as int].1@;
                    assert(self.entries() =~= es.update(i as int, (session_id@, nv)));
                    lemma_distinct_update(es, i as int, nv);
                    assert forall|u: i32| #[trigger] active_count(self.entries(), u)
                        <= MAX_SESSIONS_PER_USER by {
                        lemma_count_update(es, i as int, (session_id@, nv), u);
                        assert(active_count(es, u) <= MAX_SESSIONS_PER_USER);
                    }
                }
                Ok(())
            },
            None => Err(AuthError::InvalidSession),
        }
    }

    /// The notifications of the session with this id.
    pub fn get_notifications(&self, session_id: &str) -> (r: Result<
        Vec<SessionNotification>,
        AuthError,
    >)
        requires
            ids_distinct(self.entries()),
        ensures
            has_id(self.entries(), session_id@) ==> (r matches Ok(v) && v@ == session_of(
                self.entries(),
                session_id@,
            ).notifications),
            !has_id(self.entries(), session_id@) ==> (r matches Err(AuthError::InvalidSession)),
    {
        match self.find(session_id) {
            Some(i) => {
                assert(self.entries()[i as int] == entry_view(self.sessions@[i as int]));
                Ok(clone_notifications(&self.sessions[i].1.notifications))
            },
            None => Err(AuthError::InvalidSession),
        }
    }

    /// Empties the notifications of the session with this id.
    pub fn clear_notifications(&mut self, session_id: &str) -> (r: Result<(), AuthError>)
        requires
            old(self).wf(),
        ensures
            final(self).wf(),
            has_id(old(self).entries(), session_id@) ==> r is Ok && final(self).entries() == old(
                self,
            ).entries().update(
                index_of(old(self).entries(), session_id@),
                (
                    session_id@,
                    SessionView {
                        notifications: Seq::empty(),
                        ..session_of(old(self).entries(), session_id@)
                    },
                ),
            ),
            !has_id(old(self).entries(), session_id@) ==> (r matches Err(AuthError::InvalidSession)
                && final(self).entries() == old(self).entries()),
    {
        let ghost es = self.entries();
        match self.find(session_id) {
            Some(i) => {
                assert(self.entries()[i as int] == entry_view(self.sessions@[i as int]));
                let (id, mut s) = self.sessions.remove(i);
                s.notifications.clear();
                self.sessions.insert(i, (id, s));
                proof {
                    let nv = self.sessions@[i as int].1@;
                    assert(nv.notifications =~= Seq::<SessionNotification>::empty());
                    assert(self.entries() =~= es.update(i as int, (session_id@, nv)));
                    lemma_distinct_update(es, i as int, nv);
                    assert forall|u: i32| #[trigger] active_count(self.entries(), u)
                        <= MAX_SESSIONS_PER_USER by {
                        lemma_count_update(es, i as int, (session_id@, nv), u);
                        assert(active_count(es, u) <= MAX_SESSIONS_PER_USER);
                    }
                }
                Ok(())
            },
            None => Err(AuthError::InvalidSession),
        }
    }
}

/// Recording activity keeps a session alive: once activity on session `id`
/// was recorded at `t`, the session is stored, and at any `now` no more than
/// the inactivity window after `t` and no more than a day after the session
/// was created it has not expired (idleness counts from the last activity,
/// not from creation).
pub proof fn lemma_recorded_activity_keeps_session(
    es: Seq<SessionEntry>,
    id: Seq<char>,
    t: i64,
    action: Seq<char>,
    details: Option<String>,
    r: Result<(), AuthError>,
    new_es: Seq<SessionEntry>,
    now: i64,
)
    requires
        activity_outcome(es, id, t, action, details, r, new_es),
        r is Ok,
        now - t <= SESSION_INACTIVITY_SECONDS,
        now - session_of(es, id).created_at <= SESSION_EXPIRY_SECONDS,
    ensures
        has_id(new_es, id),
        session_of(new_es, id).last_active == t,
        session_of(new_es, id).created_at == session_of(es, id).created_at,
        !expired_at(session_of(new_es, id), now),
{
}

/// A session expires a day after it was created, or half an hour after its
/// last activity, whichever comes first; before both it is alive.
pub proof fn lemma_expiry_windows(s: SessionView, now: i64)
    ensures
        now - s.created_at > 86400 ==> expired_at(s, now),
        now - s.last_active > 1800 ==> expired_at(s, now),
        now - s.created_at <= 86400 && now - s.last_active <= 1800 ==> !expired_at(s, now),
{
}

/// A revoked session never accepts activity: recording on it is refused as
/// revoked and the store is left as it was.
pub proof fn lemma_revoked_session_refuses_activity(
    es: Seq<SessionEntry>,
    id: Seq<char>,
    now: i64,
    action: Seq<char>,
    details: Option<String>,
    r: Result<(), AuthError>,
    new_es: Seq<SessionEntry>,
)
    requires
        activity_outcome(es, id, now, action, details, r, new_es),
        has_id(es, id),
        session_of(es, id).revoked,
    ensures
        r matches Err(AuthError::SessionRevoked),
        new_es == es,
{
}

/// Activity is recorded only on a stored session that is not revoked and
/// has not expired at the time of recording.
pub proof fn lemma_recorded_only_on_live_sessions(
    es: Seq<SessionEntry>,
    id: Seq<char>,
    now: i64,
    action: Seq<char>,
    details: Option<String>,
    r: Result<(), AuthError>,
    new_es: Seq<SessionEntry>,
)
    requires
        activity_outcome(es, id, now, action, details, r, new_es),
        r is Ok,
    ensures
        has_id(es, id),
        !session_of(es, id).revoked,
        now - session_of(es, id).created_at <= 86400,
        now - session_of(es, id).last_active <= 1800,
{
}

/// Each part of the fingerprint counts on its own: a change of device class,
/// of browser, of operating system or of client address alone makes the
/// activity suspicious, and only a fingerprint equal in all four is not.
pub proof fn lemma_fingerprint_fields_each_suspicious(a: SessionFingerprint, b: SessionFingerprint)
    ensures
        a.device_type@ != b.device_type@ ==> suspicious(a, b),
        a.browser@ != b.browser@ ==> suspicious(a, b),
        a.os@ != b.os@ ==> suspicious(a, b),
        a.ip_address@ != b.ip_address@ ==> suspicious(a, b),
        a.device_type@ == b.device_type@ && a.browser@ == b.browser@ && a.os@ == b.os@
            && a.ip_address@ == b.ip_address@ ==> !suspicious(a, b),
{
}

/// Cleaning up at `now` keeps exactly the sessions alive at `now`: every
/// stored session that has not expired stays, and none that has expired does.
pub proof fn lemma_cleanup_keeps_live_sessions(es: Seq<SessionEntry>, now: i64, i: int)
    requires
        0 <= i < es.len(),
    ensures
        !expired_at(es[i].1, now) ==> unexpired(es, now).contains(es[i]),
        expired_at(es[i].1, now) ==> !unexpired(es, now).contains(es[i]),
    decreases es.len(),
{
    lemma_unexpired_all_live(es, now);
    let u = unexpired(es, now);
    if i < es.len() - 1 {
        let d = es.drop_last();
        assert(d[i] == es[i]);
        lemma_cleanup_keeps_live_sessions(d, now, i);
        if !expired_at(es[i].1, now) {
            let k = choose|k: int| 0 <= k < unexpired(d, now).len() && unexpired(d, now)[k] == es[i];
            assert(u[k] == es[i]);
        }
    } else if !expired_at(es[i].1, now) {
        assert(u[u.len() - 1] == es[i]);
    }
}

/// Every session that cleaning up at `now` keeps is alive at `now`.
proof fn lemma_unexpired_all_live(es: Seq<SessionEntry>, now: i64)
    ensures
        forall|k: int| 0 <= k < unexpired(es, now).len() ==> !expired_at(#[trigger] unexpired(es, now)[k].1, now),
    decreases es.len(),
{
    if es.len() > 0 {
        let d = es.drop_last();
        lemma_unexpired_all_live(d, now);
        let r = unexpired(d, now);
        assert forall|k: int| 0 <= k < unexpired(es, now).len() implies !expired_at(
            #[trigger] unexpired(es, now)[k].1,
            now,
        ) by {
            if k < r.len() {
                assert(unexpired(es, now)[k] == r[k]);
            }
        }
    }
}

/// After a session is revoked (its entry marked revoked, as `revoke_session`
/// leaves the store), recording activity on it is refused as revoked and the
/// store stays as the revocation left it.
pub proof fn lemma_revoke_then_activity_refused(
    es: Seq<SessionEntry>,
    id: Seq<char>,
    now: i64,
    action: Seq<char>,
    details: Option<String>,
    r: Result<(), AuthError>,
    new_es: Seq<SessionEntry>,
)
    requires
        ids_distinct(es),
        has_id(es, id),
        activity_outcome(
            es.update(index_of(es, id), (id, SessionView { revoked: true, ..session_of(es, id) })),
            id,
            now,
            action,
            details,
            r,
            new_es,
        ),
    ensures
        r matches Err(AuthError::SessionRevoked),
        new_es == es.update(index_of(es, id), (id, SessionView { revoked: true, ..session_of(es, id) })),
{
    let i = index_of(es, id);
    let es2 = es.update(i, (id, SessionView { revoked: true, ..session_of(es, id) }));
    lemma_distinct_update(es, i, SessionView { revoked: true, ..session_of(es, id) });
    assert(es2[i].0 == es[i].0);
    lemma_index_of_unique(es2, i);
}

} // verus!
