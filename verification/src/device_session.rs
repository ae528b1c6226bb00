//! Device sessions: a session is made when a device connects, carries the
//! permission tier that the outcome of authentication gave it, and is swept
//! away once it has been idle for longer than the tier allows.

use vstd::prelude::*;
use crate::auth::{permitted, AuthManager, Claims, User};
use crate::enterprise_database::{opt_view, AuditLog, AuditLogView};
use crate::keyed::{viewed, KeyedList};
use crate::text::{lemma_pushed_holds, views_of};

verus! {

/// The capabilities of a session and the idle time, in seconds, after which
/// it expires (`None`: never).
#[derive(Debug, Clone, Copy, PartialEq, Eq, Structural)]
pub struct DevicePermissions {
    pub can_control: bool,
    pub can_transfer_files: bool,
    pub can_view_screen: bool,
    pub can_use_audio: bool,
    pub can_use_clipboard: bool,
    pub session_timeout: Option<u64>,
}

/// An anonymous session expires after one idle hour.
pub const ANONYMOUS_TIMEOUT_SECS: u64 = 3600;

/// An authenticated session expires after eight idle hours.
pub const AUTHENTICATED_TIMEOUT_SECS: u64 = 28800;

/// How often the sweep runs, in seconds.
pub const SWEEP_INTERVAL_SECS: u64 = 60;

/// The tier of an anonymous device: no capability, and the short timeout.
pub open spec fn restricted_tier() -> DevicePermissions {
    DevicePermissions {
        can_control: false,
        can_transfer_files: false,
        can_view_screen: false,
        can_use_audio: false,
        can_use_clipboard: false,
        session_timeout: Some(ANONYMOUS_TIMEOUT_SECS),
    }
}

/// The tier of an authenticated device: every capability, and the long
/// timeout.
pub open spec fn full_tier() -> DevicePermissions {
    DevicePermissions {
        can_control: true,
        can_transfer_files: true,
        can_view_screen: true,
        can_use_audio: true,
        can_use_clipboard: true,
        session_timeout: Some(AUTHENTICATED_TIMEOUT_SECS),
    }
}

/// The tier that a session gets at its creation.
pub open spec fn tier_for(authenticated: bool) -> DevicePermissions {
    if authenticated {
        full_tier()
    } else {
        restricted_tier()
    }
}

impl Default for DevicePermissions {
    fn default() -> (p: Self)
        ensures
            p == restricted_tier(),
    {
        DevicePermissions {
            can_control: false,
            can_transfer_files: false,
            can_view_screen: false,
            can_use_audio: false,
            can_use_clipboard: false,
            session_timeout: Some(ANONYMOUS_TIMEOUT_SECS),
        }
    }
}

impl DevicePermissions {
    /// The tier that a session gets at its creation.
    pub fn for_session(authenticated: bool) -> (p: Self)
        ensures
            p == tier_for(authenticated),
    {
        if authenticated {
            DevicePermissions {
                can_control: true,
                can_transfer_files: true,
                can_view_screen: true,
                can_use_audio: true,
                can_use_clipboard: true,
                session_timeout: Some(AUTHENTICATED_TIMEOUT_SECS),
            }
        } else {
            DevicePermissions::default()
        }
    }
}

/// The session of one connected device. `last_activity` is a reading of the
/// clock that the sweep is run against, in seconds.
#[derive(Debug, PartialEq, Eq)]
pub struct DeviceSession {
    pub device_id: String,
    /// The user behind the device; `None` for an anonymous device.
    pub user_id: Option<String>,
    pub authenticated: bool,
    pub last_activity: u64,
    pub permissions: DevicePermissions,
    pub connection_count: u32,
}

/// What a `DeviceSession` holds.
pub ghost struct DeviceSessionView {
    pub device_id: Seq<char>,
    pub user_id: Option<Seq<char>>,
    pub authenticated: bool,
    pub last_activity: u64,
    pub permissions: DevicePermissions,
    pub connection_count: u32,
}

impl View for DeviceSession {
    type V = DeviceSessionView;

    open spec fn view(&self) -> DeviceSessionView {
        DeviceSessionView {
            device_id: self.device_id@,
            user_id: opt_view(self.user_id),
            authenticated: self.authenticated,
            last_activity: self.last_activity,
            permissions: self.permissions,
            connection_count: self.connection_count,
        }
    }
}

impl Clone for DeviceSession {
    fn clone(&self) -> (r: Self)
        ensures
            r@ == self@,
    {
        DeviceSession {
            device_id: self.device_id.clone(),
            user_id: match &self.user_id {
                Some(u) => Some(u.clone()),
                None => None,
            },
            authenticated: self.authenticated,
            last_activity: self.last_activity,
            permissions: self.permissions,
            connection_count: self.connection_count,
        }
    }
}

/// The session that is made for a device at time `now`.
pub open spec fn new_session(device_id: Seq<char>, user_id: Option<Seq<char>>, now: u64) -> DeviceSessionView {
    DeviceSessionView {
        device_id,
        user_id,
        authenticated: user_id is Some,
        last_activity: now,
        permissions: tier_for(user_id is Some),
        connection_count: 1,
    }
}

/// Whether a session has expired at time `now`: it has a timeout, and has
/// been idle for longer than that. A clock reading before the last activity
/// counts as no idle time.
pub open spec fn expired(last_activity: u64, timeout: Option<u64>, now: u64) -> bool {
    match timeout {
        Some(t) => now > last_activity && now - last_activity > t,
        None => false,
    }
}

/// Whether a session has expired at time `now`.
pub open spec fn session_expired(s: DeviceSessionView, now: u64) -> bool {
    expired(s.last_activity, s.permissions.session_timeout, now)
}

/// The sessions that a sweep at time `now` leaves.
pub open spec fn swept(sessions: Map<Seq<char>, DeviceSessionView>, now: u64) -> Map<
    Seq<char>,
    DeviceSessionView,
> {
    Map::new(
        |id: Seq<char>| sessions.dom().contains(id) && !session_expired(sessions[id], now),
        |id: Seq<char>| sessions[id],
    )
}

/// The line of the audit trail that records the connection of a device
/// whose user is known.
pub open spec fn connect_audit(device_id: Seq<char>, user_id: Seq<char>, now: u64) -> AuditLogView {
    AuditLogView {
        id: 0,
        user_id,
        device_id,
        action: "device_connect"@,
        details: Some("设备连接"@),
        ip_address: "0.0.0.0"@,
        user_agent: None,
        timestamp: now,
        success: true,
    }
}

/// The user that a device is authenticated as. Without a credential, with
/// one that did not verify, without an account for the credential's user,
/// or where that account may not access the device, the device is
/// anonymous.
pub open spec fn authenticated_user(
    claims: Option<Claims>,
    user: Option<User>,
) -> Option<Seq<char>> {
    match (claims, user) {
        (Some(c), Some(u)) => if permitted(u.role, "access"@) {
            Some(c.sub@)
        } else {
            None
        },
        _ => None,
    }
}

/// Decides whom a connecting device is authenticated as, from the claims of
/// its credential where it presented one that verified, and from the
/// account that the storage service holds for the claims' user name.
pub fn authenticate_device(
    auth: &AuthManager,
    device_id: &str,
    claims: Option<&Claims>,
    user: Option<&User>,
) -> (r: Option<String>)
    ensures
        opt_view(r) == authenticated_user(
            match claims {
                Some(c) => Some(*c),
                None => None,
            },
            match user {
                Some(u) => Some(*u),
                None => None,
            },
        ),
{
    match claims {
        Some(c) => match user {
            Some(u) => if auth.check_permission(u, device_id, "access") {
                Some(c.sub.clone())
            } else {
                None
            },
            None => None,
        },
        None => None,
    }
}

/// The sessions of the connected devices, one for each device identifier.
pub struct DeviceSessions {
    sessions: KeyedList<DeviceSession>,
}

impl View for DeviceSessions {
    type V = Map<Seq<char>, DeviceSessionView>;

    closed spec fn view(&self) -> Map<Seq<char>, DeviceSessionView> {
        viewed(self.sessions@)
    }
}

impl DeviceSessions {
    /// No device has two sessions.
    pub closed spec fn wf(&self) -> bool {
        self.sessions.wf()
    }

    /// No sessions.
    pub fn new() -> (s: Self)
        ensures
            s.wf(),
            s@ == Map::<Seq<char>, DeviceSessionView>::empty(),
    {
        let s = DeviceSessions { sessions: KeyedList::new() };
        assert(s@ =~= Map::<Seq<char>, DeviceSessionView>::empty());
        s
    }

    /// The number of sessions.
    pub fn len(&self) -> (n: usize)
        requires
            self.wf(),
        ensures
            n == self@.dom().len(),
            self@.dom().finite(),
    {
        proof {
            self.sessions.lemma_count();
            assert(self@.dom() =~= self.sessions@.dom());
        }
        self.sessions.len()
    }

    /// The session of a device, if it has one.
    pub fn get(&self, device_id: &str) -> (r: Option<DeviceSession>)
        requires
            self.wf(),
        ensures
            match r {
                Some(s) => self@.dom().contains(device_id@) && self@[device_id@] == s@,
                None => !self@.dom().contains(device_id@),
            },
    {
        match self.sessions.get(device_id) {
            Some(s) => Some(s.clone()),
            None => None,
        }
    }

    /// Makes the session of a device that connected at time `now`, in place
    /// of any session the device had. The tier is fixed here: full where a
    /// user is known, restricted where the device is anonymous. Returns the
    /// line for the audit trail, which is due only where a user is known.
    pub fn create_session(&mut self, device_id: String, user_id: Option<String>, now: u64) -> (audit:
        Option<AuditLog>)
        requires
            old(self).wf(),
        ensures
            final(self).wf(),
            final(self)@ == old(self)@.insert(
                device_id@,
                new_session(device_id@, opt_view(user_id), now),
            ),
            match audit {
                Some(a) => user_id is Some && a@ == connect_audit(device_id@, user_id->0@, now),
                None => user_id is None,
            },
    {
        let audit = match &user_id {
            Some(u) => Some(
                AuditLog {
                    id: 0,
                    user_id: u.clone(),
                    device_id: device_id.clone(),
                    action: "device_connect".to_string(),
                    details: Some("设备连接".to_string()),
                    ip_address: "0.0.0.0".to_string(),
                    user_agent: None,
                    timestamp: now,
                    success: true,
                },
            ),
            None => None,
        };
        let authenticated = user_id.is_some();
        let session = DeviceSession {
            device_id: device_id.clone(),
            user_id,
            authenticated,
            last_activity: now,
            permissions: DevicePermissions::for_session(authenticated),
            connection_count: 1,
        };
        self.sessions.put(device_id, session);
        assert(self@ =~= old(self)@.insert(device_id@, session@));
        audit
    }

    /// Notes at time `now` that a device is active. Returns whether the
    /// device has a session.
    pub fn touch(&mut self, device_id: &str, now: u64) -> (known: bool)
        requires
            old(self).wf(),
        ensures
            final(self).wf(),
            known == old(self)@.dom().contains(device_id@),
            known ==> final(self)@ == old(self)@.insert(
                device_id@,
                DeviceSessionView { last_activity: now, ..old(self)@[device_id@] },
            ),
            !known ==> final(self)@ == old(self)@,
    {
        match self.sessions.position(device_id) {
            Some(i) => {
                let mut session = self.sessions.value_at(i).clone();
                session.last_activity = now;
                self.sessions.set_at(i, session);
                assert(self@ =~= old(self)@.insert(device_id@, session@));
                true
            },
            None => false,
        }
    }

    /// Removes every session that has expired at time `now`, and returns
    /// the devices whose sessions were removed.
    pub fn sweep(&mut self, now: u64) -> (removed: Vec<String>)
        requires
            old(self).wf(),
        ensures
            final(self).wf(),
            final(self)@ == swept(old(self)@, now),
            forall|id: Seq<char>|
                views_of(removed@).contains(id) <==> old(self)@.dom().contains(id)
                    && session_expired(old(self)@[id], now),
    {
        let ghost all = self.sessions@;
        let mut removed: Vec<String> = Vec::new();
        let mut i: usize = 0;
        while i < self.sessions.len()
            invariant
                self.sessions.wf(),
                all == old(self).sessions@,
                i <= self.sessions.key_seq().len(),
                forall|k: Seq<char>| #[trigger]
                    self.sessions@.dom().contains(k) ==> all.dom().contains(k)
                        && self.sessions@[k] == all[k],
                forall|k: Seq<char>|
                    all.dom().contains(k) && !session_expired(all[k]@, now)
                        ==> #[trigger] self.sessions@.dom().contains(k),
                forall|j: int|
                    0 <= j < i ==> !session_expired((#[trigger] self.sessions.value_seq()[j])@, now),
                forall|k: Seq<char>|
                    views_of(removed@).contains(k) <==> all.dom().contains(k) && session_expired(
                        all[k]@,
                        now,
                    ) && !self.sessions@.dom().contains(k),
            decreases self.sessions.key_seq().len() - i,
        {
            proof {
                self.sessions.lemma_places();
            }
            let s = self.sessions.value_at(i);
            let gone = match s.permissions.session_timeout {
                Some(t) => now > s.last_activity && now - s.last_activity > t,
                None => false,
            };
            if gone {
                let ghost before = views_of(removed@);
                let ghost key = self.sessions.key_seq()[i as int];
                removed.push(self.sessions.key_at(i).to_owned());
                self.sessions.remove_at(i);
                proof {
                    assert(views_of(removed@) =~= before.push(key));
                    lemma_pushed_holds(before, key);
                }
            } else {
                i += 1;
            }
            proof {
                self.sessions.lemma_places();
            }
        }
        proof {
            self.sessions.lemma_places();
            assert forall|k: Seq<char>| #[trigger]
                self.sessions@.dom().contains(k) implies !session_expired(all[k]@, now) by {
                let j = choose|j: int|
                    0 <= j < self.sessions.key_seq().len() && self.sessions.key_seq()[j] == k;
                assert(self.sessions.value_seq()[j] == self.sessions@[k]);
            }
            assert(self@ =~= swept(old(self)@, now));
        }
        removed
    }

    /// Ends the session of a device. Returns whether it had one.
    pub fn terminate(&mut self, device_id: &str) -> (known: bool)
        requires
            old(self).wf(),
        ensures
            final(self).wf(),
            known == old(self)@.dom().contains(device_id@),
            final(self)@ == old(self)@.remove(device_id@),
    {
        let known = self.sessions.remove(device_id).is_some();
        assert(self@ =~= old(self)@.remove(device_id@));
        known
    }
}

/// A session is still there when a sweep runs no later than its timeout
/// after the last activity, and is gone when the sweep runs later than that.
pub proof fn lemma_expiry_is_monotonic(
    sessions: Map<Seq<char>, DeviceSessionView>,
    id: Seq<char>,
    timeout: u64,
    now: u64,
)
    requires
        sessions.dom().contains(id),
        sessions[id].permissions.session_timeout == Some(timeout),
    ensures
        now <= sessions[id].last_activity + timeout ==> swept(sessions, now).dom().contains(id)
            && swept(sessions, now)[id] == sessions[id],
        now > sessions[id].last_activity + timeout ==> !swept(sessions, now).dom().contains(id),
{
}

} // verus!
