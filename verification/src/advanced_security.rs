//! One-time codes, the audit of security events and the policies that act
//! on them, the count of failed logins, end-to-end sessions, and digests of
//! data. Times are in seconds since the Unix epoch, durations in seconds.

use vstd::prelude::*;
use vstd::string::*;
use crate::auth::{secret_alphabet, SECRET_LEN};
use crate::boundary::{
    base64_decode, base64_decoded, base64_encode, base64_encoded, box_keypair, box_precompute,
    box_shared_key, ed25519_sign, ed25519_signed, ed25519_verified, ed25519_verify, new_uuid_v4,
    qr_png, qr_png_of, random_below, secretbox_nonce, secretbox_open, secretbox_opened,
    secretbox_seal, secretbox_sealed, sha512, sha512_of, totp_code, totp_generate, unix_time_now,
};
use crate::keyed::{viewed, KeyedList};
use crate::text::{bytes_eq, decimal_of, decimal_string, str_eq, view_opt_bytes, views_of};

verus! {

/// What storage keeps of a user's second factor.
#[derive(Debug, Clone, PartialEq, Eq)]
pub struct TwoFactorAuth {
    pub user_id: String,
    pub secret: String,
    pub backup_codes: Vec<String>,
    pub enabled: bool,
    pub created_at: u64,
    pub last_used: Option<u64>,
}

/// How a user's one-time codes are computed.
#[derive(Debug, PartialEq, Eq)]
pub struct TotpConfig {
    pub issuer: String,
    pub account_name: String,
    pub secret: String,
    /// SHA1, SHA256 or SHA512.
    pub algorithm: String,
    /// 6 or 8.
    pub digits: u32,
    /// In seconds.
    pub period: u32,
}

impl Clone for TotpConfig {
    fn clone(&self) -> (r: Self)
        ensures
            r == *self,
    {
        TotpConfig {
            issuer: self.issuer.clone(),
            account_name: self.account_name.clone(),
            secret: self.secret.clone(),
            algorithm: self.algorithm.clone(),
            digits: self.digits,
            period: self.period,
        }
    }
}

/// One side of an end-to-end session: its own key pair (public key, secret
/// key), and, once the handshake is done, the other side's public key and
/// the key that both sides share.
#[derive(Debug, PartialEq, Eq)]
pub struct E2EEncryption {
    pub session_id: String,
    pub local_keypair: (Vec<u8>, Vec<u8>),
    pub remote_public_key: Option<Vec<u8>>,
    pub shared_secret: Option<Vec<u8>>,
    pub nonce_counter: u64,
}

impl Clone for E2EEncryption {
    fn clone(&self) -> (r: Self)
        ensures
            r.session_id == self.session_id,
            r.local_keypair.0@ == self.local_keypair.0@,
            r.local_keypair.1@ == self.local_keypair.1@,
            view_opt_bytes(r.remote_public_key)
                == view_opt_bytes(self.remote_public_key),
            view_opt_bytes(r.shared_secret)
                == view_opt_bytes(self.shared_secret),
            r.nonce_counter == self.nonce_counter,
    {
        E2EEncryption {
            session_id: self.session_id.clone(),
            local_keypair: (self.local_keypair.0.clone(), self.local_keypair.1.clone()),
            remote_public_key: match &self.remote_public_key {
                Some(k) => Some(k.clone()),
                None => None,
            },
            shared_secret: match &self.shared_secret {
                Some(k) => Some(k.clone()),
                None => None,
            },
            nonce_counter: self.nonce_counter,
        }
    }
}

/// A sealed message. Nonce, ciphertext and signature are in base64.
#[derive(Debug, Clone, PartialEq, Eq)]
pub struct EncryptedMessage {
    pub session_id: String,
    pub nonce: String,
    pub ciphertext: String,
    pub signature: String,
    pub timestamp: u64,
}

/// Something that happened and bears on security.
#[derive(Debug, Clone, PartialEq, Eq)]
pub struct SecurityEvent {
    pub id: String,
    pub event_type: SecurityEventType,
    pub severity: SecuritySeverity,
    pub user_id: Option<String>,
    pub device_id: Option<String>,
    pub ip_address: String,
    pub user_agent: Option<String>,
    pub details: Vec<(String, String)>,
    pub timestamp: u64,
    pub resolved: bool,
    pub resolution_notes: Option<String>,
}

/// The kinds of security events.
#[derive(Debug, Clone, Copy, PartialEq, Eq, Structural)]
pub enum SecurityEventType {
    LoginAttempt,
    LoginFailure,
    LoginSuccess,
    PasswordChange,
    TwoFactorEnabled,
    TwoFactorDisabled,
    UnauthorizedAccess,
    SuspiciousActivity,
    DataExfiltration,
    MalwareDetection,
    BruteForceAttack,
    PrivilegeEscalation,
    ConfigurationChange,
    SystemCompromise,
}

/// How grave an event is.
#[derive(Debug, Clone, Copy, PartialEq, Eq, Structural)]
pub enum SecuritySeverity {
    Low,
    Medium,
    High,
    Critical,
}

/// A named set of rules.
#[derive(Debug, Clone, PartialEq, Eq)]
pub struct SecurityPolicy {
    pub id: String,
    pub name: String,
    pub description: String,
    pub rules: Vec<SecurityRule>,
    pub enabled: bool,
    pub created_at: u64,
    pub updated_at: u64,
}

/// A rule: the events it looks at, and what is done when one comes.
#[derive(Debug, Clone, PartialEq, Eq)]
pub struct SecurityRule {
    pub id: String,
    pub rule_type: SecurityRuleType,
    pub condition: String,
    pub action: SecurityAction,
    pub threshold: Option<u32>,
    pub time_window: Option<u64>,
}

/// What a rule looks at.
#[derive(Debug, Clone, Copy, PartialEq, Eq, Structural)]
pub enum SecurityRuleType {
    FailedLoginAttempts,
    UnusualLoginLocation,
    OffHoursAccess,
    MultipleDeviceAccess,
    DataTransferVolume,
    SessionDuration,
    PrivilegedOperations,
}

/// What a rule has done.
#[derive(Debug, Clone, Copy, PartialEq, Eq, Structural)]
pub enum SecurityAction {
    Alert,
    Block,
    Quarantine,
    RequireApproval,
    ForceLogout,
    DisableAccount,
}

/// What is held against an address.
#[derive(Debug, Clone, PartialEq, Eq)]
pub struct SuspiciousActivity {
    pub ip_address: String,
    pub attempts: u32,
    pub first_seen: u64,
    pub last_seen: u64,
    pub blocked: bool,
}

/// Why an operation of the security layer failed.
#[derive(Debug, Clone, Copy, PartialEq, Eq, Structural)]
pub enum SecurityError {
    /// The secret is too short for one-time codes.
    SecretTooShort,
    /// The QR code could not be drawn.
    QrCode,
    /// A text is no base64.
    Encoding,
    InvalidPublicKey,
    SessionNotFound,
    NotEstablished,
    RemoteKeyMissing,
    /// The session's key cannot sign.
    Signing,
    SignatureInvalid,
    IntegrityCheckFailed,
    InvalidNonce,
    DecryptionFailed,
}

impl SecurityError {
    /// The error in words.
    pub fn message(&self) -> (m: &'static str)
        ensures
            m@ == match *self {
                SecurityError::SecretTooShort => "Secret too short"@,
                SecurityError::QrCode => "QR code generation failed"@,
                SecurityError::Encoding => "Invalid base64"@,
                SecurityError::InvalidPublicKey => "Invalid public key"@,
                SecurityError::SessionNotFound => "Session not found"@,
                SecurityError::NotEstablished => "E2E encryption not established"@,
                SecurityError::RemoteKeyMissing => "Remote public key not available"@,
                SecurityError::Signing => "Signing failed"@,
                SecurityError::SignatureInvalid => "Signature verification failed"@,
                SecurityError::IntegrityCheckFailed => "Data integrity check failed"@,
                SecurityError::InvalidNonce => "Invalid nonce"@,
                SecurityError::DecryptionFailed => "Decryption failed"@,
            },
    {
        match self {
            SecurityError::SecretTooShort => "Secret too short",
            SecurityError::QrCode => "QR code generation failed",
            SecurityError::Encoding => "Invalid base64",
            SecurityError::InvalidPublicKey => "Invalid public key",
            SecurityError::SessionNotFound => "Session not found",
            SecurityError::NotEstablished => "E2E encryption not established",
            SecurityError::RemoteKeyMissing => "Remote public key not available",
            SecurityError::Signing => "Signing failed",
            SecurityError::SignatureInvalid => "Signature verification failed",
            SecurityError::IntegrityCheckFailed => "Data integrity check failed",
            SecurityError::InvalidNonce => "Invalid nonce",
            SecurityError::DecryptionFailed => "Decryption failed",
        }
    }
}

/// Failed logins older than this are forgotten.
pub const ATTEMPT_WINDOW_SECS: u64 = 3600;

/// This many failed logins within the window count as an attack.
pub const BRUTE_FORCE_THRESHOLD: usize = 5;

/// An address that was not seen for this long is forgotten.
pub const SUSPICION_SECS: u64 = 86400;

/// How long ago `t` was at time `now`; 0 for a time that lies ahead.
pub open spec fn age(now: u64, t: u64) -> int {
    if now >= t {
        now - t
    } else {
        0
    }
}

/// The times that lie within the window before `now`.
pub open spec fn recent(times: Seq<u64>, now: u64) -> Seq<u64> {
    times.filter(|t: u64| age(now, t) < ATTEMPT_WINDOW_SECS)
}

/// The times that lie within the window before `now`.
pub fn recent_times(times: &Vec<u64>, now: u64) -> (out: Vec<u64>)
    ensures
        out@ == recent(times@, now),
{
    let ghost keep = |t: u64| age(now, t) < ATTEMPT_WINDOW_SECS;
    let mut out: Vec<u64> = Vec::new();
    let mut i: usize = 0;
    proof {
        reveal(Seq::filter);
        assert(times@.subrange(0, 0) =~= Seq::<u64>::empty());
    }
    while i < times.len()
        invariant
            i <= times@.len(),
            keep == |t: u64| age(now, t) < ATTEMPT_WINDOW_SECS,
            out@ == times@.subrange(0, i as int).filter(keep),
        decreases times@.len() - i,
    {
        let t = times[i];
        proof {
            let before = times@.subrange(0, i as int);
            assert(times@.subrange(0, i as int + 1) =~= before.push(t));
            before.lemma_filter_push(t, keep);
        }
        if now.saturating_sub(t) < ATTEMPT_WINDOW_SECS {
            out.push(t);
        }
        i += 1;
    }
    assert(times@.subrange(0, times@.len() as int) =~= times@);
    out
}

/// The key under which the failed logins of a user from an address are
/// counted.
pub open spec fn attempt_key(user_id: Seq<char>, ip_address: Seq<char>) -> Seq<char> {
    user_id + ":"@ + ip_address
}

/// Whether a rule looks at an event: only the rule on failed logins looks
/// at anything, and it looks at login failures.
pub open spec fn rule_fits(rule_type: SecurityRuleType, event_type: SecurityEventType) -> bool {
    rule_type == SecurityRuleType::FailedLoginAttempts && event_type
        == SecurityEventType::LoginFailure
}

/// The actions of the rules that look at an event, in the order of the
/// rules.
pub open spec fn rule_actions(rules: Seq<SecurityRule>, event_type: SecurityEventType) -> Seq<
    SecurityAction,
>
    decreases rules.len(),
{
    if rules.len() == 0 {
        Seq::empty()
    } else {
        let before = rule_actions(rules.drop_last(), event_type);
        if rule_fits(rules.last().rule_type, event_type) {
            before.push(rules.last().action)
        } else {
            before
        }
    }
}

/// The actions that the enabled policies take on an event, in the order of
/// the policies.
pub open spec fn policy_actions(policies: Seq<SecurityPolicy>, event_type: SecurityEventType) -> Seq<
    SecurityAction,
>
    decreases policies.len(),
{
    if policies.len() == 0 {
        Seq::empty()
    } else {
        let before = policy_actions(policies.drop_last(), event_type);
        if policies.last().enabled {
            before + rule_actions(policies.last().rules@, event_type)
        } else {
            before
        }
    }
}

/// Whether an event is grave enough for an alert of its own.
pub open spec fn is_grave(severity: SecuritySeverity) -> bool {
    severity == SecuritySeverity::High || severity == SecuritySeverity::Critical
}

/// Everything that is done on an event: the actions of the policies, and
/// an alert on top for a grave one.
pub open spec fn due_actions(
    policies: Seq<SecurityPolicy>,
    event_type: SecurityEventType,
    severity: SecuritySeverity,
) -> Seq<SecurityAction> {
    if is_grave(severity) {
        policy_actions(policies, event_type).push(SecurityAction::Alert)
    } else {
        policy_actions(policies, event_type)
    }
}

/// A one-time code has six digits.
pub const TOTP_DIGITS: usize = 6;

/// The skew that the generator of one-time codes is made with.
pub const TOTP_SKEW: u8 = 1;

/// A one-time code holds for thirty seconds.
pub const TOTP_STEP: u64 = 30;

/// The shortest secret for one-time codes, in bytes.
pub const TOTP_MIN_SECRET: usize = 16;

/// The one-time code of the secret at a time.
pub open spec fn code_at(secret: Seq<u8>, time: u64) -> Option<Seq<char>> {
    totp_code(secret, TOTP_DIGITS, TOTP_SKEW, TOTP_STEP, time)
}

/// Whether `code` is the one-time code of the secret at time `now`, or
/// one step earlier or later.
pub open spec fn code_matches(secret: Seq<u8>, code: Seq<char>, now: u64) -> bool {
    ||| now >= TOTP_STEP && code_at(secret, (now - TOTP_STEP) as u64) == Some(code)
    ||| code_at(secret, now) == Some(code)
    ||| now + TOTP_STEP <= u64::MAX && code_at(secret, (now + TOTP_STEP) as u64) == Some(code)
}

/// The enrolment address of a one-time-code configuration.
pub open spec fn totp_url(c: TotpConfig) -> Seq<char> {
    "otpauth://totp/"@ + c.issuer@ + ":"@ + c.account_name@ + "?secret="@ + c.secret@
        + "&issuer="@ + c.issuer@ + "&algorithm="@ + c.algorithm@ + "&digits="@ + decimal_of(
        c.digits as nat,
    ) + "&period="@ + decimal_of(c.period as nat)
}

/// A backup code: two numbers with a hyphen between them.
pub open spec fn backup_code_of(a: u64, b: u64) -> Seq<char> {
    decimal_of(a as nat) + "-"@ + decimal_of(b as nat)
}

/// A backup code.
pub fn backup_code(a: u64, b: u64) -> (code: String)
    ensures
        code@ == backup_code_of(a, b),
{
    let mut code = decimal_string(a);
    code.append("-");
    code.append(decimal_string(b).as_str());
    code
}

/// The security layer's state.
pub struct AdvancedSecurityManager {
    /// By user.
    pub totp_configs: KeyedList<TotpConfig>,
    /// By session identifier.
    pub active_sessions: KeyedList<E2EEncryption>,
    pub security_events: Vec<SecurityEvent>,
    /// By policy identifier.
    pub security_policies: KeyedList<SecurityPolicy>,
    /// The times of the failed logins, by user and address.
    pub failed_attempts: KeyedList<Vec<u64>>,
    /// By address.
    pub suspicious_ips: KeyedList<SuspiciousActivity>,
}

impl AdvancedSecurityManager {
    /// The tables are well formed.
    pub open spec fn wf(&self) -> bool {
        &&& self.totp_configs.wf()
        &&& self.active_sessions.wf()
        &&& self.security_policies.wf()
        &&& self.failed_attempts.wf()
        &&& self.suspicious_ips.wf()
    }

    /// A security layer that holds nothing yet.
    pub fn new() -> (m: Self)
        ensures
            m.wf(),
            m.totp_configs@ == Map::<Seq<char>, TotpConfig>::empty(),
            m.active_sessions@ == Map::<Seq<char>, E2EEncryption>::empty(),
            m.security_events@.len() == 0,
            m.security_policies@ == Map::<Seq<char>, SecurityPolicy>::empty(),
            m.failed_attempts@ == Map::<Seq<char>, Vec<u64>>::empty(),
            m.suspicious_ips@ == Map::<Seq<char>, SuspiciousActivity>::empty(),
    {
        AdvancedSecurityManager {
            totp_configs: KeyedList::new(),
            active_sessions: KeyedList::new(),
            security_events: Vec::new(),
            security_policies: KeyedList::new(),
            failed_attempts: KeyedList::new(),
            suspicious_ips: KeyedList::new(),
        }
    }

    /// Whether a rule looks at an event.
    pub fn rule_matches(&self, rule: &SecurityRule, event: &SecurityEvent) -> (r: bool)
        ensures
            r == rule_fits(rule.rule_type, event.event_type),
    {
        match rule.rule_type {
            SecurityRuleType::FailedLoginAttempts => match event.event_type {
                SecurityEventType::LoginFailure => true,
                _ => false,
            },
            _ => false,
        }
    }

    /// The actions that the enabled policies take on an event.
    pub fn evaluate_security_policies(&self, event: &SecurityEvent) -> (out: Vec<SecurityAction>)
        requires
            self.wf(),
        ensures
            out@ == policy_actions(self.security_policies.value_seq(), event.event_type),
    {
        let ghost policies = self.security_policies.value_seq();
        let n = self.security_policies.len();
        let mut out: Vec<SecurityAction> = Vec::new();
        let mut i: usize = 0;
        assert(policies.subrange(0, 0) =~= Seq::<SecurityPolicy>::empty());
        while i < n
            invariant
                self.wf(),
                policies == self.security_policies.value_seq(),
                n == policies.len(),
                n == self.security_policies.key_seq().len(),
                i <= n,
                out@ == policy_actions(policies.subrange(0, i as int), event.event_type),
            decreases n - i,
        {
            let policy = self.security_policies.value_at(i);
            proof {
                let next = policies.subrange(0, i as int + 1);
                assert(next.drop_last() =~= policies.subrange(0, i as int));
                assert(next.last() == policies[i as int]);
            }
            if policy.enabled {
                let ghost before = out@;
                let rules = &policy.rules;
                let mut k: usize = 0;
                assert(rules@.subrange(0, 0) =~= Seq::<SecurityRule>::empty());
                while k < rules.len()
                    invariant
                        k <= rules@.len(),
                        out@ == before + rule_actions(rules@.subrange(0, k as int), event.event_type),
                    decreases rules@.len() - k,
                {
                    proof {
                        let next = rules@.subrange(0, k as int + 1);
                        assert(next.drop_last() =~= rules@.subrange(0, k as int));
                        assert(next.last() == rules@[k as int]);
                    }
                    if self.rule_matches(&rules[k], event) {
                        out.push(rules[k].action);
                        assert(out@ =~= before + rule_actions(
                            rules@.subrange(0, k as int + 1),
                            event.event_type,
                        ));
                    }
                    k += 1;
                }
                assert(rules@.subrange(0, rules@.len() as int) =~= rules@);
            }
            i += 1;
        }
        assert(policies.subrange(0, n as int) =~= policies);
        out
    }

    /// Takes an event into the record, and returns what is done on it: the
    /// actions of the policies, and an alert on top for a grave event.
    pub fn log_security_event(&mut self, event: SecurityEvent) -> (out: Vec<SecurityAction>)
        requires
            old(self).wf(),
        ensures
            final(self).wf(),
            *final(self) == (AdvancedSecurityManager {
                security_events: final(self).security_events,
                ..*old(self)
            }),
            final(self).security_events@ == old(self).security_events@.push(event),
            out@ == due_actions(
                old(self).security_policies.value_seq(),
                event.event_type,
                event.severity,
            ),
    {
        let mut out = self.evaluate_security_policies(&event);
        match event.severity {
            SecuritySeverity::High => {
                out.push(SecurityAction::Alert);
            },
            SecuritySeverity::Critical => {
                out.push(SecurityAction::Alert);
            },
            _ => {},
        }
        self.security_events.push(event);
        out
    }

    /// Whether logins from an address are blocked.
    pub fn is_ip_blocked(&self, ip_address: &str) -> (r: bool)
        requires
            self.wf(),
        ensures
            r == (self.suspicious_ips@.dom().contains(ip_address@)
                && self.suspicious_ips@[ip_address@].blocked),
    {
        match self.suspicious_ips.get(ip_address) {
            Some(activity) => activity.blocked,
            None => false,
        }
    }

    /// Notes an attack on a user from an address at time `now`: the event
    /// goes into the record under `event_id`, and the address is blocked.
    /// Returns what is done on the event.
    pub fn handle_brute_force_attack(
        &mut self,
        event_id: String,
        user_id: &str,
        ip_address: &str,
        now: u64,
    ) -> (out: Vec<SecurityAction>)
        requires
            old(self).wf(),
        ensures
            final(self).wf(),
            *final(self) == (AdvancedSecurityManager {
                security_events: final(self).security_events,
                suspicious_ips: final(self).suspicious_ips,
                ..*old(self)
            }),
            final(self).security_events@.len() == old(self).security_events@.len() + 1,
            final(self).security_events@.subrange(0, old(self).security_events@.len() as int)
                == old(self).security_events@,
            ({
                let e = final(self).security_events@.last();
                &&& e.id == event_id
                &&& e.event_type == SecurityEventType::BruteForceAttack
                &&& e.severity == SecuritySeverity::High
                &&& e.user_id matches Some(u) && u@ == user_id@
                &&& e.ip_address@ == ip_address@
                &&& e.timestamp == now
                &&& !e.resolved
            }),
            out@ == due_actions(
                old(self).security_policies.value_seq(),
                SecurityEventType::BruteForceAttack,
                SecuritySeverity::High,
            ),
            final(self).suspicious_ips@.dom() == old(self).suspicious_ips@.dom().insert(
                ip_address@,
            ),
            forall|k: Seq<char>|
                k != ip_address@ && old(self).suspicious_ips@.dom().contains(k) ==> final(self).suspicious_ips@[k] == old(self).suspicious_ips@[k],
            ({
                let a = final(self).suspicious_ips@[ip_address@];
                &&& a.ip_address@ == ip_address@
                &&& a.attempts == 5
                &&& a.first_seen == now
                &&& a.last_seen == now
                &&& a.blocked
            }),
    {
        let mut details: Vec<(String, String)> = Vec::new();
        details.push(("attack_type".to_string(), "brute_force".to_string()));
        details.push(("target_user".to_string(), user_id.to_owned()));
        let event = SecurityEvent {
            id: event_id,
            event_type: SecurityEventType::BruteForceAttack,
            severity: SecuritySeverity::High,
            user_id: Some(user_id.to_owned()),
            device_id: None,
            ip_address: ip_address.to_owned(),
            user_agent: None,
            details,
            timestamp: now,
            resolved: false,
            resolution_notes: None,
        };
        let out = self.log_security_event(event);
        self.suspicious_ips.put(
            ip_address.to_owned(),
            SuspiciousActivity {
                ip_address: ip_address.to_owned(),
                attempts: 5,
                first_seen: now,
                last_seen: now,
                blocked: true,
            },
        );
        proof {
            assert(self.security_events@.subrange(0, old(self).security_events@.len() as int)
                =~= old(self).security_events@);
        }
        out
    }

    /// Counts a failed login of a user from an address at time `now`, and
    /// forgets the ones that have left the window. Where the count reaches
    /// the threshold, the attack is noted under `event_id`, and what is done
    /// on it is returned.
    pub fn track_failed_attempt(
        &mut self,
        event_id: String,
        user_id: &str,
        ip_address: &str,
        now: u64,
    ) -> (out: Option<Vec<SecurityAction>>)
        requires
            old(self).wf(),
        ensures
            final(self).wf(),
            final(self).totp_configs == old(self).totp_configs,
            final(self).active_sessions == old(self).active_sessions,
            final(self).security_policies == old(self).security_policies,
            final(self).security_events@.len() >= old(self).security_events@.len(),
            final(self).security_events@.subrange(0, old(self).security_events@.len() as int)
                == old(self).security_events@,
            ({
                let key = attempt_key(user_id@, ip_address@);
                let before = if old(self).failed_attempts@.dom().contains(key) {
                    old(self).failed_attempts@[key]@
                } else {
                    Seq::<u64>::empty()
                };
                let counted = recent(before.push(now), now);
                &&& final(self).failed_attempts@.dom() == old(self).failed_attempts@.dom().insert(
                    key,
                )
                &&& final(self).failed_attempts@[key]@ == counted
                &&& forall|k: Seq<char>|
                    k != key && old(self).failed_attempts@.dom().contains(k) ==> final(self).failed_attempts@[k] == old(self).failed_attempts@[k]
                &&& out is Some <==> counted.len() >= BRUTE_FORCE_THRESHOLD
                &&& out is None ==> *final(self) == (AdvancedSecurityManager {
                    failed_attempts: final(self).failed_attempts,
                    ..*old(self)
                })
                &&& out is Some ==> final(self).suspicious_ips@.dom().contains(ip_address@)
                    && final(self).suspicious_ips@[ip_address@].blocked
            }),
    {
        let mut key = user_id.to_owned();
        key.append(":");
        key.append(ip_address);
        let mut times = match self.failed_attempts.get(key.as_str()) {
            Some(t) => t.clone(),
            None => Vec::new(),
        };
        times.push(now);
        let counted = recent_times(&times, now);
        let attack = counted.len() >= BRUTE_FORCE_THRESHOLD;
        self.failed_attempts.put(key, counted);
        proof {
            assert(self.security_events@.subrange(0, old(self).security_events@.len() as int)
                =~= old(self).security_events@);
        }
        if attack {
            Some(self.handle_brute_force_attack(event_id, user_id, ip_address, now))
        } else {
            None
        }
    }

    /// Puts the policy that every installation starts with into the table:
    /// it blocks on failed logins.
    pub fn load_security_policies(&mut self, now: u64)
        requires
            old(self).wf(),
        ensures
            final(self).wf(),
            *final(self) == (AdvancedSecurityManager {
                security_policies: final(self).security_policies,
                ..*old(self)
            }),
            final(self).security_policies@.dom() == old(self).security_policies@.dom().insert(
                "default_security_policy"@,
            ),
            forall|k: Seq<char>|
                k != "default_security_policy"@ && old(self).security_policies@.dom().contains(k)
                    ==> final(self).security_policies@[k] == old(self).security_policies@[k],
            ({
                let p = final(self).security_policies@["default_security_policy"@];
                &&& p.id@ == "default_security_policy"@
                &&& p.enabled
                &&& p.created_at == now
                &&& p.updated_at == now
                &&& p.rules@.len() == 1
                &&& p.rules@[0].id@ == "failed_login_rule"@
                &&& p.rules@[0].rule_type == SecurityRuleType::FailedLoginAttempts
                &&& p.rules@[0].condition@ == "count >= 5"@
                &&& p.rules@[0].action == SecurityAction::Block
                &&& p.rules@[0].threshold == Some(5u32)
                &&& p.rules@[0].time_window == Some(ATTEMPT_WINDOW_SECS)
            }),
    {
        let mut rules: Vec<SecurityRule> = Vec::new();
        rules.push(
            SecurityRule {
                id: "failed_login_rule".to_string(),
                rule_type: SecurityRuleType::FailedLoginAttempts,
                condition: "count >= 5".to_string(),
                action: SecurityAction::Block,
                threshold: Some(5),
                time_window: Some(ATTEMPT_WINDOW_SECS),
            },
        );
        let policy = SecurityPolicy {
            id: "default_security_policy".to_string(),
            name: "默认安全策略".to_string(),
            description: "基础安全规则".to_string(),
            rules,
            enabled: true,
            created_at: now,
            updated_at: now,
        };
        self.security_policies.put("default_security_policy".to_string(), policy);
    }

    /// The SHA-512 digest of the data, in base64.
    pub fn calculate_data_hash(&self, data: &[u8]) -> (hash: String)
        ensures
            hash@ == base64_encoded(sha512_of(data@)),
    {
        let digest = sha512(data);
        base64_encode(digest.as_slice())
    }

    /// Whether the data has the digest that is expected.
    pub fn verify_data_integrity(&self, data: &[u8], expected_hash: &str) -> (r: bool)
        ensures
            r == (base64_encoded(sha512_of(data@)) == expected_hash@),
    {
        let calculated = self.calculate_data_hash(data);
        str_eq(calculated.as_str(), expected_hash)
    }
}

/// What an enrolment for one-time codes hands out: the configuration for
/// the user's app, the record for storage, and what was done on the event.
#[derive(Debug)]
pub struct Enrolment {
    pub config: TotpConfig,
    pub record: TwoFactorAuth,
    pub actions: Vec<SecurityAction>,
}

/// Whether a text is a secret for one-time codes: 32 characters of the
/// secret alphabet.
pub open spec fn is_totp_secret(secret: Seq<char>) -> bool {
    secret.len() == SECRET_LEN && forall|i: int|
        0 <= i < secret.len() ==> secret_alphabet().contains(#[trigger] secret[i])
}

/// Whether a text is a backup code: two numbers from 1000 up to 9998 with
/// a hyphen between them.
pub open spec fn is_backup_code(code: Seq<char>) -> bool {
    exists|a: u64, b: u64|
        1000 <= a < 9999 && 1000 <= b < 9999 && code == #[trigger] backup_code_of(a, b)
}

/// What the check of a one-time code comes to at time `now`.
pub open spec fn totp_verdict(secret: Seq<char>, code: Seq<char>, now: u64) -> Result<
    bool,
    SecurityError,
> {
    if vstd::utf8::encode_utf8(secret).len() < TOTP_MIN_SECRET {
        Err(SecurityError::SecretTooShort)
    } else {
        Ok(code_matches(vstd::utf8::encode_utf8(secret), code, now))
    }
}

/// What the check of a user's one-time code comes to at time `now`: a
/// user who is not enrolled has no valid code.
pub open spec fn second_factor_verdict(
    configs: Map<Seq<char>, TotpConfig>,
    user_id: Seq<char>,
    code: Seq<char>,
    now: u64,
) -> Result<bool, SecurityError> {
    if configs.dom().contains(user_id) {
        totp_verdict(configs[user_id].secret@, code, now)
    } else {
        Ok(false)
    }
}

/// The value of the first detail with the given name.
pub fn detail_value(details: &Vec<(String, String)>, name: &str) -> (r: Option<String>)
    ensures
        match r {
            Some(v) => exists|i: int|
                0 <= i < details@.len() && details@[i].0@ == name@ && details@[i].1 == v && forall|
                    j: int,
                | 0 <= j < i ==> details@[j].0@ != name@,
            None => forall|j: int| 0 <= j < details@.len() ==> details@[j].0@ != name@,
        },
{
    let mut i: usize = 0;
    while i < details.len()
        invariant
            i <= details@.len(),
            forall|j: int| 0 <= j < i ==> details@[j].0@ != name@,
        decreases details@.len() - i,
    {
        if str_eq(details[i].0.as_str(), name) {
            return Some(details[i].1.clone());
        }
        i += 1;
    }
    None
}

/// What the audit of a login attempt hands out: what was done on the
/// attempt's event, and, where the attempt completed an attack, what was
/// done on the attack's event.
#[derive(Debug)]
pub struct LoginAudit {
    pub actions: Vec<SecurityAction>,
    pub attack: Option<Vec<SecurityAction>>,
}

impl AdvancedSecurityManager {
    /// A new random secret for one-time codes.
    pub fn generate_totp_secret(&self) -> (secret: String)
        ensures
            is_totp_secret(secret@),
    {
        let tfa = crate::auth::TwoFactorAuth::new();
        tfa.get_secret().to_owned()
    }

    /// Ten new random backup codes.
    pub fn generate_backup_codes(&self) -> (codes: Vec<String>)
        ensures
            codes@.len() == 10,
            forall|i: int| 0 <= i < 10 ==> is_backup_code(#[trigger] codes@[i]@),
    {
        let mut codes: Vec<String> = Vec::new();
        while codes.len() < 10
            invariant
                codes@.len() <= 10,
                forall|i: int| 0 <= i < codes@.len() ==> is_backup_code(#[trigger] codes@[i]@),
            decreases 10 - codes@.len(),
        {
            let a = 1000 + random_below(8999) as u64;
            let b = 1000 + random_below(8999) as u64;
            let code = backup_code(a, b);
            assert(is_backup_code(code@)) by {
                assert(code@ == backup_code_of(a, b));
            }
            codes.push(code);
        }
        codes
    }

    /// Whether `code` is the one-time code of the secret at time `now`, or
    /// thirty seconds earlier or later.
    pub fn verify_totp_code_at(&self, secret: &str, code: &str, now: u64) -> (r: Result<
        bool,
        SecurityError,
    >)
        ensures
            r == totp_verdict(secret@, code@, now),
    {
        let bytes = secret.as_bytes();
        let current = match totp_generate(bytes, TOTP_DIGITS, TOTP_SKEW, TOTP_STEP, now) {
            Some(c) => c,
            None => {
                return Err(SecurityError::SecretTooShort);
            },
        };
        if now >= TOTP_STEP {
            match totp_generate(bytes, TOTP_DIGITS, TOTP_SKEW, TOTP_STEP, now - TOTP_STEP) {
                Some(c) => {
                    if str_eq(c.as_str(), code) {
                        return Ok(true);
                    }
                },
                None => {},
            }
        }
        if str_eq(current.as_str(), code) {
            return Ok(true);
        }
        if now <= u64::MAX - TOTP_STEP {
            match totp_generate(bytes, TOTP_DIGITS, TOTP_SKEW, TOTP_STEP, now + TOTP_STEP) {
                Some(c) => {
                    if str_eq(c.as_str(), code) {
                        return Ok(true);
                    }
                },
                None => {},
            }
        }
        Ok(false)
    }

    /// Whether `code` is the one-time code of the secret at the time of the
    /// call, or thirty seconds earlier or later.
    pub fn verify_totp_code(&self, secret: &str, code: &str) -> (r: Result<bool, SecurityError>)
        ensures
            exists|now: u64| r == #[trigger] totp_verdict(secret@, code@, now),
    {
        let now = unix_time_now();
        let r = self.verify_totp_code_at(secret, code, now);
        assert(r == totp_verdict(secret@, code@, now));
        r
    }

    /// Enrols a user for one-time codes at time `now`: a new secret and
    /// new backup codes are drawn, the configuration is kept, and the event
    /// goes into the record. The second factor stays switched off until a
    /// code was verified.
    pub fn enable_2fa(&mut self, user_id: &str, now: u64) -> (out: Enrolment)
        requires
            old(self).wf(),
        ensures
            final(self).wf(),
            *final(self) == (AdvancedSecurityManager {
                totp_configs: final(self).totp_configs,
                security_events: final(self).security_events,
                ..*old(self)
            }),
            final(self).totp_configs@ == old(self).totp_configs@.insert(user_id@, out.config),
            out.config.issuer@ == "RustDesk Enterprise"@,
            out.config.account_name@ == user_id@,
            is_totp_secret(out.config.secret@),
            out.config.algorithm@ == "SHA1"@,
            out.config.digits == 6,
            out.config.period == 30,
            out.record.user_id@ == user_id@,
            out.record.secret == out.config.secret,
            out.record.backup_codes@.len() == 10,
            forall|i: int| 0 <= i < 10 ==> is_backup_code(#[trigger] out.record.backup_codes@[i]@),
            !out.record.enabled,
            out.record.created_at == now,
            out.record.last_used is None,
            final(self).security_events@.len() == old(self).security_events@.len() + 1,
            final(self).security_events@.subrange(0, old(self).security_events@.len() as int)
                == old(self).security_events@,
            final(self).security_events@.last().event_type == SecurityEventType::TwoFactorEnabled,
            final(self).security_events@.last().severity == SecuritySeverity::Medium,
            final(self).security_events@.last().timestamp == now,
            out.actions@ == due_actions(
                old(self).security_policies.value_seq(),
                SecurityEventType::TwoFactorEnabled,
                SecuritySeverity::Medium,
            ),
    {
        let secret = self.generate_totp_secret();
        let config = TotpConfig {
            issuer: "RustDesk Enterprise".to_string(),
            account_name: user_id.to_owned(),
            secret: secret.clone(),
            algorithm: "SHA1".to_string(),
            digits: 6,
            period: 30,
        };
        let record = TwoFactorAuth {
            user_id: user_id.to_owned(),
            secret,
            backup_codes: self.generate_backup_codes(),
            enabled: false,
            created_at: now,
            last_used: None,
        };
        self.totp_configs.put(user_id.to_owned(), config.clone());
        let actions = self.log_security_event(
            SecurityEvent {
                id: new_uuid_v4(),
                event_type: SecurityEventType::TwoFactorEnabled,
                severity: SecuritySeverity::Medium,
                user_id: Some(user_id.to_owned()),
                device_id: None,
                ip_address: "127.0.0.1".to_string(),
                user_agent: None,
                details: Vec::new(),
                timestamp: now,
                resolved: true,
                resolution_notes: None,
            },
        );
        proof {
            assert(self.security_events@.subrange(0, old(self).security_events@.len() as int)
                =~= old(self).security_events@);
        }
        Enrolment { config, record, actions }
    }

    /// Whether `code` is a valid one-time code of the user at time `now`.
    pub fn verify_2fa_at(&self, user_id: &str, code: &str, now: u64) -> (r: Result<
        bool,
        SecurityError,
    >)
        requires
            self.wf(),
        ensures
            r == second_factor_verdict(self.totp_configs@, user_id@, code@, now),
    {
        match self.totp_configs.get(user_id) {
            Some(config) => self.verify_totp_code_at(config.secret.as_str(), code, now),
            None => Ok(false),
        }
    }

    /// Whether `code` is a valid one-time code of the user at the time of
    /// the call.
    pub fn verify_2fa(&self, user_id: &str, code: &str) -> (r: Result<bool, SecurityError>)
        requires
            self.wf(),
        ensures
            exists|now: u64|
                r == #[trigger] second_factor_verdict(self.totp_configs@, user_id@, code@, now),
    {
        let now = unix_time_now();
        let r = self.verify_2fa_at(user_id, code, now);
        assert(r == second_factor_verdict(self.totp_configs@, user_id@, code@, now));
        r
    }

    /// Ends a user's enrolment for one-time codes at time `now`, and puts
    /// the event into the record.
    pub fn disable_2fa(&mut self, user_id: &str, now: u64) -> (actions: Vec<SecurityAction>)
        requires
            old(self).wf(),
        ensures
            final(self).wf(),
            *final(self) == (AdvancedSecurityManager {
                totp_configs: final(self).totp_configs,
                security_events: final(self).security_events,
                ..*old(self)
            }),
            final(self).totp_configs@ == old(self).totp_configs@.remove(user_id@),
            final(self).security_events@.len() == old(self).security_events@.len() + 1,
            final(self).security_events@.subrange(0, old(self).security_events@.len() as int)
                == old(self).security_events@,
            final(self).security_events@.last().event_type == SecurityEventType::TwoFactorDisabled,
            final(self).security_events@.last().severity == SecuritySeverity::Medium,
            final(self).security_events@.last().timestamp == now,
            actions@ == due_actions(
                old(self).security_policies.value_seq(),
                SecurityEventType::TwoFactorDisabled,
                SecuritySeverity::Medium,
            ),
    {
        self.totp_configs.remove(user_id);
        let actions = self.log_security_event(
            SecurityEvent {
                id: new_uuid_v4(),
                event_type: SecurityEventType::TwoFactorDisabled,
                severity: SecuritySeverity::Medium,
                user_id: Some(user_id.to_owned()),
                device_id: None,
                ip_address: "127.0.0.1".to_string(),
                user_agent: None,
                details: Vec::new(),
                timestamp: now,
                resolved: true,
                resolution_notes: None,
            },
        );
        proof {
            assert(self.security_events@.subrange(0, old(self).security_events@.len() as int)
                =~= old(self).security_events@);
        }
        actions
    }

    /// The enrolment address of a one-time-code configuration.
    pub fn totp_uri(&self, config: &TotpConfig) -> (url: String)
        ensures
            url@ == totp_url(*config),
    {
        let mut url = String::from_str("otpauth://totp/");
        url.append(config.issuer.as_str());
        url.append(":");
        url.append(config.account_name.as_str());
        url.append("?secret=");
        url.append(config.secret.as_str());
        url.append("&issuer=");
        url.append(config.issuer.as_str());
        url.append("&algorithm=");
        url.append(config.algorithm.as_str());
        url.append("&digits=");
        url.append(decimal_string(config.digits as u64).as_str());
        url.append("&period=");
        url.append(decimal_string(config.period as u64).as_str());
        url
    }

    /// The QR code of a configuration's enrolment address: a PNG image, in
    /// base64.
    pub fn generate_qr_code(&self, config: &TotpConfig) -> (r: Result<String, SecurityError>)
        ensures
            match r {
                Ok(text) => qr_png_of(totp_url(*config)) is Some && text@ == base64_encoded(
                    qr_png_of(totp_url(*config))->0,
                ),
                Err(e) => qr_png_of(totp_url(*config)) is None && e == SecurityError::QrCode,
            },
    {
        let url = self.totp_uri(config);
        match qr_png(url.as_str()) {
            Some(png) => Ok(base64_encode(png.as_slice())),
            None => Err(SecurityError::QrCode),
        }
    }

    /// Puts a login attempt at time `now` into the record, and counts it
    /// where it failed.
    pub fn log_login_attempt(
        &mut self,
        user_id: &str,
        ip_address: &str,
        success: bool,
        details: Vec<(String, String)>,
        now: u64,
    ) -> (out: LoginAudit)
        requires
            old(self).wf(),
        ensures
            final(self).wf(),
            final(self).totp_configs == old(self).totp_configs,
            final(self).active_sessions == old(self).active_sessions,
            final(self).security_policies == old(self).security_policies,
            final(self).security_events@.len() > old(self).security_events@.len(),
            ({
                let e = final(self).security_events@[old(self).security_events@.len() as int];
                &&& e.event_type == if success {
                    SecurityEventType::LoginSuccess
                } else {
                    SecurityEventType::LoginFailure
                }
                &&& e.severity == if success {
                    SecuritySeverity::Low
                } else {
                    SecuritySeverity::Medium
                }
                &&& e.user_id matches Some(u) && u@ == user_id@
                &&& e.ip_address@ == ip_address@
                &&& e.details == details
                &&& e.timestamp == now
                &&& e.resolved == success
            }),
            out.actions@ == due_actions(
                old(self).security_policies.value_seq(),
                if success {
                    SecurityEventType::LoginSuccess
                } else {
                    SecurityEventType::LoginFailure
                },
                if success {
                    SecuritySeverity::Low
                } else {
                    SecuritySeverity::Medium
                },
            ),
            success ==> out.attack is None && final(self).failed_attempts == old(self).failed_attempts && final(self).suspicious_ips == old(self).suspicious_ips,
            !success ==> ({
                let key = attempt_key(user_id@, ip_address@);
                let before = if old(self).failed_attempts@.dom().contains(key) {
                    old(self).failed_attempts@[key]@
                } else {
                    Seq::<u64>::empty()
                };
                &&& final(self).failed_attempts@[key]@ == recent(before.push(now), now)
                &&& out.attack is Some <==> recent(before.push(now), now).len()
                    >= BRUTE_FORCE_THRESHOLD
            }),
    {
        let user_agent = detail_value(&details, "user_agent");
        let event = SecurityEvent {
            id: new_uuid_v4(),
            event_type: if success {
                SecurityEventType::LoginSuccess
            } else {
                SecurityEventType::LoginFailure
            },
            severity: if success {
                SecuritySeverity::Low
            } else {
                SecuritySeverity::Medium
            },
            user_id: Some(user_id.to_owned()),
            device_id: None,
            ip_address: ip_address.to_owned(),
            user_agent,
            details,
            timestamp: now,
            resolved: success,
            resolution_notes: None,
        };
        let actions = self.log_security_event(event);
        let ghost logged = self.security_events@;
        let attack = if !success {
            self.track_failed_attempt(new_uuid_v4(), user_id, ip_address, now)
        } else {
            None
        };
        proof {
            let at = old(self).security_events@.len() as int;
            if !success {
                assert(self.security_events@.subrange(0, logged.len() as int)[at]
                    == self.security_events@[at]);
            }
            assert(logged[at] == event);
        }
        LoginAudit { actions, attack }
    }

    /// Prepares a new security layer for use at time `now`.
    pub fn initialize(&mut self, now: u64)
        requires
            old(self).wf(),
        ensures
            final(self).wf(),
            final(self).security_policies@.dom().contains("default_security_policy"@),
    {
        self.load_security_policies(now);
    }
}

/// The length of a public key and of a shared key, in bytes.
pub const KEY_BYTES: usize = 32;

/// The length of a nonce, in bytes.
pub const NONCE_BYTES: usize = 24;

/// What opening a sealed message comes to, given the session that the
/// message names. The checks come in this order: the session, its shared
/// key, the other side's public key, the three base64 texts, the
/// signature, that the signed text is the ciphertext, the nonce, and the
/// seal.
pub open spec fn decrypt_verdict(
    sessions: Map<Seq<char>, E2EEncryption>,
    message: EncryptedMessage,
) -> Result<Seq<u8>, SecurityError> {
    if !sessions.dom().contains(message.session_id@) {
        Err(SecurityError::SessionNotFound)
    } else {
        let session = sessions[message.session_id@];
        if session.shared_secret is None {
            Err(SecurityError::NotEstablished)
        } else if session.remote_public_key is None {
            Err(SecurityError::RemoteKeyMissing)
        } else if base64_decoded(message.nonce@) is None || base64_decoded(message.ciphertext@)
            is None || base64_decoded(message.signature@) is None {
            Err(SecurityError::Encoding)
        } else {
            let nonce = base64_decoded(message.nonce@)->0;
            let ciphertext = base64_decoded(message.ciphertext@)->0;
            let signature = base64_decoded(message.signature@)->0;
            let signed = ed25519_verified(signature, session.remote_public_key->0@);
            if signed is None {
                Err(SecurityError::SignatureInvalid)
            } else if signed->0 != ciphertext {
                Err(SecurityError::IntegrityCheckFailed)
            } else if nonce.len() != NONCE_BYTES {
                Err(SecurityError::InvalidNonce)
            } else {
                match secretbox_opened(ciphertext, nonce, session.shared_secret->0@) {
                    Some(text) => Ok(text),
                    None => Err(SecurityError::DecryptionFailed),
                }
            }
        }
    }
}

/// The failed logins that are kept at time `now`: of every key the times
/// within the window, and no key without one.
pub open spec fn kept_attempts(attempts: Map<Seq<char>, Vec<u64>>, now: u64) -> Map<
    Seq<char>,
    Seq<u64>,
> {
    Map::new(
        |k: Seq<char>| attempts.dom().contains(k) && recent(attempts[k]@, now).len() > 0,
        |k: Seq<char>| recent(attempts[k]@, now),
    )
}

/// The addresses that stay under suspicion at time `now`: those seen
/// within the last day.
pub open spec fn kept_suspicions(
    suspicious: Map<Seq<char>, SuspiciousActivity>,
    now: u64,
) -> Map<Seq<char>, SuspiciousActivity> {
    Map::new(
        |k: Seq<char>| suspicious.dom().contains(k) && age(now, suspicious[k].last_seen)
            < SUSPICION_SECS,
        |k: Seq<char>| suspicious[k],
    )
}

/// The times of a table of failed logins.
pub open spec fn attempt_times(attempts: Map<Seq<char>, Vec<u64>>) -> Map<Seq<char>, Seq<u64>> {
    viewed(attempts)
}

impl AdvancedSecurityManager {
    /// Forgets, at time `now`, the failed logins that have left the window
    /// and the addresses that were not seen for a day.
    pub fn expire_records(&mut self, now: u64)
        requires
            old(self).wf(),
        ensures
            final(self).wf(),
            *final(self) == (AdvancedSecurityManager {
                failed_attempts: final(self).failed_attempts,
                suspicious_ips: final(self).suspicious_ips,
                ..*old(self)
            }),
            attempt_times(final(self).failed_attempts@) == kept_attempts(
                old(self).failed_attempts@,
                now,
            ),
            final(self).suspicious_ips@ == kept_suspicions(old(self).suspicious_ips@, now),
    {
        let ghost attempts = self.failed_attempts@;
        let mut i: usize = 0;
        proof {
            self.failed_attempts.lemma_places();
        }
        while i < self.failed_attempts.len()
            invariant
                self.failed_attempts.wf(),
                *self == (AdvancedSecurityManager {
                    failed_attempts: self.failed_attempts,
                    ..*old(self)
                }),
                attempts == old(self).failed_attempts@,
                i <= self.failed_attempts.key_seq().len(),
                forall|k: Seq<char>| #[trigger]
                    self.failed_attempts@.dom().contains(k) ==> attempts.dom().contains(k),
                forall|k: Seq<char>|
                    attempts.dom().contains(k) && recent(attempts[k]@, now).len() > 0
                        ==> #[trigger] self.failed_attempts@.dom().contains(k),
                forall|j: int|
                    0 <= j < i ==> (#[trigger] self.failed_attempts.value_seq()[j])@ == recent(
                        attempts[self.failed_attempts.key_seq()[j]]@,
                        now,
                    ) && self.failed_attempts.value_seq()[j]@.len() > 0,
                forall|j: int|
                    i <= j < self.failed_attempts.key_seq().len()
                        ==> #[trigger] self.failed_attempts.value_seq()[j]
                        == attempts[self.failed_attempts.key_seq()[j]],
            decreases self.failed_attempts.key_seq().len() - i,
        {
            proof {
                self.failed_attempts.lemma_places();
            }
            let kept = recent_times(self.failed_attempts.value_at(i), now);
            if kept.len() == 0 {
                self.failed_attempts.remove_at(i);
            } else {
                self.failed_attempts.set_at(i, kept);
                i += 1;
            }
            proof {
                self.failed_attempts.lemma_places();
            }
        }
        proof {
            self.failed_attempts.lemma_places();
            assert forall|k: Seq<char>| #[trigger]
                self.failed_attempts@.dom().contains(k) implies self.failed_attempts@[k]@
                == recent(attempts[k]@, now) && recent(attempts[k]@, now).len() > 0 by {
                let j = choose|j: int|
                    0 <= j < self.failed_attempts.key_seq().len()
                        && self.failed_attempts.key_seq()[j] == k;
                assert(self.failed_attempts.value_seq()[j]@ == recent(attempts[k]@, now));
            }
            assert(attempt_times(self.failed_attempts@) =~= kept_attempts(attempts, now));
        }
        let ghost suspicious = self.suspicious_ips@;
        let mut i: usize = 0;
        proof {
            self.suspicious_ips.lemma_places();
        }
        while i < self.suspicious_ips.len()
            invariant
                self.suspicious_ips.wf(),
                self.failed_attempts.wf(),
                *self == (AdvancedSecurityManager {
                    failed_attempts: self.failed_attempts,
                    suspicious_ips: self.suspicious_ips,
                    ..*old(self)
                }),
                attempt_times(self.failed_attempts@) == kept_attempts(
                    old(self).failed_attempts@,
                    now,
                ),
                suspicious == old(self).suspicious_ips@,
                i <= self.suspicious_ips.key_seq().len(),
                forall|k: Seq<char>| #[trigger]
                    self.suspicious_ips@.dom().contains(k) ==> suspicious.dom().contains(k)
                        && self.suspicious_ips@[k] == suspicious[k],
                forall|k: Seq<char>|
                    suspicious.dom().contains(k) && age(now, suspicious[k].last_seen)
                        < SUSPICION_SECS ==> #[trigger] self.suspicious_ips@.dom().contains(k),
                forall|j: int|
                    0 <= j < i ==> age(
                        now,
                        (#[trigger] self.suspicious_ips.value_seq()[j]).last_seen,
                    ) < SUSPICION_SECS,
            decreases self.suspicious_ips.key_seq().len() - i,
        {
            proof {
                self.suspicious_ips.lemma_places();
            }
            let last_seen = self.suspicious_ips.value_at(i).last_seen;
            if now.saturating_sub(last_seen) < SUSPICION_SECS {
                i += 1;
            } else {
                self.suspicious_ips.remove_at(i);
            }
            proof {
                self.suspicious_ips.lemma_places();
            }
        }
        proof {
            self.suspicious_ips.lemma_places();
            assert forall|k: Seq<char>| #[trigger]
                self.suspicious_ips@.dom().contains(k) implies age(now, suspicious[k].last_seen)
                < SUSPICION_SECS by {
                let j = choose|j: int|
                    0 <= j < self.suspicious_ips.key_seq().len()
                        && self.suspicious_ips.key_seq()[j] == k;
                assert(self.suspicious_ips.value_seq()[j] == self.suspicious_ips@[k]);
            }
            assert(self.suspicious_ips@ =~= kept_suspicions(suspicious, now));
        }
    }

    /// Opens an end-to-end session with a new random key pair, and returns
    /// the public key in base64.
    pub fn initiate_e2e_session(&mut self, session_id: &str) -> (public_key: String)
        requires
            old(self).wf(),
        ensures
            final(self).wf(),
            *final(self) == (AdvancedSecurityManager {
                active_sessions: final(self).active_sessions,
                ..*old(self)
            }),
            final(self).active_sessions@.dom() == old(self).active_sessions@.dom().insert(
                session_id@,
            ),
            forall|k: Seq<char>|
                k != session_id@ && old(self).active_sessions@.dom().contains(k) ==> final(self).active_sessions@[k] == old(self).active_sessions@[k],
            ({
                let s = final(self).active_sessions@[session_id@];
                &&& s.session_id@ == session_id@
                &&& s.local_keypair.0@.len() == KEY_BYTES
                &&& s.local_keypair.1@.len() == KEY_BYTES
                &&& s.remote_public_key is None
                &&& s.shared_secret is None
                &&& s.nonce_counter == 0
                &&& public_key@ == base64_encoded(s.local_keypair.0@)
            }),
    {
        let pair = box_keypair();
        let public_key = base64_encode(pair.0.as_slice());
        self.active_sessions.put(
            session_id.to_owned(),
            E2EEncryption {
                session_id: session_id.to_owned(),
                local_keypair: pair,
                remote_public_key: None,
                shared_secret: None,
                nonce_counter: 0,
            },
        );
        public_key
    }

    /// Completes the handshake of a session with the other side's public
    /// key, given in base64: the session takes the key in and derives the
    /// shared key. A session that is not there is no error.
    pub fn complete_e2e_handshake(&mut self, session_id: &str, remote_public_key: &str) -> (r:
        Result<(), SecurityError>)
        requires
            old(self).wf(),
        ensures
            final(self).wf(),
            *final(self) == (AdvancedSecurityManager {
                active_sessions: final(self).active_sessions,
                ..*old(self)
            }),
            ({
                let sessions = old(self).active_sessions@;
                let decoded = base64_decoded(remote_public_key@);
                if decoded is None {
                    r == Err::<(), SecurityError>(SecurityError::Encoding) && final(self).active_sessions@ == sessions
                } else if decoded->0.len() != KEY_BYTES {
                    r == Err::<(), SecurityError>(SecurityError::InvalidPublicKey) && final(self).active_sessions@ == sessions
                } else if !sessions.dom().contains(session_id@) {
                    r is Ok && final(self).active_sessions@ == sessions
                } else if sessions[session_id@].local_keypair.1@.len() != KEY_BYTES {
                    r == Err::<(), SecurityError>(SecurityError::NotEstablished) && final(self).active_sessions@ == sessions
                } else {
                    let before = sessions[session_id@];
                    let after = final(self).active_sessions@[session_id@];
                    &&& r is Ok
                    &&& final(self).active_sessions@.dom() == sessions.dom()
                    &&& forall|k: Seq<char>|
                        k != session_id@ && sessions.dom().contains(k) ==> final(self).active_sessions@[k] == sessions[k]
                    &&& after.session_id == before.session_id
                    &&& after.local_keypair == before.local_keypair
                    &&& after.nonce_counter == before.nonce_counter
                    &&& view_opt_bytes(after.remote_public_key) == decoded
                    &&& view_opt_bytes(after.shared_secret) == box_shared_key(
                        decoded->0,
                        before.local_keypair.1@,
                    )
                }
            }),
    {
        let remote = match base64_decode(remote_public_key) {
            Ok(bytes) => bytes,
            Err(_) => {
                return Err(SecurityError::Encoding);
            },
        };
        if remote.len() != KEY_BYTES {
            return Err(SecurityError::InvalidPublicKey);
        }
        let i = match self.active_sessions.position(session_id) {
            Some(i) => i,
            None => {
                return Ok(());
            },
        };
        let shared = match box_precompute(
            remote.as_slice(),
            self.active_sessions.value_at(i).local_keypair.1.as_slice(),
        ) {
            Some(shared) => shared,
            None => {
                return Err(SecurityError::NotEstablished);
            },
        };
        proof {
            self.active_sessions.lemma_places();
        }
        let session = self.active_sessions.remove_at(i);
        self.active_sessions.put(
            session_id.to_owned(),
            E2EEncryption {
                session_id: session.session_id,
                local_keypair: session.local_keypair,
                remote_public_key: Some(remote),
                shared_secret: Some(shared),
                nonce_counter: session.nonce_counter,
            },
        );
        proof {
            assert(final(self).active_sessions@.dom() =~= old(self).active_sessions@.dom());
        }
        Ok(())
    }

    /// Seals a text for the other side of a session at time `now`, under a
    /// new random nonce, and signs the sealed text with the session's own
    /// secret key. The session counts the nonce.
    pub fn encrypt_message(&mut self, session_id: &str, plaintext: &[u8], now: u64) -> (r: Result<
        EncryptedMessage,
        SecurityError,
    >)
        requires
            old(self).wf(),
        ensures
            final(self).wf(),
            *final(self) == (AdvancedSecurityManager {
                active_sessions: final(self).active_sessions,
                ..*old(self)
            }),
            ({
                let sessions = old(self).active_sessions@;
                if !sessions.dom().contains(session_id@) {
                    r matches Err(e) && e == SecurityError::SessionNotFound && final(self).active_sessions@ == sessions
                } else if sessions[session_id@].shared_secret is None {
                    r matches Err(e) && e == SecurityError::NotEstablished && final(self).active_sessions@ == sessions
                } else {
                    let before = sessions[session_id@];
                    let after = final(self).active_sessions@[session_id@];
                    let key = before.shared_secret->0@;
                    &&& final(self).active_sessions@.dom() == sessions.dom()
                    &&& forall|k: Seq<char>|
                        k != session_id@ && sessions.dom().contains(k) ==> final(self).active_sessions@[k] == sessions[k]
                    &&& after == (E2EEncryption {
                        nonce_counter: if before.nonce_counter < u64::MAX {
                            (before.nonce_counter + 1) as u64
                        } else {
                            before.nonce_counter
                        },
                        ..before
                    })
                    &&& match r {
                        Ok(m) => exists|nonce: Seq<u8>|
                            {
                                &&& nonce.len() == NONCE_BYTES
                                &&& m.session_id@ == session_id@
                                &&& m.timestamp == now
                                &&& m.nonce@ == base64_encoded(nonce)
                                &&& #[trigger] secretbox_sealed(plaintext@, nonce, key) is Some
                                &&& m.ciphertext@ == base64_encoded(
                                    secretbox_sealed(plaintext@, nonce, key)->0,
                                )
                                &&& ed25519_signed(
                                    secretbox_sealed(plaintext@, nonce, key)->0,
                                    before.local_keypair.1@,
                                ) is Some
                                &&& m.signature@ == base64_encoded(
                                    ed25519_signed(
                                        secretbox_sealed(plaintext@, nonce, key)->0,
                                        before.local_keypair.1@,
                                    )->0,
                                )
                            },
                        Err(e) => if key.len() != KEY_BYTES {
                            e == SecurityError::NotEstablished
                        } else {
                            e == SecurityError::Signing && before.local_keypair.1@.len() != 64
                        },
                    }
                }
            }),
    {
        let i = match self.active_sessions.position(session_id) {
            Some(i) => i,
            None => {
                return Err(SecurityError::SessionNotFound);
            },
        };
        if self.active_sessions.value_at(i).shared_secret.is_none() {
            return Err(SecurityError::NotEstablished);
        }
        proof {
            self.active_sessions.lemma_places();
        }
        let mut session = self.active_sessions.remove_at(i);
        if session.nonce_counter < u64::MAX {
            session.nonce_counter = session.nonce_counter + 1;
        }
        let nonce = secretbox_nonce();
        let sealed = match &session.shared_secret {
            Some(key) => secretbox_seal(plaintext, nonce.as_slice(), key.as_slice()),
            None => None,
        };
        let signed = match &sealed {
            Some(c) => ed25519_sign(c.as_slice(), session.local_keypair.1.as_slice()),
            None => None,
        };
        self.active_sessions.put(session_id.to_owned(), session);
        proof {
            assert(final(self).active_sessions@.dom() =~= old(self).active_sessions@.dom());
        }
        match sealed {
            None => Err(SecurityError::NotEstablished),
            Some(c) => match signed {
                None => Err(SecurityError::Signing),
                Some(s) => Ok(
                    EncryptedMessage {
                        session_id: session_id.to_owned(),
                        nonce: base64_encode(nonce.as_slice()),
                        ciphertext: base64_encode(c.as_slice()),
                        signature: base64_encode(s.as_slice()),
                        timestamp: now,
                    },
                ),
            },
        }
    }

    /// Opens a sealed message: checks the signature of the other side,
    /// and that what was signed is the ciphertext, and opens the seal.
    pub fn decrypt_message(&self, message: &EncryptedMessage) -> (r: Result<Vec<u8>, SecurityError>)
        requires
            self.wf(),
        ensures
            match r {
                Ok(text) => decrypt_verdict(self.active_sessions@, *message) == Ok::<
                    Seq<u8>,
                    SecurityError,
                >(text@),
                Err(e) => decrypt_verdict(self.active_sessions@, *message) == Err::<
                    Seq<u8>,
                    SecurityError,
                >(e),
            },
    {
        let session = match self.active_sessions.get(message.session_id.as_str()) {
            Some(s) => s,
            None => {
                return Err(SecurityError::SessionNotFound);
            },
        };
        let shared = match &session.shared_secret {
            Some(k) => k,
            None => {
                return Err(SecurityError::NotEstablished);
            },
        };
        let remote = match &session.remote_public_key {
            Some(k) => k,
            None => {
                return Err(SecurityError::RemoteKeyMissing);
            },
        };
        let nonce = match base64_decode(message.nonce.as_str()) {
            Ok(b) => b,
            Err(_) => {
                return Err(SecurityError::Encoding);
            },
        };
        let ciphertext = match base64_decode(message.ciphertext.as_str()) {
            Ok(b) => b,
            Err(_) => {
                return Err(SecurityError::Encoding);
            },
        };
        let signature = match base64_decode(message.signature.as_str()) {
            Ok(b) => b,
            Err(_) => {
                return Err(SecurityError::Encoding);
            },
        };
        let signed = match ed25519_verify(signature.as_slice(), remote.as_slice()) {
            Some(m) => m,
            None => {
                return Err(SecurityError::SignatureInvalid);
            },
        };
        if !bytes_eq(signed.as_slice(), ciphertext.as_slice()) {
            return Err(SecurityError::IntegrityCheckFailed);
        }
        if nonce.len() != NONCE_BYTES {
            return Err(SecurityError::InvalidNonce);
        }
        match secretbox_open(ciphertext.as_slice(), nonce.as_slice(), shared.as_slice()) {
            Some(text) => Ok(text),
            None => Err(SecurityError::DecryptionFailed),
        }
    }
}

} // verus!
