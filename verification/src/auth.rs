//! Accounts and sessions: roles, lockout after failed logins, the claims of a
//! session token, and what a role may do to a device.

use vstd::prelude::*;
use vstd::string::*;
use crate::boundary::{
    bcrypt_hash, bcrypt_verdict, bcrypt_verify, jwt_decode, jwt_encode, jwt_signed, list_pairs,
    new_uuid_v4, number_pairs, random_below, text_pairs, unix_time_now,
};
use crate::enterprise_database::{name_of, role_name};
use crate::text::{clone_strings, views_of};
use crate::text::str_eq;

verus! {

/// The claims of a session token. `exp` and `iat` are in seconds since the
/// Unix epoch.
#[derive(Debug, PartialEq, Eq)]
pub struct Claims {
    /// The user's identifier.
    pub sub: String,
    pub username: String,
    pub role: String,
    pub groups: Vec<String>,
    /// When the token expires.
    pub exp: usize,
    /// When the token was issued.
    pub iat: usize,
    /// The token's own identifier.
    pub jti: String,
}

/// An account. Times are in seconds since the Unix epoch.
#[derive(Debug, PartialEq, Eq)]
pub struct User {
    pub id: String,
    pub username: String,
    pub password_hash: String,
    pub email: Option<String>,
    pub role: UserRole,
    pub groups: Vec<String>,
    pub enabled: bool,
    pub created_at: u64,
    pub last_login: Option<u64>,
    pub failed_login_attempts: u32,
    pub locked_until: Option<u64>,
    pub two_factor_enabled: bool,
    pub two_factor_secret: Option<String>,
}

/// The role of an account.
#[derive(Debug, Clone, Copy, PartialEq, Eq, Structural)]
pub enum UserRole {
    SuperAdmin,
    Admin,
    User,
    ReadOnly,
}

/// A login session. Times are in seconds since the Unix epoch.
#[derive(Debug, PartialEq, Eq)]
pub struct Session {
    pub id: String,
    pub user_id: String,
    pub token: String,
    pub created_at: u64,
    pub expires_at: u64,
    pub last_activity: u64,
    pub ip_address: String,
    pub user_agent: Option<String>,
    pub active: bool,
}

/// A group of devices with the permissions that hold for them.
#[derive(Debug, PartialEq, Eq)]
pub struct DeviceGroup {
    pub id: String,
    pub name: String,
    pub description: Option<String>,
    pub created_by: String,
    pub created_at: u64,
    pub devices: Vec<String>,
    pub permissions: GroupPermissions,
}

/// What the members of a group may do. `session_timeout` is in seconds.
#[derive(Debug, Clone, Copy, PartialEq, Eq, Structural)]
pub struct GroupPermissions {
    pub can_control: bool,
    pub can_transfer_files: bool,
    pub can_view_screen: bool,
    pub can_use_audio: bool,
    pub can_use_clipboard: bool,
    pub session_timeout: Option<u64>,
}

/// What went wrong in the account service.
#[derive(Debug, Clone, Copy, PartialEq, Eq, Structural)]
pub enum AuthError {
    /// The password could not be hashed.
    Hash,
    /// The token could not be made, or did not stand up to verification.
    Token,
    /// The expiry time does not fit the machine's word.
    Clock,
}

/// Session tokens live for eight hours.
pub const SESSION_TIMEOUT_SECS: u64 = 28800;

/// An account is locked after five failed logins in a row.
pub const MAX_FAILED_ATTEMPTS: u32 = 5;

/// A lock lasts thirty minutes.
pub const LOCKOUT_SECS: u64 = 1800;

/// The cost at which passwords are hashed.
pub const HASH_COST: u32 = 12;

/// The account service: it signs and checks tokens with `jwt_secret`, and
/// holds the lockout policy. Durations are in seconds.
pub struct AuthManager {
    pub jwt_secret: String,
    pub session_timeout: u64,
    pub max_failed_attempts: u32,
    pub lockout_duration: u64,
}

/// Whether the account is locked at time `now`: a lock is set and has not
/// run out yet.
pub open spec fn locked_at(locked_until: Option<u64>, now: u64) -> bool {
    match locked_until {
        Some(until) => now < until,
        None => false,
    }
}

/// The time until which an account that is locked at `now` stays locked:
/// the lockout duration later, or the end of time where that lies beyond
/// it.
pub open spec fn lockout_end(now: u64, lockout_duration: u64) -> u64 {
    if now + lockout_duration <= u64::MAX {
        (now + lockout_duration) as u64
    } else {
        u64::MAX
    }
}

/// Whether a role may perform `action` on a device. Every role but
/// `ReadOnly` may do everything; `ReadOnly` may view and monitor.
pub open spec fn permitted(role: UserRole, action: Seq<char>) -> bool {
    match role {
        UserRole::SuperAdmin => true,
        UserRole::Admin => true,
        UserRole::User => true,
        UserRole::ReadOnly => action == "view"@ || action == "monitor"@,
    }
}

impl AuthManager {
    /// An account service with the given signing secret and the standard
    /// policy.
    pub fn new(jwt_secret: String) -> (auth: Self)
        ensures
            auth.jwt_secret == jwt_secret,
            auth.session_timeout == SESSION_TIMEOUT_SECS,
            auth.max_failed_attempts == MAX_FAILED_ATTEMPTS,
            auth.lockout_duration == LOCKOUT_SECS,
    {
        AuthManager {
            jwt_secret,
            session_timeout: SESSION_TIMEOUT_SECS,
            max_failed_attempts: MAX_FAILED_ATTEMPTS,
            lockout_duration: LOCKOUT_SECS,
        }
    }

    /// A salted hash of the password, which verifies for the password.
    /// Whether one comes back is up to the hashing library.
    pub fn hash_password(&self, password: &str) -> (r: Result<String, AuthError>)
        ensures
            match r {
                Ok(hash) => bcrypt_verdict(password@, hash@) == Some(true),
                Err(e) => e == AuthError::Hash,
            },
    {
        match bcrypt_hash(password, HASH_COST) {
            Ok(h) => Ok(h),
            Err(_) => Err(AuthError::Hash),
        }
    }

    /// Whether the password matches the stored hash. A hash that cannot be
    /// read matches nothing.
    pub fn verify_password(&self, password: &str, hash: &str) -> (r: bool)
        ensures
            r == (bcrypt_verdict(password@, hash@) == Some(true)),
    {
        password_matches(bcrypt_verify(password, hash).ok())
    }

    /// Whether the account is locked at the time of the call.
    pub fn is_user_locked(&self, user: &User) -> (r: bool)
        ensures
            exists|now: u64| r == #[trigger] locked_at(user.locked_until, now),
    {
        let now = unix_time_now();
        let r = self.is_user_locked_at(user, now);
        assert(r == locked_at(user.locked_until, now));
        r
    }

    /// Whether the account is locked at time `now`.
    pub fn is_user_locked_at(&self, user: &User, now: u64) -> (r: bool)
        ensures
            r == locked_at(user.locked_until, now),
    {
        match user.locked_until {
            Some(until) => now < until,
            None => false,
        }
    }

    /// Whether the account has failed often enough to be locked.
    pub fn should_lock_user(&self, user: &User) -> (r: bool)
        ensures
            r == (user.failed_login_attempts >= self.max_failed_attempts),
    {
        user.failed_login_attempts >= self.max_failed_attempts
    }

    /// The time until which an account that is locked at the time of the
    /// call stays locked.
    pub fn generate_lockout_time(&self) -> (until: u64)
        ensures
            exists|now: u64| until == #[trigger] lockout_end(now, self.lockout_duration),
    {
        let now = unix_time_now();
        let until = self.lockout_time_from(now);
        assert(until == lockout_end(now, self.lockout_duration));
        until
    }

    /// The time until which an account that is locked at `now` stays locked:
    /// the lockout duration later, or the end of time where that lies
    /// beyond it.
    pub fn lockout_time_from(&self, now: u64) -> (until: u64)
        ensures
            until == lockout_end(now, self.lockout_duration),
    {
        now.saturating_add(self.lockout_duration)
    }

    /// Whether `user` may perform `action` on the device.
    pub fn check_permission(&self, user: &User, device_id: &str, action: &str) -> (r: bool)
        ensures
            r == permitted(user.role, action@),
    {
        match user.role {
            UserRole::SuperAdmin => true,
            UserRole::Admin => true,
            UserRole::User => true,
            UserRole::ReadOnly => str_eq(action, "view") || str_eq(action, "monitor"),
        }
    }
}

/// What a verdict of the hashing library means for a login: only a clear
/// yes lets the password pass.
pub fn password_matches(verdict: Option<bool>) -> (r: bool)
    ensures
        r == (verdict == Some(true)),
{
    match verdict {
        Some(b) => b,
        None => false,
    }
}

/// The alphabet that one-time-code secrets are drawn from.
pub open spec fn secret_alphabet() -> Seq<char> {
    "ABCDEFGHIJKLMNOPQRSTUVWXYZ234567"@
}

/// The length of a one-time-code secret.
pub const SECRET_LEN: usize = 32;

/// The secret whose characters stand in the alphabet at the given places.
pub open spec fn secret_of(picks: Seq<usize>) -> Seq<char> {
    Seq::new(picks.len(), |i: int| secret_alphabet()[picks[i] as int])
}

/// The enrolment address for an authenticator app.
pub open spec fn otpauth_url(issuer: Seq<char>, username: Seq<char>, secret: Seq<char>) -> Seq<
    char,
> {
    "otpauth://totp/"@ + issuer + ":"@ + username + "?secret="@ + secret + "&issuer="@ + issuer
}

/// Whether a string has the shape of a one-time code: six decimal digits.
pub open spec fn is_code_shaped(token: Seq<char>) -> bool {
    token.len() == 6 && forall|i: int| 0 <= i < token.len() ==> '0' <= #[trigger] token[i] <= '9'
}

/// The secret that a user shares with an authenticator app.
pub struct TwoFactorAuth {
    secret: String,
}

impl TwoFactorAuth {
    /// What `get_secret` returns.
    pub closed spec fn secret(&self) -> Seq<char> {
        self.secret@
    }

    /// A new random secret: 32 characters of the secret alphabet.
    pub fn new() -> (tfa: Self)
        ensures
            tfa.secret().len() == SECRET_LEN,
            forall|i: int|
                0 <= i < tfa.secret().len() ==> secret_alphabet().contains(
                    #[trigger] tfa.secret()[i],
                ),
    {
        let mut picks: Vec<usize> = Vec::new();
        while picks.len() < SECRET_LEN
            invariant
                picks@.len() <= SECRET_LEN,
                forall|i: int| 0 <= i < picks@.len() ==> picks@[i] < 32,
            decreases SECRET_LEN - picks@.len(),
        {
            picks.push(random_below(32));
        }
        proof {
            reveal_strlit("ABCDEFGHIJKLMNOPQRSTUVWXYZ234567");
        }
        Self::with_picks(&picks)
    }

    /// The secret whose characters stand in the secret alphabet at the given
    /// places.
    pub fn with_picks(picks: &Vec<usize>) -> (tfa: Self)
        requires
            forall|i: int| 0 <= i < picks@.len() ==> picks@[i] < 32,
        ensures
            tfa.secret() == secret_of(picks@),
    {
        let alphabet = "ABCDEFGHIJKLMNOPQRSTUVWXYZ234567";
        proof {
            reveal_strlit("ABCDEFGHIJKLMNOPQRSTUVWXYZ234567");
        }
        let mut secret = String::new();
        let mut i: usize = 0;
        while i < picks.len()
            invariant
                i <= picks@.len(),
                alphabet@ == secret_alphabet(),
                alphabet@.len() == 32,
                alphabet.is_ascii(),
                forall|j: int| 0 <= j < picks@.len() ==> picks@[j] < 32,
                secret@ == secret_of(picks@.subrange(0, i as int)),
            decreases picks@.len() - i,
        {
            let p = picks[i];
            let piece = alphabet.substring_ascii(p, p + 1);
            secret.append(piece);
            proof {
                assert(piece@ =~= seq![secret_alphabet()[p as int]]);
                assert(secret@ =~= secret_of(picks@.subrange(0, i + 1)));
            }
            i += 1;
        }
        proof {
            assert(picks@.subrange(0, picks@.len() as int) =~= picks@);
        }
        TwoFactorAuth { secret }
    }

    /// The enrolment address for an authenticator app.
    pub fn generate_qr_code_url(&self, username: &str, issuer: &str) -> (url: String)
        ensures
            url@ == otpauth_url(issuer@, username@, self.secret()),
    {
        let mut url = String::from_str("otpauth://totp/");
        url.append(issuer);
        url.append(":");
        url.append(username);
        url.append("?secret=");
        url.append(self.secret.as_str());
        url.append("&issuer=");
        url.append(issuer);
        url
    }

    /// Whether `token` has the shape of a one-time code.
    pub fn verify_token(&self, token: &str) -> (r: bool)
        ensures
            r == is_code_shaped(token@),
    {
        if token.unicode_len() != 6 {
            return false;
        }
        let mut i: usize = 0;
        while i < 6
            invariant
                token@.len() == 6,
                i <= 6,
                forall|j: int| 0 <= j < i ==> '0' <= #[trigger] token@[j] <= '9',
            decreases 6 - i,
        {
            let c = token.get_char(i);
            if c < '0' || c > '9' {
                return false;
            }
            i += 1;
        }
        true
    }

    /// The secret.
    pub fn get_secret(&self) -> (s: &str)
        ensures
            s@ == self.secret(),
    {
        self.secret.as_str()
    }
}

/// The claims of the token that is issued to a user at time `now` under
/// the token identifier `jti`; nothing where the expiry does not fit the
/// machine's word.
pub open spec fn claims_fit(now: u64, session_timeout: u64) -> bool {
    now + session_timeout <= usize::MAX
}

/// The texts among the claims, with their names.
pub open spec fn claim_texts(c: Claims) -> Seq<(Seq<char>, Seq<char>)> {
    seq![("sub"@, c.sub@), ("username"@, c.username@), ("role"@, c.role@), ("jti"@, c.jti@)]
}

/// The numbers among the claims, with their names.
pub open spec fn claim_numbers(c: Claims) -> Seq<(Seq<char>, u64)> {
    seq![("exp"@, c.exp as u64), ("iat"@, c.iat as u64)]
}

/// The lists among the claims, with their names.
pub open spec fn claim_lists(c: Claims) -> Seq<(Seq<char>, Seq<Seq<char>>)> {
    seq![("groups"@, views_of(c.groups@))]
}

/// The value of the first entry of the given name.
pub open spec fn first_named<V>(entries: Seq<(Seq<char>, V)>, name: Seq<char>) -> Option<V>
    decreases entries.len(),
{
    if entries.len() == 0 {
        None
    } else if entries[0].0 == name {
        Some(entries[0].1)
    } else {
        first_named(entries.drop_first(), name)
    }
}

/// The value of a claim as the token library hands it out: a text, a
/// number that fits 64 bits without a sign, a list of texts, or any other
/// value.
#[derive(Debug, PartialEq, Eq)]
pub enum ClaimValue {
    Text(String),
    Number(u64),
    List(Vec<String>),
    Other,
}

/// What a `ClaimValue` holds.
pub ghost enum ClaimValueView {
    Text(Seq<char>),
    Number(u64),
    List(Seq<Seq<char>>),
    Other,
}

impl View for ClaimValue {
    type V = ClaimValueView;

    open spec fn view(&self) -> ClaimValueView {
        match self {
            ClaimValue::Text(t) => ClaimValueView::Text(t@),
            ClaimValue::Number(n) => ClaimValueView::Number(*n),
            ClaimValue::List(l) => ClaimValueView::List(views_of(l@)),
            ClaimValue::Other => ClaimValueView::Other,
        }
    }
}

/// The claims of a token with their names, in order.
pub open spec fn claim_pairs(v: Seq<(String, ClaimValue)>) -> Seq<(Seq<char>, ClaimValueView)> {
    Seq::new(v.len(), |i: int| (v[i].0@, v[i].1@))
}

/// The claim of the given name, if the token has it and it is a text.
pub open spec fn text_claim(claims: Seq<(Seq<char>, ClaimValueView)>, name: Seq<char>) -> Option<
    Seq<char>,
> {
    match first_named(claims, name) {
        Some(ClaimValueView::Text(t)) => Some(t),
        _ => None,
    }
}

/// The claim of the given name, if the token has it and it is a number
/// that fits the machine's word.
pub open spec fn number_claim(claims: Seq<(Seq<char>, ClaimValueView)>, name: Seq<char>) -> Option<
    usize,
> {
    match first_named(claims, name) {
        Some(ClaimValueView::Number(n)) => if n <= usize::MAX {
            Some(n as usize)
        } else {
            None
        },
        _ => None,
    }
}

/// The claim of the given name, if the token has it and it is a list of
/// texts.
pub open spec fn list_claim(claims: Seq<(Seq<char>, ClaimValueView)>, name: Seq<char>) -> Option<
    Seq<Seq<char>>,
> {
    match first_named(claims, name) {
        Some(ClaimValueView::List(l)) => Some(l),
        _ => None,
    }
}

/// Whether the claims of a token hold all that a session token holds, each
/// in its own shape: user, user name, role and token identifier as texts,
/// expiry and time of issue as numbers, the groups as a list of texts.
/// Claims of other names do not count.
pub open spec fn claims_complete(claims: Seq<(Seq<char>, ClaimValueView)>) -> bool {
    &&& text_claim(claims, "sub"@) is Some
    &&& text_claim(claims, "username"@) is Some
    &&& text_claim(claims, "role"@) is Some
    &&& text_claim(claims, "jti"@) is Some
    &&& number_claim(claims, "exp"@) is Some
    &&& number_claim(claims, "iat"@) is Some
    &&& list_claim(claims, "groups"@) is Some
}

fn find_claim(claims: &Vec<(String, ClaimValue)>, name: &str) -> (r: Option<usize>)
    ensures
        match r {
            Some(i) => i < claims@.len() && first_named(claim_pairs(claims@), name@) == Some(
                claims@[i as int].1@,
            ),
            None => first_named(claim_pairs(claims@), name@) is None,
        },
{
    let ghost all = claim_pairs(claims@);
    let n = claims.len();
    let mut i: usize = 0;
    assert(all.subrange(0, n as int) =~= all);
    while i < n
        invariant
            n == claims@.len(),
            all == claim_pairs(claims@),
            i <= n,
            first_named(all, name@) == first_named(all.subrange(i as int, n as int), name@),
        decreases n - i,
    {
        let ghost rest = all.subrange(i as int, n as int);
        assert(rest[0] == all[i as int]);
        if str_eq(claims[i].0.as_str(), name) {
            return Some(i);
        }
        assert(rest.drop_first() =~= all.subrange(i as int + 1, n as int));
        i += 1;
    }
    None
}

fn find_text(claims: &Vec<(String, ClaimValue)>, name: &str) -> (r: Option<String>)
    ensures
        opt_text(r) == text_claim(claim_pairs(claims@), name@),
{
    match find_claim(claims, name) {
        Some(i) => match &claims[i].1 {
            ClaimValue::Text(t) => Some(t.clone()),
            _ => None,
        },
        None => None,
    }
}

fn find_number(claims: &Vec<(String, ClaimValue)>, name: &str) -> (r: Option<usize>)
    ensures
        r == number_claim(claim_pairs(claims@), name@),
{
    match find_claim(claims, name) {
        Some(i) => match &claims[i].1 {
            ClaimValue::Number(n) => if *n <= usize::MAX as u64 {
                Some(*n as usize)
            } else {
                None
            },
            _ => None,
        },
        None => None,
    }
}

fn find_list(claims: &Vec<(String, ClaimValue)>, name: &str) -> (r: Option<Vec<String>>)
    ensures
        match r {
            Some(l) => list_claim(claim_pairs(claims@), name@) == Some(views_of(l@)),
            None => list_claim(claim_pairs(claims@), name@) is None,
        },
{
    match find_claim(claims, name) {
        Some(i) => match &claims[i].1 {
            ClaimValue::List(l) => Some(clone_strings(l)),
            _ => None,
        },
        None => None,
    }
}

/// The view of an optional text.
pub open spec fn opt_text(t: Option<String>) -> Option<Seq<char>> {
    match t {
        Some(t) => Some(t@),
        None => None,
    }
}

/// The claims of a session token, from the claims that a token holds.
/// Nothing where one is missing or has another shape.
pub fn claims_from_fields(claims: &Vec<(String, ClaimValue)>) -> (r: Option<Claims>)
    ensures
        r is Some <==> claims_complete(claim_pairs(claims@)),
        match r {
            Some(c) => {
                &&& Some(c.sub@) == text_claim(claim_pairs(claims@), "sub"@)
                &&& Some(c.username@) == text_claim(claim_pairs(claims@), "username"@)
                &&& Some(c.role@) == text_claim(claim_pairs(claims@), "role"@)
                &&& Some(c.jti@) == text_claim(claim_pairs(claims@), "jti"@)
                &&& Some(c.exp) == number_claim(claim_pairs(claims@), "exp"@)
                &&& Some(c.iat) == number_claim(claim_pairs(claims@), "iat"@)
                &&& Some(views_of(c.groups@)) == list_claim(claim_pairs(claims@), "groups"@)
            },
            None => true,
        },
{
    let sub = match find_text(claims, "sub") {
        Some(v) => v,
        None => {
            return None;
        },
    };
    let username = match find_text(claims, "username") {
        Some(v) => v,
        None => {
            return None;
        },
    };
    let role = match find_text(claims, "role") {
        Some(v) => v,
        None => {
            return None;
        },
    };
    let jti = match find_text(claims, "jti") {
        Some(v) => v,
        None => {
            return None;
        },
    };
    let exp = match find_number(claims, "exp") {
        Some(v) => v,
        None => {
            return None;
        },
    };
    let iat = match find_number(claims, "iat") {
        Some(v) => v,
        None => {
            return None;
        },
    };
    let groups = match find_list(claims, "groups") {
        Some(v) => v,
        None => {
            return None;
        },
    };
    Some(Claims { sub, username, role, groups, exp, iat, jti })
}

/// The token that is issued at time `now` under the token identifier
/// `jti`, or the reason why none is: the expiry does not fit the machine's
/// word, or the token library reports an error.
pub open spec fn issued_token(
    secret: Seq<char>,
    id: Seq<char>,
    username: Seq<char>,
    role: UserRole,
    groups: Seq<Seq<char>>,
    now: u64,
    session_timeout: u64,
    jti: Seq<char>,
) -> Result<Seq<char>, AuthError> {
    if !claims_fit(now, session_timeout) {
        Err(AuthError::Clock)
    } else {
        match jwt_signed(
            secret,
            seq![("sub"@, id), ("username"@, username), ("role"@, name_of(role)), ("jti"@, jti)],
            seq![("exp"@, (now + session_timeout) as u64), ("iat"@, now)],
            seq![("groups"@, groups)],
        ) {
            Some(token) => Ok(token),
            None => Err(AuthError::Token),
        }
    }
}

/// The characters of a token that was issued, or the reason why none was.
pub open spec fn token_view(r: Result<String, AuthError>) -> Result<Seq<char>, AuthError> {
    match r {
        Ok(token) => Ok(token@),
        Err(e) => Err(e),
    }
}

impl AuthManager {
    /// The claims of the token that is issued to a user at time `now`
    /// under the token identifier `jti`; nothing where the expiry does not
    /// fit the machine's word.
    pub fn claims_for(&self, user: &User, now: u64, jti: String) -> (r: Option<Claims>)
        ensures
            r is Some <==> claims_fit(now, self.session_timeout),
            match r {
                Some(c) => {
                    &&& c.sub@ == user.id@
                    &&& c.username@ == user.username@
                    &&& c.role@ == name_of(user.role)
                    &&& views_of(c.groups@) == views_of(user.groups@)
                    &&& c.exp == now + self.session_timeout
                    &&& c.iat == now
                    &&& c.jti == jti
                },
                None => true,
            },
    {
        let exp = match now.checked_add(self.session_timeout) {
            Some(e) => e,
            None => {
                return None;
            },
        };
        if exp > usize::MAX as u64 {
            return None;
        }
        Some(
            Claims {
                sub: user.id.clone(),
                username: user.username.clone(),
                role: role_name(user.role).to_owned(),
                groups: clone_strings(&user.groups),
                exp: exp as usize,
                iat: now as usize,
                jti,
            },
        )
    }

    /// Signs a token that holds the claims.
    pub fn sign_claims(&self, claims: &Claims) -> (r: Result<String, AuthError>)
        ensures
            match r {
                Ok(token) => jwt_signed(
                    self.jwt_secret@,
                    claim_texts(*claims),
                    claim_numbers(*claims),
                    claim_lists(*claims),
                ) == Some(token@),
                Err(e) => e == AuthError::Token && jwt_signed(
                    self.jwt_secret@,
                    claim_texts(*claims),
                    claim_numbers(*claims),
                    claim_lists(*claims),
                ) is None,
            },
    {
        let mut texts: Vec<(String, String)> = Vec::new();
        texts.push(("sub".to_string(), claims.sub.clone()));
        texts.push(("username".to_string(), claims.username.clone()));
        texts.push(("role".to_string(), claims.role.clone()));
        texts.push(("jti".to_string(), claims.jti.clone()));
        let mut numbers: Vec<(String, u64)> = Vec::new();
        numbers.push(("exp".to_string(), claims.exp as u64));
        numbers.push(("iat".to_string(), claims.iat as u64));
        let mut lists: Vec<(String, Vec<String>)> = Vec::new();
        lists.push(("groups".to_string(), clone_strings(&claims.groups)));
        proof {
            assert(text_pairs(texts@) =~= claim_texts(*claims));
            assert(number_pairs(numbers@) =~= claim_numbers(*claims));
            assert(list_pairs(lists@) =~= claim_lists(*claims));
        }
        match jwt_encode(self.jwt_secret.as_str(), &texts, &numbers, &lists) {
            Some(token) => Ok(token),
            None => Err(AuthError::Token),
        }
    }

    /// The token that is issued to a user at time `now` under the token
    /// identifier `jti`.
    pub fn generate_jwt_at(&self, user: &User, now: u64, jti: String) -> (r: Result<
        String,
        AuthError,
    >)
        ensures
            match r {
                Ok(token) => issued_token(
                    self.jwt_secret@,
                    user.id@,
                    user.username@,
                    user.role,
                    views_of(user.groups@),
                    now,
                    self.session_timeout,
                    jti@,
                ) == Ok::<Seq<char>, AuthError>(token@),
                Err(e) => issued_token(
                    self.jwt_secret@,
                    user.id@,
                    user.username@,
                    user.role,
                    views_of(user.groups@),
                    now,
                    self.session_timeout,
                    jti@,
                ) == Err::<Seq<char>, AuthError>(e),
            },
    {
        match self.claims_for(user, now, jti) {
            Some(claims) => self.sign_claims(&claims),
            None => Err(AuthError::Clock),
        }
    }

    /// A token for the user, issued at the time of the call under a new
    /// random token identifier: the token that is issued to the user at
    /// some time under some identifier, or the reason why none is.
    pub fn generate_jwt(&self, user: &User) -> (r: Result<String, AuthError>)
        ensures
            exists|now: u64, jti: Seq<char>|
                token_view(r) == #[trigger] issued_token(
                    self.jwt_secret@,
                    user.id@,
                    user.username@,
                    user.role,
                    views_of(user.groups@),
                    now,
                    self.session_timeout,
                    jti,
                ),
    {
        let now = unix_time_now();
        let jti = new_uuid_v4();
        let ghost id = jti@;
        let r = self.generate_jwt_at(user, now, jti);
        assert(token_view(r) == issued_token(
            self.jwt_secret@,
            user.id@,
            user.username@,
            user.role,
            views_of(user.groups@),
            now,
            self.session_timeout,
            id,
        ));
        r
    }

    /// The claims of a token, if the token stands at the time of the call
    /// and holds all the claims of a session token, each in its own shape.
    pub fn verify_jwt(&self, token: &str) -> (r: Result<Claims, AuthError>)
        ensures
            r matches Err(e) ==> e == AuthError::Token,
    {
        match jwt_decode(self.jwt_secret.as_str(), token) {
            Some(fields) => match claims_from_fields(&fields) {
                Some(claims) => Ok(claims),
                None => Err(AuthError::Token),
            },
            None => Err(AuthError::Token),
        }
    }
}

} // verus!
