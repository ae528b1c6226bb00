//! The records that the storage service keeps, and the rules by which they
//! are written to and read from their stored form.

use vstd::prelude::*;
use crate::auth::{User, UserRole};
use crate::boundary::{
    json_of_texts, parse_usize, parsed_usize, texts_from_json, texts_of_json, texts_to_json,
};
use crate::text::{str_eq, views_of};

verus! {

/// Where the connection pool finds the database.
#[derive(Debug, Clone, PartialEq, Eq)]
pub struct DbPool {
    pub url: String,
}

/// One line of the audit trail. `timestamp` is in seconds since the Unix
/// epoch.
#[derive(Debug, PartialEq, Eq)]
pub struct AuditLog {
    pub id: i64,
    pub user_id: String,
    pub device_id: String,
    pub action: String,
    pub details: Option<String>,
    pub ip_address: String,
    pub user_agent: Option<String>,
    pub timestamp: u64,
    pub success: bool,
}

/// What an `AuditLog` holds.
pub ghost struct AuditLogView {
    pub id: i64,
    pub user_id: Seq<char>,
    pub device_id: Seq<char>,
    pub action: Seq<char>,
    pub details: Option<Seq<char>>,
    pub ip_address: Seq<char>,
    pub user_agent: Option<Seq<char>>,
    pub timestamp: u64,
    pub success: bool,
}

/// The view of an optional string.
pub open spec fn opt_view(s: Option<String>) -> Option<Seq<char>> {
    match s {
        Some(s) => Some(s@),
        None => None,
    }
}

impl View for AuditLog {
    type V = AuditLogView;

    open spec fn view(&self) -> AuditLogView {
        AuditLogView {
            id: self.id,
            user_id: self.user_id@,
            device_id: self.device_id@,
            action: self.action@,
            details: opt_view(self.details),
            ip_address: self.ip_address@,
            user_agent: opt_view(self.user_agent),
            timestamp: self.timestamp,
            success: self.success,
        }
    }
}

/// What is known of a device. `last_online` is in seconds since the Unix
/// epoch.
#[derive(Debug, PartialEq, Eq)]
pub struct DeviceInfo {
    pub id: String,
    pub name: String,
    pub os: String,
    pub version: String,
    pub ip_address: String,
    pub mac_address: Option<String>,
    pub last_online: u64,
    pub owner_id: String,
    pub group_ids: Vec<String>,
    pub enabled: bool,
    pub tags: Vec<String>,
}

/// What a `DeviceInfo` holds.
pub ghost struct DeviceInfoView {
    pub id: Seq<char>,
    pub name: Seq<char>,
    pub os: Seq<char>,
    pub version: Seq<char>,
    pub ip_address: Seq<char>,
    pub mac_address: Option<Seq<char>>,
    pub last_online: u64,
    pub owner_id: Seq<char>,
    pub group_ids: Seq<Seq<char>>,
    pub enabled: bool,
    pub tags: Seq<Seq<char>>,
}

impl View for DeviceInfo {
    type V = DeviceInfoView;

    open spec fn view(&self) -> DeviceInfoView {
        DeviceInfoView {
            id: self.id@,
            name: self.name@,
            os: self.os@,
            version: self.version@,
            ip_address: self.ip_address@,
            mac_address: opt_view(self.mac_address),
            last_online: self.last_online,
            owner_id: self.owner_id@,
            group_ids: views_of(self.group_ids@),
            enabled: self.enabled,
            tags: views_of(self.tags@),
        }
    }
}

/// The role that a stored role name stands for. A name that is none of the
/// four stands for `User`.
pub open spec fn role_of(name: Seq<char>) -> UserRole {
    if name == "SuperAdmin"@ {
        UserRole::SuperAdmin
    } else if name == "Admin"@ {
        UserRole::Admin
    } else if name == "ReadOnly"@ {
        UserRole::ReadOnly
    } else {
        UserRole::User
    }
}

/// The role that a stored role name stands for.
pub fn role_from_name(name: &str) -> (role: UserRole)
    ensures
        role == role_of(name@),
{
    if str_eq(name, "SuperAdmin") {
        UserRole::SuperAdmin
    } else if str_eq(name, "Admin") {
        UserRole::Admin
    } else if str_eq(name, "ReadOnly") {
        UserRole::ReadOnly
    } else {
        UserRole::User
    }
}

/// The name under which a role is stored.
pub open spec fn name_of(role: UserRole) -> Seq<char> {
    match role {
        UserRole::SuperAdmin => "SuperAdmin"@,
        UserRole::Admin => "Admin"@,
        UserRole::User => "User"@,
        UserRole::ReadOnly => "ReadOnly"@,
    }
}

/// The name under which a role is stored.
pub fn role_name(role: UserRole) -> (name: &'static str)
    ensures
        name@ == name_of(role),
{
    match role {
        UserRole::SuperAdmin => "SuperAdmin",
        UserRole::Admin => "Admin",
        UserRole::User => "User",
        UserRole::ReadOnly => "ReadOnly",
    }
}

/// A role's stored name reads back as the role.
pub proof fn lemma_role_name_round_trip(role: UserRole)
    ensures
        role_of(name_of(role)) == role,
{
    reveal_strlit("SuperAdmin");
    reveal_strlit("Admin");
    reveal_strlit("User");
    reveal_strlit("ReadOnly");
    assert("SuperAdmin"@.len() == 10);
    assert("Admin"@.len() == 5);
    assert("User"@.len() == 4);
    assert("ReadOnly"@.len() == 8);
}

/// How many connections the pool opens where nothing else is said.
pub const DEFAULT_MAX_CONNECTIONS: usize = 10;

/// How many connections the pool opens, from the setting where it is set:
/// the number that it names, or 10 where it is not set or names none.
pub fn max_connections(setting: Option<&str>) -> (n: usize)
    ensures
        n == match setting {
            Some(s) => match parsed_usize(s@) {
                Some(v) => v,
                None => DEFAULT_MAX_CONNECTIONS,
            },
            None => DEFAULT_MAX_CONNECTIONS,
        },
{
    match setting {
        Some(s) => match parse_usize(s) {
            Some(v) => v,
            None => DEFAULT_MAX_CONNECTIONS,
        },
        None => DEFAULT_MAX_CONNECTIONS,
    }
}

/// A time as storage holds it: seconds since the Unix epoch as a signed
/// number, held at the largest one.
pub open spec fn stored_time(t: u64) -> i64 {
    if t <= i64::MAX {
        t as i64
    } else {
        i64::MAX
    }
}

/// A stored time as the server holds it; a time before the epoch counts as
/// the epoch.
pub open spec fn loaded_time(t: i64) -> u64 {
    if t >= 0 {
        t as u64
    } else {
        0
    }
}

/// A time as storage holds it.
pub fn to_stored_time(t: u64) -> (s: i64)
    ensures
        s == stored_time(t),
{
    if t <= i64::MAX as u64 {
        t as i64
    } else {
        i64::MAX
    }
}

/// A stored time as the server holds it.
pub fn from_stored_time(t: i64) -> (s: u64)
    ensures
        s == loaded_time(t),
{
    if t >= 0 {
        t as u64
    } else {
        0
    }
}

/// A time goes to storage and comes back unchanged, as far as storage can
/// hold it.
pub proof fn lemma_time_round_trip(t: u64)
    requires
        t <= i64::MAX,
    ensures
        loaded_time(stored_time(t)) == t,
{
}

/// An account as a row of the table of users.
#[derive(Debug, PartialEq, Eq)]
pub struct UserRow {
    pub id: String,
    pub username: String,
    pub password_hash: String,
    pub email: Option<String>,
    pub role: String,
    /// The groups, as a JSON list.
    pub groups: String,
    pub enabled: bool,
    pub created_at: i64,
    pub last_login: Option<i64>,
    pub failed_login_attempts: i64,
    pub locked_until: Option<i64>,
    pub two_factor_enabled: bool,
    pub two_factor_secret: Option<String>,
}

/// Why a record could not be written.
#[derive(Debug, Clone, Copy, PartialEq, Eq, Structural)]
pub enum DatabaseError {
    /// A list could not be written as JSON.
    Encoding,
}

/// The row that is written for a new account: the times and the lock are
/// left to the table's defaults.
pub fn user_to_row(user: &User) -> (r: Result<UserRow, DatabaseError>)
    ensures
        match r {
            Ok(row) => {
                &&& json_of_texts(views_of(user.groups@)) == Some(row.groups@)
                &&& row.id@ == user.id@
                &&& row.username@ == user.username@
                &&& row.password_hash@ == user.password_hash@
                &&& opt_view(row.email) == opt_view(user.email)
                &&& row.role@ == name_of(user.role)
                &&& row.enabled == user.enabled
                &&& row.created_at == stored_time(user.created_at)
                &&& row.last_login is None
                &&& row.failed_login_attempts == user.failed_login_attempts
                &&& row.locked_until is None
                &&& row.two_factor_enabled == user.two_factor_enabled
                &&& opt_view(row.two_factor_secret) == opt_view(user.two_factor_secret)
            },
            Err(e) => json_of_texts(views_of(user.groups@)) is None,
        },
{
    let groups = match texts_to_json(&user.groups) {
        Some(g) => g,
        None => {
            return Err(DatabaseError::Encoding);
        },
    };
    Ok(
        UserRow {
            id: user.id.clone(),
            username: user.username.clone(),
            password_hash: user.password_hash.clone(),
            email: clone_opt(&user.email),
            role: role_name(user.role).to_owned(),
            groups,
            enabled: user.enabled,
            created_at: to_stored_time(user.created_at),
            last_login: None,
            failed_login_attempts: user.failed_login_attempts as i64,
            locked_until: None,
            two_factor_enabled: user.two_factor_enabled,
            two_factor_secret: clone_opt(&user.two_factor_secret),
        },
    )
}

/// A copy of an optional string.
pub fn clone_opt(s: &Option<String>) -> (r: Option<String>)
    ensures
        r == *s,
{
    match s {
        Some(v) => Some(v.clone()),
        None => None,
    }
}

/// The time that a stored time stands for, where one is stored.
pub open spec fn loaded_opt_time(t: Option<i64>) -> Option<u64> {
    match t {
        Some(v) => Some(loaded_time(v)),
        None => None,
    }
}

/// The count of failed logins that a stored count stands for: a count
/// that does not fit is held at the nearest one that does.
pub open spec fn loaded_count(n: i64) -> u32 {
    if n < 0 {
        0
    } else if n > u32::MAX {
        u32::MAX
    } else {
        n as u32
    }
}

/// The account that a row of the table of users stands for. A role of an
/// unknown name is `User`; groups that are no JSON list are no groups.
pub fn user_from_row(row: UserRow) -> (user: User)
    ensures
        user.id == row.id,
        user.username == row.username,
        user.password_hash == row.password_hash,
        user.email == row.email,
        user.role == role_of(row.role@),
        views_of(user.groups@) == match texts_of_json(row.groups@) {
            Some(g) => g,
            None => Seq::<Seq<char>>::empty(),
        },
        user.enabled == row.enabled,
        user.created_at == loaded_time(row.created_at),
        user.last_login == loaded_opt_time(row.last_login),
        user.failed_login_attempts == loaded_count(row.failed_login_attempts),
        user.locked_until == loaded_opt_time(row.locked_until),
        user.two_factor_enabled == row.two_factor_enabled,
        user.two_factor_secret == row.two_factor_secret,
{
    let role = role_from_name(row.role.as_str());
    let groups = match texts_from_json(row.groups.as_str()) {
        Some(g) => g,
        None => {
            let g: Vec<String> = Vec::new();
            assert(views_of(g@) =~= Seq::<Seq<char>>::empty());
            g
        },
    };
    User {
        id: row.id,
        username: row.username,
        password_hash: row.password_hash,
        email: row.email,
        role,
        groups,
        enabled: row.enabled,
        created_at: from_stored_time(row.created_at),
        last_login: match row.last_login {
            Some(t) => Some(from_stored_time(t)),
            None => None,
        },
        failed_login_attempts: if row.failed_login_attempts < 0 {
            0
        } else if row.failed_login_attempts > u32::MAX as i64 {
            u32::MAX
        } else {
            row.failed_login_attempts as u32
        },
        locked_until: match row.locked_until {
            Some(t) => Some(from_stored_time(t)),
            None => None,
        },
        two_factor_enabled: row.two_factor_enabled,
        two_factor_secret: row.two_factor_secret,
    }
}

/// The account that every installation starts with, under the identifier
/// `id` at time `now`, with the hash of its first password.
pub fn default_admin(id: String, password_hash: String, now: u64) -> (user: User)
    ensures
        user.id == id,
        user.username@ == "admin"@,
        user.password_hash == password_hash,
        user.email matches Some(e) && e@ == "admin@rustdesk.local"@,
        user.role == UserRole::SuperAdmin,
        views_of(user.groups@) == seq!["administrators"@],
        user.enabled,
        user.created_at == now,
        user.last_login is None,
        user.failed_login_attempts == 0,
        user.locked_until is None,
        !user.two_factor_enabled,
        user.two_factor_secret is None,
{
    let mut groups: Vec<String> = Vec::new();
    groups.push("administrators".to_string());
    assert(views_of(groups@) =~= seq!["administrators"@]);
    User {
        id,
        username: "admin".to_string(),
        password_hash,
        email: Some("admin@rustdesk.local".to_string()),
        role: UserRole::SuperAdmin,
        groups,
        enabled: true,
        created_at: now,
        last_login: None,
        failed_login_attempts: 0,
        locked_until: None,
        two_factor_enabled: false,
        two_factor_secret: None,
    }
}

/// The first password of the account that every installation starts with.
pub fn default_admin_password() -> (p: &'static str)
    ensures
        p@ == "admin123"@,
{
    "admin123"
}

/// What a login at time `now` does to an account: one that succeeded is
/// noted as the last, and clears the count of failures and the lock; one
/// that failed is counted.
pub fn update_user_login_info(user: &mut User, success: bool, now: u64)
    ensures
        *final(user) == if success {
            User {
                last_login: Some(loaded_time(stored_time(now))),
                failed_login_attempts: 0,
                locked_until: None,
                ..*old(user)
            }
        } else {
            User {
                failed_login_attempts: if old(user).failed_login_attempts < u32::MAX {
                    (old(user).failed_login_attempts + 1) as u32
                } else {
                    u32::MAX
                },
                ..*old(user)
            }
        },
{
    if success {
        user.last_login = Some(from_stored_time(to_stored_time(now)));
        user.failed_login_attempts = 0;
        user.locked_until = None;
    } else if user.failed_login_attempts < u32::MAX {
        user.failed_login_attempts = user.failed_login_attempts + 1;
    }
}

/// The selection of lines of the audit trail, by what the lines are
/// picked: by user, by device, by both, or by neither.
#[derive(Debug, Clone, Copy, PartialEq, Eq, Structural)]
pub enum AuditSelection {
    ByUserAndDevice,
    ByUser,
    ByDevice,
    All,
}

/// The selection for a query with or without a user and a device.
pub fn audit_selection(user_id: Option<&str>, device_id: Option<&str>) -> (s: AuditSelection)
    ensures
        s == match (user_id, device_id) {
            (Some(_), Some(_)) => AuditSelection::ByUserAndDevice,
            (Some(_), None) => AuditSelection::ByUser,
            (None, Some(_)) => AuditSelection::ByDevice,
            (None, None) => AuditSelection::All,
        },
{
    match (user_id, device_id) {
        (Some(_), Some(_)) => AuditSelection::ByUserAndDevice,
        (Some(_), None) => AuditSelection::ByUser,
        (None, Some(_)) => AuditSelection::ByDevice,
        (None, None) => AuditSelection::All,
    }
}

impl AuditSelection {
    /// The statement that reads the selection, newest line first, a page
    /// at a time.
    pub fn statement(&self) -> (sql: &'static str)
        ensures
            sql@ == match *self {
                AuditSelection::ByUserAndDevice => "SELECT * FROM audit_logs WHERE user_id = ? AND device_id = ? ORDER BY timestamp DESC LIMIT ? OFFSET ?"@,
                AuditSelection::ByUser => "SELECT * FROM audit_logs WHERE user_id = ? ORDER BY timestamp DESC LIMIT ? OFFSET ?"@,
                AuditSelection::ByDevice => "SELECT * FROM audit_logs WHERE device_id = ? ORDER BY timestamp DESC LIMIT ? OFFSET ?"@,
                AuditSelection::All => "SELECT * FROM audit_logs ORDER BY timestamp DESC LIMIT ? OFFSET ?"@,
            },
    {
        match self {
            AuditSelection::ByUserAndDevice => "SELECT * FROM audit_logs WHERE user_id = ? AND device_id = ? ORDER BY timestamp DESC LIMIT ? OFFSET ?",
            AuditSelection::ByUser => "SELECT * FROM audit_logs WHERE user_id = ? ORDER BY timestamp DESC LIMIT ? OFFSET ?",
            AuditSelection::ByDevice => "SELECT * FROM audit_logs WHERE device_id = ? ORDER BY timestamp DESC LIMIT ? OFFSET ?",
            AuditSelection::All => "SELECT * FROM audit_logs ORDER BY timestamp DESC LIMIT ? OFFSET ?",
        }
    }
}

/// A device as a row of the table of devices.
#[derive(Debug, PartialEq, Eq)]
pub struct DeviceRow {
    pub id: String,
    pub name: String,
    pub os: String,
    pub version: String,
    pub ip_address: String,
    pub mac_address: Option<String>,
    pub last_online: i64,
    pub owner_id: String,
    /// The groups, as a JSON list.
    pub group_ids: String,
    pub enabled: bool,
    /// The tags, as a JSON list.
    pub tags: String,
}

/// The row that is written for a device.
pub fn device_to_row(device: &DeviceInfo) -> (r: Result<DeviceRow, DatabaseError>)
    ensures
        match r {
            Ok(row) => {
                &&& json_of_texts(views_of(device.group_ids@)) == Some(row.group_ids@)
                &&& json_of_texts(views_of(device.tags@)) == Some(row.tags@)
                &&& row.id@ == device.id@
                &&& row.name@ == device.name@
                &&& row.os@ == device.os@
                &&& row.version@ == device.version@
                &&& row.ip_address@ == device.ip_address@
                &&& opt_view(row.mac_address) == opt_view(device.mac_address)
                &&& row.last_online == stored_time(device.last_online)
                &&& row.owner_id@ == device.owner_id@
                &&& row.enabled == device.enabled
            },
            Err(e) => json_of_texts(views_of(device.group_ids@)) is None || json_of_texts(
                views_of(device.tags@),
            ) is None,
        },
{
    let group_ids = match texts_to_json(&device.group_ids) {
        Some(g) => g,
        None => {
            return Err(DatabaseError::Encoding);
        },
    };
    let tags = match texts_to_json(&device.tags) {
        Some(t) => t,
        None => {
            return Err(DatabaseError::Encoding);
        },
    };
    Ok(
        DeviceRow {
            id: device.id.clone(),
            name: device.name.clone(),
            os: device.os.clone(),
            version: device.version.clone(),
            ip_address: device.ip_address.clone(),
            mac_address: clone_opt(&device.mac_address),
            last_online: to_stored_time(device.last_online),
            owner_id: device.owner_id.clone(),
            group_ids,
            enabled: device.enabled,
            tags,
        },
    )
}

/// The device that a row of the table of devices stands for. Groups and
/// tags that are no JSON list are none.
pub fn device_from_row(row: DeviceRow) -> (device: DeviceInfo)
    ensures
        device.id == row.id,
        device.name == row.name,
        device.os == row.os,
        device.version == row.version,
        device.ip_address == row.ip_address,
        device.mac_address == row.mac_address,
        device.last_online == loaded_time(row.last_online),
        device.owner_id == row.owner_id,
        views_of(device.group_ids@) == match texts_of_json(row.group_ids@) {
            Some(g) => g,
            None => Seq::<Seq<char>>::empty(),
        },
        device.enabled == row.enabled,
        views_of(device.tags@) == match texts_of_json(row.tags@) {
            Some(g) => g,
            None => Seq::<Seq<char>>::empty(),
        },
{
    let group_ids = match texts_from_json(row.group_ids.as_str()) {
        Some(g) => g,
        None => {
            let g: Vec<String> = Vec::new();
            assert(views_of(g@) =~= Seq::<Seq<char>>::empty());
            g
        },
    };
    let tags = match texts_from_json(row.tags.as_str()) {
        Some(g) => g,
        None => {
            let g: Vec<String> = Vec::new();
            assert(views_of(g@) =~= Seq::<Seq<char>>::empty());
            g
        },
    };
    DeviceInfo {
        id: row.id,
        name: row.name,
        os: row.os,
        version: row.version,
        ip_address: row.ip_address,
        mac_address: row.mac_address,
        last_online: from_stored_time(row.last_online),
        owner_id: row.owner_id,
        group_ids,
        enabled: row.enabled,
        tags,
    }
}

} // verus!
