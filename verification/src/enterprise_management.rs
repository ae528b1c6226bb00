//! Groups of users and of devices, what their members may do, and the
//! sessions that are open under them. Times are in seconds since the Unix
//! epoch, durations in seconds.

use vstd::prelude::*;
use crate::auth::{User, UserRole};
use crate::boundary::{
    cidr_contains, ip_in_cidr, local_hour_minute_now, lowercase_of, new_uuid_v4, to_lowercase,
    utc_weekday_now,
};
use crate::enterprise_database::DeviceInfo;
use crate::text::{
    contains_str, contains_substring, first_index, lemma_first_index_is,
    occurs_in, str_eq, views_of, without, without_str,
};

verus! {

/// A group of users.
#[derive(Debug, Clone, PartialEq, Eq)]
pub struct UserGroup {
    pub id: String,
    pub name: String,
    pub description: Option<String>,
    pub created_by: String,
    pub created_at: u64,
    pub updated_at: u64,
    /// The identifiers of the users in the group.
    pub members: Vec<String>,
    pub permissions: GroupPermissions,
    pub device_access: DeviceAccess,
    pub enabled: bool,
}

/// What the members of a user group may do.
#[derive(Debug, Clone, PartialEq, Eq)]
pub struct GroupPermissions {
    pub can_manage_users: bool,
    pub can_manage_groups: bool,
    pub can_manage_devices: bool,
    pub can_view_audit_logs: bool,
    pub can_manage_settings: bool,
    pub can_control_devices: bool,
    pub can_view_screens: bool,
    pub can_transfer_files: bool,
    pub can_use_clipboard: bool,
    pub can_use_audio: bool,
    pub can_record_sessions: bool,
    pub max_file_size: u64,
    pub allowed_file_types: Vec<String>,
    pub blocked_file_types: Vec<String>,
    pub can_upload: bool,
    pub can_download: bool,
    pub can_sync_folders: bool,
    pub session_timeout: Option<u64>,
    pub daily_time_limit: Option<u64>,
    pub allowed_hours: Option<TimeRange>,
    /// The days of the week on which access is allowed, Sunday being 0;
    /// empty for every day.
    pub allowed_days: Vec<u8>,
}

/// A span of the day, from a start to an end, each an hour (0 to 23) and a
/// minute (0 to 59). A span whose start lies after its end runs over
/// midnight.
#[derive(Debug, Clone, Copy, PartialEq, Eq, Structural)]
pub struct TimeRange {
    pub start_hour: u8,
    pub start_minute: u8,
    pub end_hour: u8,
    pub end_minute: u8,
}

/// The devices that the members of a user group may reach.
#[derive(Debug, Clone, PartialEq, Eq)]
pub struct DeviceAccess {
    pub access_type: AccessType,
    pub device_groups: Vec<String>,
    pub specific_devices: Vec<String>,
    pub excluded_devices: Vec<String>,
    pub ip_restrictions: Vec<IpRestriction>,
}

/// How the devices that a group may reach are named.
#[derive(Debug, Clone, Copy, PartialEq, Eq, Structural)]
pub enum AccessType {
    /// Every device but the excluded ones.
    All,
    /// The devices of the named device groups.
    GroupOnly,
    /// The devices named one by one.
    SpecificOnly,
    /// Every device but the excluded ones.
    Restricted,
}

/// A range of addresses, in CIDR notation, that is allowed or denied.
#[derive(Debug, Clone, PartialEq, Eq)]
pub struct IpRestriction {
    pub ip_range: String,
    pub allow: bool,
}

/// A group of devices.
#[derive(Debug, Clone, PartialEq, Eq)]
pub struct DeviceGroup {
    pub id: String,
    pub name: String,
    pub description: Option<String>,
    pub created_by: String,
    pub created_at: u64,
    pub updated_at: u64,
    /// The identifiers of the devices in the group.
    pub devices: Vec<String>,
    pub parent_group: Option<String>,
    pub child_groups: Vec<String>,
    pub tags: Vec<String>,
    pub auto_assignment_rules: Vec<AutoAssignmentRule>,
    pub monitoring_settings: MonitoringSettings,
}

/// A rule by which a device is put into a group by itself.
#[derive(Debug, Clone, PartialEq, Eq)]
pub struct AutoAssignmentRule {
    pub rule_type: RuleType,
    pub condition: String,
    pub value: String,
}

/// What a rule looks at.
#[derive(Debug, Clone, Copy, PartialEq, Eq, Structural)]
pub enum RuleType {
    IpRange,
    Hostname,
    Os,
    Tag,
    Owner,
}

/// How a device group is watched.
#[derive(Debug, Clone, PartialEq, Eq)]
pub struct MonitoringSettings {
    pub enable_monitoring: bool,
    pub alert_on_offline: bool,
    pub offline_threshold_minutes: u32,
    pub alert_on_unauthorized_access: bool,
    pub alert_recipients: Vec<String>,
}

/// A permission that the system knows.
#[derive(Debug, Clone, PartialEq, Eq)]
pub struct Permission {
    pub id: String,
    pub name: String,
    pub description: String,
    pub category: PermissionCategory,
    pub required_role: UserRole,
}

/// What a permission is about.
#[derive(Debug, Clone, Copy, PartialEq, Eq, Structural)]
pub enum PermissionCategory {
    System,
    Device,
    User,
    Audit,
    FileTransfer,
    Session,
}

/// A user's request for access to a device.
#[derive(Debug, Clone, PartialEq, Eq)]
pub struct AccessRequest {
    pub id: String,
    pub user_id: String,
    pub device_id: String,
    pub requested_permissions: Vec<String>,
    pub reason: Option<String>,
    pub requested_at: u64,
    pub expires_at: Option<u64>,
    pub status: RequestStatus,
    pub approved_by: Option<String>,
    pub approved_at: Option<u64>,
}

/// Where a request for access stands.
#[derive(Debug, Clone, Copy, PartialEq, Eq, Structural)]
pub enum RequestStatus {
    Pending,
    Approved,
    Rejected,
    Expired,
}

/// An open session of a user on a device.
#[derive(Debug, Clone, PartialEq, Eq)]
pub struct SessionInfo {
    pub session_id: String,
    pub user_id: String,
    pub device_id: String,
    pub start_time: u64,
    pub last_activity: u64,
    pub permissions: Vec<String>,
    pub ip_address: String,
}

/// Why a change to the groups was turned down.
#[derive(Debug, Clone, Copy, PartialEq, Eq, Structural)]
pub enum ManagementError {
    GroupNameExists,
    GroupHasMembers,
    GroupNotFound,
    DeviceGroupNameExists,
    DeviceGroupNotFound,
}

impl ManagementError {
    /// The error in words.
    pub fn message(&self) -> (m: &'static str)
        ensures
            m@ == match *self {
                ManagementError::GroupNameExists => "Group name already exists"@,
                ManagementError::GroupHasMembers => "Cannot delete group with members"@,
                ManagementError::GroupNotFound => "Group not found"@,
                ManagementError::DeviceGroupNameExists => "Device group name already exists"@,
                ManagementError::DeviceGroupNotFound => "Device group not found"@,
            },
    {
        match self {
            ManagementError::GroupNameExists => "Group name already exists",
            ManagementError::GroupHasMembers => "Cannot delete group with members",
            ManagementError::GroupNotFound => "Group not found",
            ManagementError::DeviceGroupNameExists => "Device group name already exists",
            ManagementError::DeviceGroupNotFound => "Device group not found",
        }
    }
}

/// The groups, permissions, requests and sessions that the management layer
/// holds in memory. A group is found by its identifier; where several
/// entries carry the same one, the first counts.
pub struct EnterpriseManager {
    pub user_groups: Vec<UserGroup>,
    pub device_groups: Vec<DeviceGroup>,
    pub permissions: Vec<Permission>,
    pub access_requests: Vec<AccessRequest>,
    pub active_sessions: Vec<SessionInfo>,
}

/// The identifiers of the user groups, in order.
pub open spec fn user_group_ids(groups: Seq<UserGroup>) -> Seq<Seq<char>> {
    Seq::new(groups.len(), |i: int| groups[i].id@)
}

/// The names of the user groups, in order.
pub open spec fn user_group_names(groups: Seq<UserGroup>) -> Seq<Seq<char>> {
    Seq::new(groups.len(), |i: int| groups[i].name@)
}

/// The identifiers of the device groups, in order.
pub open spec fn device_group_ids(groups: Seq<DeviceGroup>) -> Seq<Seq<char>> {
    Seq::new(groups.len(), |i: int| groups[i].id@)
}

/// The names of the device groups, in order.
pub open spec fn device_group_names(groups: Seq<DeviceGroup>) -> Seq<Seq<char>> {
    Seq::new(groups.len(), |i: int| groups[i].name@)
}

/// The identifiers of the sessions, in order.
pub open spec fn session_ids(sessions: Seq<SessionInfo>) -> Seq<Seq<char>> {
    Seq::new(sessions.len(), |i: int| sessions[i].session_id@)
}

/// The identifiers of the permissions, in order.
pub open spec fn permission_ids(permissions: Seq<Permission>) -> Seq<Seq<char>> {
    Seq::new(permissions.len(), |i: int| permissions[i].id@)
}

/// The user groups with `group` put under its identifier: in place of the
/// group that had it, or at the end.
pub open spec fn put_user_group(groups: Seq<UserGroup>, group: UserGroup) -> Seq<UserGroup> {
    let i = first_index(user_group_ids(groups), group.id@);
    if i < groups.len() {
        groups.update(i, group)
    } else {
        groups.push(group)
    }
}

/// The device groups with `group` put under its identifier.
pub open spec fn put_device_group(groups: Seq<DeviceGroup>, group: DeviceGroup) -> Seq<
    DeviceGroup,
> {
    let i = first_index(device_group_ids(groups), group.id@);
    if i < groups.len() {
        groups.update(i, group)
    } else {
        groups.push(group)
    }
}

/// The sessions with `session` put under its identifier.
pub open spec fn put_session(sessions: Seq<SessionInfo>, session: SessionInfo) -> Seq<
    SessionInfo,
> {
    let i = first_index(session_ids(sessions), session.session_id@);
    if i < sessions.len() {
        sessions.update(i, session)
    } else {
        sessions.push(session)
    }
}

/// The permissions with `permission` put under its identifier.
pub open spec fn put_permission(permissions: Seq<Permission>, permission: Permission) -> Seq<
    Permission,
> {
    let i = first_index(permission_ids(permissions), permission.id@);
    if i < permissions.len() {
        permissions.update(i, permission)
    } else {
        permissions.push(permission)
    }
}

/// Whether a group grants the permission of the given name.
pub open spec fn group_grants(p: GroupPermissions, permission: Seq<char>) -> bool {
    if permission == "manage_users"@ {
        p.can_manage_users
    } else if permission == "manage_groups"@ {
        p.can_manage_groups
    } else if permission == "manage_devices"@ {
        p.can_manage_devices
    } else if permission == "view_audit_logs"@ {
        p.can_view_audit_logs
    } else if permission == "manage_settings"@ {
        p.can_manage_settings
    } else if permission == "control_devices"@ {
        p.can_control_devices
    } else if permission == "view_screens"@ {
        p.can_view_screens
    } else if permission == "transfer_files"@ {
        p.can_transfer_files
    } else if permission == "use_clipboard"@ {
        p.can_use_clipboard
    } else if permission == "use_audio"@ {
        p.can_use_audio
    } else if permission == "record_sessions"@ {
        p.can_record_sessions
    } else {
        false
    }
}

/// Whether one of the device groups named in `allowed` holds the device.
pub open spec fn in_allowed_groups(
    device_groups: Seq<DeviceGroup>,
    device_id: Seq<char>,
    allowed: Seq<Seq<char>>,
) -> bool {
    exists|k: int|
        0 <= k < allowed.len() && group_holds_device(device_groups, #[trigger] allowed[k], device_id)
}

/// Whether the device group with the given identifier holds the device.
pub open spec fn group_holds_device(
    device_groups: Seq<DeviceGroup>,
    group_id: Seq<char>,
    device_id: Seq<char>,
) -> bool {
    let i = first_index(device_group_ids(device_groups), group_id);
    i < device_groups.len() && views_of(device_groups[i].devices@).contains(device_id)
}

/// Whether the members of a user group may reach the device.
pub open spec fn device_reachable(
    access: DeviceAccess,
    device_groups: Seq<DeviceGroup>,
    device_id: Seq<char>,
) -> bool {
    match access.access_type {
        AccessType::All => !views_of(access.excluded_devices@).contains(device_id),
        AccessType::SpecificOnly => views_of(access.specific_devices@).contains(device_id),
        AccessType::GroupOnly => in_allowed_groups(
            device_groups,
            device_id,
            views_of(access.device_groups@),
        ),
        AccessType::Restricted => !views_of(access.excluded_devices@).contains(device_id),
    }
}

/// Whether a group of which the user is a member grants the permission,
/// for the device where one is named.
pub open spec fn group_permits(
    group: UserGroup,
    device_groups: Seq<DeviceGroup>,
    user_id: Seq<char>,
    permission: Seq<char>,
    device_id: Option<Seq<char>>,
) -> bool {
    &&& views_of(group.members@).contains(user_id)
    &&& group_grants(group.permissions, permission)
    &&& match device_id {
        Some(d) => device_reachable(group.device_access, device_groups, d),
        None => true,
    }
}

/// Whether some group permits.
pub open spec fn some_group_permits(
    groups: Seq<UserGroup>,
    device_groups: Seq<DeviceGroup>,
    user_id: Seq<char>,
    permission: Seq<char>,
    device_id: Option<Seq<char>>,
) -> bool {
    exists|i: int|
        0 <= i < groups.len() && group_permits(
            #[trigger] groups[i],
            device_groups,
            user_id,
            permission,
            device_id,
        )
}

/// Whether a rule puts the device into its group.
pub open spec fn rule_applies(rule: AutoAssignmentRule, device: DeviceInfo) -> bool {
    match rule.rule_type {
        RuleType::IpRange => cidr_contains(rule.value@, device.ip_address@),
        RuleType::Hostname => occurs_in(device.name@, rule.value@),
        RuleType::Os => occurs_in(lowercase_of(device.os@), lowercase_of(rule.value@)),
        RuleType::Tag => views_of(device.tags@).contains(rule.value@),
        RuleType::Owner => device.owner_id@ == rule.value@,
    }
}

/// Whether one of the rules of a device group applies to the device.
pub open spec fn group_claims(group: DeviceGroup, device: DeviceInfo) -> bool {
    exists|k: int|
        0 <= k < group.auto_assignment_rules@.len() && rule_applies(
            #[trigger] group.auto_assignment_rules@[k],
            device,
        )
}

/// The minute of the day.
pub open spec fn minute_of_day(hour: u8, minute: u8) -> int {
    hour * 60 + minute
}

/// Whether a time of the day lies in a span, ends included.
pub open spec fn time_in_range(range: TimeRange, hour: u8, minute: u8) -> bool {
    let current = minute_of_day(hour, minute);
    let start = minute_of_day(range.start_hour, range.start_minute);
    let end = minute_of_day(range.end_hour, range.end_minute);
    if start <= end {
        start <= current <= end
    } else {
        current >= start || current <= end
    }
}

/// Whether a group lets its members in on the given day and time.
pub open spec fn group_open(p: GroupPermissions, day: u8, hour: u8, minute: u8) -> bool {
    &&& match p.allowed_hours {
        Some(range) => time_in_range(range, hour, minute),
        None => true,
    }
    &&& p.allowed_days@.len() == 0 || p.allowed_days@.contains(day)
}

/// Whether every group of which the user is a member lets the user in.
pub open spec fn time_allowed(
    groups: Seq<UserGroup>,
    user_id: Seq<char>,
    day: u8,
    hour: u8,
    minute: u8,
) -> bool {
    forall|i: int|
        0 <= i < groups.len() && views_of((#[trigger] groups[i]).members@).contains(user_id)
            ==> group_open(groups[i].permissions, day, hour, minute)
}

/// Whether a span holds the given time of the day.
pub fn is_time_allowed(range: &TimeRange, hour: u8, minute: u8) -> (r: bool)
    ensures
        r == time_in_range(*range, hour, minute),
{
    let current: u16 = hour as u16 * 60 + minute as u16;
    let start: u16 = range.start_hour as u16 * 60 + range.start_minute as u16;
    let end: u16 = range.end_hour as u16 * 60 + range.end_minute as u16;
    if start <= end {
        current >= start && current <= end
    } else {
        current >= start || current <= end
    }
}

fn contains_day(days: &Vec<u8>, day: u8) -> (r: bool)
    ensures
        r == days@.contains(day),
{
    let mut i: usize = 0;
    while i < days.len()
        invariant
            i <= days@.len(),
            forall|j: int| 0 <= j < i ==> days@[j] != day,
        decreases days@.len() - i,
    {
        if days[i] == day {
            return true;
        }
        i += 1;
    }
    false
}

impl EnterpriseManager {
    /// A manager that holds nothing yet.
    pub fn new() -> (m: Self)
        ensures
            m.user_groups@.len() == 0,
            m.device_groups@.len() == 0,
            m.permissions@.len() == 0,
            m.access_requests@.len() == 0,
            m.active_sessions@.len() == 0,
    {
        EnterpriseManager {
            user_groups: Vec::new(),
            device_groups: Vec::new(),
            permissions: Vec::new(),
            access_requests: Vec::new(),
            active_sessions: Vec::new(),
        }
    }

    fn find_user_group(&self, id: &str) -> (r: Option<usize>)
        ensures
            match r {
                Some(i) => i < self.user_groups@.len() && i == first_index(
                    user_group_ids(self.user_groups@),
                    id@,
                ),
                None => first_index(user_group_ids(self.user_groups@), id@)
                    == self.user_groups@.len(),
            },
    {
        let ghost ids = user_group_ids(self.user_groups@);
        let mut i: usize = 0;
        while i < self.user_groups.len()
            invariant
                i <= self.user_groups@.len(),
                ids == user_group_ids(self.user_groups@),
                forall|j: int| 0 <= j < i ==> ids[j] != id@,
            decreases self.user_groups@.len() - i,
        {
            if str_eq(self.user_groups[i].id.as_str(), id) {
                proof {
                    lemma_first_index_is(ids, id@, i as int);
                }
                return Some(i);
            }
            i += 1;
        }
        proof {
            lemma_first_index_is(ids, id@, ids.len() as int);
        }
        None
    }

    fn find_device_group(&self, id: &str) -> (r: Option<usize>)
        ensures
            match r {
                Some(i) => i < self.device_groups@.len() && i == first_index(
                    device_group_ids(self.device_groups@),
                    id@,
                ),
                None => first_index(device_group_ids(self.device_groups@), id@)
                    == self.device_groups@.len(),
            },
    {
        let ghost ids = device_group_ids(self.device_groups@);
        let mut i: usize = 0;
        while i < self.device_groups.len()
            invariant
                i <= self.device_groups@.len(),
                ids == device_group_ids(self.device_groups@),
                forall|j: int| 0 <= j < i ==> ids[j] != id@,
            decreases self.device_groups@.len() - i,
        {
            if str_eq(self.device_groups[i].id.as_str(), id) {
                proof {
                    lemma_first_index_is(ids, id@, i as int);
                }
                return Some(i);
            }
            i += 1;
        }
        proof {
            lemma_first_index_is(ids, id@, ids.len() as int);
        }
        None
    }

    fn find_session(&self, id: &str) -> (r: Option<usize>)
        ensures
            match r {
                Some(i) => i < self.active_sessions@.len() && i == first_index(
                    session_ids(self.active_sessions@),
                    id@,
                ),
                None => first_index(session_ids(self.active_sessions@), id@)
                    == self.active_sessions@.len(),
            },
    {
        let ghost ids = session_ids(self.active_sessions@);
        let mut i: usize = 0;
        while i < self.active_sessions.len()
            invariant
                i <= self.active_sessions@.len(),
                ids == session_ids(self.active_sessions@),
                forall|j: int| 0 <= j < i ==> ids[j] != id@,
            decreases self.active_sessions@.len() - i,
        {
            if str_eq(self.active_sessions[i].session_id.as_str(), id) {
                proof {
                    lemma_first_index_is(ids, id@, i as int);
                }
                return Some(i);
            }
            i += 1;
        }
        proof {
            lemma_first_index_is(ids, id@, ids.len() as int);
        }
        None
    }

    fn user_group_name_taken(&self, name: &str) -> (r: bool)
        ensures
            r == user_group_names(self.user_groups@).contains(name@),
    {
        let ghost names = user_group_names(self.user_groups@);
        let mut i: usize = 0;
        while i < self.user_groups.len()
            invariant
                i <= self.user_groups@.len(),
                names == user_group_names(self.user_groups@),
                forall|j: int| 0 <= j < i ==> names[j] != name@,
            decreases self.user_groups@.len() - i,
        {
            if str_eq(self.user_groups[i].name.as_str(), name) {
                assert(names[i as int] == name@);
                return true;
            }
            i += 1;
        }
        false
    }

    fn device_group_name_taken(&self, name: &str) -> (r: bool)
        ensures
            r == device_group_names(self.device_groups@).contains(name@),
    {
        let ghost names = device_group_names(self.device_groups@);
        let mut i: usize = 0;
        while i < self.device_groups.len()
            invariant
                i <= self.device_groups@.len(),
                names == device_group_names(self.device_groups@),
                forall|j: int| 0 <= j < i ==> names[j] != name@,
            decreases self.device_groups@.len() - i,
        {
            if str_eq(self.device_groups[i].name.as_str(), name) {
                assert(names[i as int] == name@);
                return true;
            }
            i += 1;
        }
        false
    }

    /// Takes in a new user group, unless a group of its name exists.
    /// Returns the group's identifier.
    pub fn create_user_group(&mut self, group: UserGroup) -> (r: Result<String, ManagementError>)
        ensures
            *final(self) == (EnterpriseManager {
                user_groups: final(self).user_groups,
                ..*old(self)
            }),
            match r {
                Ok(id) => !user_group_names(old(self).user_groups@).contains(group.name@) && id@
                    == group.id@ && final(self).user_groups@ == put_user_group(
                    old(self).user_groups@,
                    group,
                ),
                Err(e) => user_group_names(old(self).user_groups@).contains(group.name@) && e
                    == ManagementError::GroupNameExists && final(self).user_groups@ == old(self).user_groups@,
            },
    {
        if self.user_group_name_taken(group.name.as_str()) {
            return Err(ManagementError::GroupNameExists);
        }
        let id = group.id.clone();
        self.update_user_group(group);
        Ok(id)
    }

    /// Puts a user group under its identifier.
    pub fn update_user_group(&mut self, group: UserGroup)
        ensures
            *final(self) == (EnterpriseManager {
                user_groups: final(self).user_groups,
                ..*old(self)
            }),
            final(self).user_groups@ == put_user_group(old(self).user_groups@, group),
    {
        match self.find_user_group(group.id.as_str()) {
            Some(i) => {
                self.user_groups.set(i, group);
            },
            None => {
                self.user_groups.push(group);
            },
        }
    }

    /// Removes a user group, unless it still has members. A group that is
    /// not there is no error.
    pub fn delete_user_group(&mut self, group_id: &str) -> (r: Result<(), ManagementError>)
        ensures
            *final(self) == (EnterpriseManager {
                user_groups: final(self).user_groups,
                ..*old(self)
            }),
            ({
                let groups = old(self).user_groups@;
                let i = first_index(user_group_ids(groups), group_id@);
                if i < groups.len() && groups[i].members@.len() > 0 {
                    r == Err::<(), ManagementError>(ManagementError::GroupHasMembers) && final(self).user_groups@ == groups
                } else if i < groups.len() {
                    r is Ok && final(self).user_groups@ == groups.remove(i)
                } else {
                    r is Ok && final(self).user_groups@ == groups
                }
            }),
    {
        match self.find_user_group(group_id) {
            Some(i) => {
                if self.user_groups[i].members.len() > 0 {
                    return Err(ManagementError::GroupHasMembers);
                }
                self.user_groups.remove(i);
                Ok(())
            },
            None => Ok(()),
        }
    }

    /// Makes a user a member of a group at time `now`, unless the user is
    /// one already. Returns whether the group has changed.
    pub fn add_user_to_group(&mut self, user_id: &str, group_id: &str, now: u64) -> (r: Result<
        bool,
        ManagementError,
    >)
        ensures
            *final(self) == (EnterpriseManager {
                user_groups: final(self).user_groups,
                ..*old(self)
            }),
            ({
                let groups = old(self).user_groups@;
                let after = final(self).user_groups@;
                let i = first_index(user_group_ids(groups), group_id@);
                if i >= groups.len() {
                    r == Err::<bool, ManagementError>(ManagementError::GroupNotFound) && after
                        == groups
                } else if views_of(groups[i].members@).contains(user_id@) {
                    r == Ok::<bool, ManagementError>(false) && after == groups
                } else {
                    &&& r == Ok::<bool, ManagementError>(true)
                    &&& after == groups.update(i, after[i])
                    &&& after[i] == (UserGroup {
                        members: after[i].members,
                        updated_at: now,
                        ..groups[i]
                    })
                    &&& views_of(after[i].members@) == views_of(groups[i].members@).push(user_id@)
                }
            }),
    {
        match self.find_user_group(group_id) {
            Some(i) => {
                if contains_str(&self.user_groups[i].members, user_id) {
                    return Ok(false);
                }
                let ghost before = views_of(self.user_groups@[i as int].members@);
                self.user_groups[i].members.push(user_id.to_owned());
                self.user_groups[i].updated_at = now;
                proof {
                    assert(views_of(self.user_groups@[i as int].members@) =~= before.push(
                        user_id@,
                    ));
                    assert(self.user_groups@ =~= old(self).user_groups@.update(
                        i as int,
                        self.user_groups@[i as int],
                    ));
                }
                Ok(true)
            },
            None => Err(ManagementError::GroupNotFound),
        }
    }

    /// Takes a user out of a group at time `now`.
    pub fn remove_user_from_group(&mut self, user_id: &str, group_id: &str, now: u64) -> (r:
        Result<(), ManagementError>)
        ensures
            *final(self) == (EnterpriseManager {
                user_groups: final(self).user_groups,
                ..*old(self)
            }),
            ({
                let groups = old(self).user_groups@;
                let after = final(self).user_groups@;
                let i = first_index(user_group_ids(groups), group_id@);
                if i >= groups.len() {
                    r == Err::<(), ManagementError>(ManagementError::GroupNotFound) && after
                        == groups
                } else {
                    &&& r is Ok
                    &&& after == groups.update(i, after[i])
                    &&& after[i] == (UserGroup {
                        members: after[i].members,
                        updated_at: now,
                        ..groups[i]
                    })
                    &&& views_of(after[i].members@) == without(
                        views_of(groups[i].members@),
                        user_id@,
                    )
                }
            }),
    {
        match self.find_user_group(group_id) {
            Some(i) => {
                let members = without_str(&self.user_groups[i].members, user_id);
                self.user_groups[i].members = members;
                self.user_groups[i].updated_at = now;
                proof {
                    assert(self.user_groups@ =~= old(self).user_groups@.update(
                        i as int,
                        self.user_groups@[i as int],
                    ));
                }
                Ok(())
            },
            None => Err(ManagementError::GroupNotFound),
        }
    }

    /// Takes in a new device group, unless a group of its name exists.
    /// Returns the group's identifier.
    pub fn create_device_group(&mut self, group: DeviceGroup) -> (r: Result<
        String,
        ManagementError,
    >)
        ensures
            *final(self) == (EnterpriseManager {
                device_groups: final(self).device_groups,
                ..*old(self)
            }),
            match r {
                Ok(id) => !device_group_names(old(self).device_groups@).contains(group.name@)
                    && id@ == group.id@ && final(self).device_groups@ == put_device_group(
                    old(self).device_groups@,
                    group,
                ),
                Err(e) => device_group_names(old(self).device_groups@).contains(group.name@) && e
                    == ManagementError::DeviceGroupNameExists && final(self).device_groups@
                    == old(self).device_groups@,
            },
    {
        if self.device_group_name_taken(group.name.as_str()) {
            return Err(ManagementError::DeviceGroupNameExists);
        }
        let id = group.id.clone();
        match self.find_device_group(group.id.as_str()) {
            Some(i) => {
                self.device_groups.set(i, group);
            },
            None => {
                self.device_groups.push(group);
            },
        }
        Ok(id)
    }

    /// Puts a device into a group at time `now`, unless it is in the group
    /// already. Returns whether the group has changed.
    pub fn add_device_to_group(&mut self, device_id: &str, group_id: &str, now: u64) -> (r:
        Result<bool, ManagementError>)
        ensures
            *final(self) == (EnterpriseManager {
                device_groups: final(self).device_groups,
                ..*old(self)
            }),
            ({
                let groups = old(self).device_groups@;
                let after = final(self).device_groups@;
                let i = first_index(device_group_ids(groups), group_id@);
                if i >= groups.len() {
                    r == Err::<bool, ManagementError>(ManagementError::DeviceGroupNotFound)
                        && after == groups
                } else if views_of(groups[i].devices@).contains(device_id@) {
                    r == Ok::<bool, ManagementError>(false) && after == groups
                } else {
                    &&& r == Ok::<bool, ManagementError>(true)
                    &&& after == groups.update(i, after[i])
                    &&& after[i] == (DeviceGroup {
                        devices: after[i].devices,
                        updated_at: now,
                        ..groups[i]
                    })
                    &&& views_of(after[i].devices@) == views_of(groups[i].devices@).push(
                        device_id@,
                    )
                }
            }),
    {
        match self.find_device_group(group_id) {
            Some(i) => {
                if contains_str(&self.device_groups[i].devices, device_id) {
                    return Ok(false);
                }
                let ghost before = views_of(self.device_groups@[i as int].devices@);
                self.device_groups[i].devices.push(device_id.to_owned());
                self.device_groups[i].updated_at = now;
                proof {
                    assert(views_of(self.device_groups@[i as int].devices@) =~= before.push(
                        device_id@,
                    ));
                    assert(self.device_groups@ =~= old(self).device_groups@.update(
                        i as int,
                        self.device_groups@[i as int],
                    ));
                }
                Ok(true)
            },
            None => Err(ManagementError::DeviceGroupNotFound),
        }
    }

    /// Whether the network that `cidr` names holds the address `ip`.
    pub fn ip_in_range(&self, ip: &str, cidr: &str) -> (r: bool)
        ensures
            r == cidr_contains(cidr@, ip@),
    {
        ip_in_cidr(ip, cidr)
    }

    /// Whether a rule puts the device into its group.
    pub fn evaluate_assignment_rule(&self, rule: &AutoAssignmentRule, device_info: &DeviceInfo) -> (r:
        bool)
        ensures
            r == rule_applies(*rule, *device_info),
    {
        match rule.rule_type {
            RuleType::IpRange => self.ip_in_range(
                device_info.ip_address.as_str(),
                rule.value.as_str(),
            ),
            RuleType::Hostname => contains_substring(
                device_info.name.as_str(),
                rule.value.as_str(),
            ),
            RuleType::Os => {
                let os = to_lowercase(device_info.os.as_str());
                let value = to_lowercase(rule.value.as_str());
                contains_substring(os.as_str(), value.as_str())
            },
            RuleType::Tag => contains_str(&device_info.tags, rule.value.as_str()),
            RuleType::Owner => str_eq(device_info.owner_id.as_str(), rule.value.as_str()),
        }
    }

    fn group_claims_device(&self, g: usize, device_info: &DeviceInfo) -> (r: bool)
        requires
            g < self.device_groups@.len(),
        ensures
            r == group_claims(self.device_groups@[g as int], *device_info),
    {
        let rules = &self.device_groups[g].auto_assignment_rules;
        let mut k: usize = 0;
        while k < rules.len()
            invariant
                g < self.device_groups@.len(),
                rules@ == self.device_groups@[g as int].auto_assignment_rules@,
                k <= rules@.len(),
                forall|j: int| 0 <= j < k ==> !rule_applies(#[trigger] rules@[j], *device_info),
            decreases rules@.len() - k,
        {
            if self.evaluate_assignment_rule(&rules[k], device_info) {
                assert(rule_applies(
                    self.device_groups@[g as int].auto_assignment_rules@[k as int],
                    *device_info,
                ));
                return true;
            }
            k += 1;
        }
        false
    }

    /// Puts a device, at time `now`, into every group of which a rule
    /// applies to it. The other groups stay as they are, and so does a
    /// group that holds the device already.
    pub fn auto_assign_device_to_groups(
        &mut self,
        device_id: &str,
        device_info: &DeviceInfo,
        now: u64,
    )
        ensures
            *final(self) == (EnterpriseManager {
                device_groups: final(self).device_groups,
                ..*old(self)
            }),
            final(self).device_groups@.len() == old(self).device_groups@.len(),
            forall|i: int|
                0 <= i < old(self).device_groups@.len() ==> {
                    let before = #[trigger] old(self).device_groups@[i];
                    let after = final(self).device_groups@[i];
                    if group_claims(before, *device_info) && !views_of(before.devices@).contains(
                        device_id@,
                    ) {
                        after == (DeviceGroup {
                            devices: after.devices,
                            updated_at: now,
                            ..before
                        }) && views_of(after.devices@) == views_of(before.devices@).push(device_id@)
                    } else {
                        after == before
                    }
                },
    {
        let n = self.device_groups.len();
        let mut i: usize = 0;
        while i < n
            invariant
                n == self.device_groups@.len(),
                n == old(self).device_groups@.len(),
                i <= n,
                *self == (EnterpriseManager { device_groups: self.device_groups, ..*old(self) }),
                forall|j: int| i <= j < n ==> self.device_groups@[j] == old(self).device_groups@[j],
                forall|j: int|
                    0 <= j < i ==> {
                        let before = #[trigger] old(self).device_groups@[j];
                        let after = self.device_groups@[j];
                        if group_claims(before, *device_info) && !views_of(
                            before.devices@,
                        ).contains(device_id@) {
                            after == (DeviceGroup {
                                devices: after.devices,
                                updated_at: now,
                                ..before
                            }) && views_of(after.devices@) == views_of(before.devices@).push(
                                device_id@,
                            )
                        } else {
                            after == before
                        }
                    },
            decreases n - i,
        {
            if self.group_claims_device(i, device_info) && !contains_str(
                &self.device_groups[i].devices,
                device_id,
            ) {
                let ghost before = views_of(self.device_groups@[i as int].devices@);
                self.device_groups[i].devices.push(device_id.to_owned());
                self.device_groups[i].updated_at = now;
                proof {
                    assert(views_of(self.device_groups@[i as int].devices@) =~= before.push(
                        device_id@,
                    ));
                }
            }
            i += 1;
        }
    }

    /// Whether a group grants the permission of the given name.
    pub fn group_has_permission(&self, group: &UserGroup, permission: &str) -> (r: bool)
        ensures
            r == group_grants(group.permissions, permission@),
    {
        let p = &group.permissions;
        if str_eq(permission, "manage_users") {
            p.can_manage_users
        } else if str_eq(permission, "manage_groups") {
            p.can_manage_groups
        } else if str_eq(permission, "manage_devices") {
            p.can_manage_devices
        } else if str_eq(permission, "view_audit_logs") {
            p.can_view_audit_logs
        } else if str_eq(permission, "manage_settings") {
            p.can_manage_settings
        } else if str_eq(permission, "control_devices") {
            p.can_control_devices
        } else if str_eq(permission, "view_screens") {
            p.can_view_screens
        } else if str_eq(permission, "transfer_files") {
            p.can_transfer_files
        } else if str_eq(permission, "use_clipboard") {
            p.can_use_clipboard
        } else if str_eq(permission, "use_audio") {
            p.can_use_audio
        } else if str_eq(permission, "record_sessions") {
            p.can_record_sessions
        } else {
            false
        }
    }

    /// Whether one of the device groups named in `allowed_groups` holds the
    /// device.
    pub fn device_in_allowed_groups(&self, device_id: &str, allowed_groups: &Vec<String>) -> (r:
        bool)
        ensures
            r == in_allowed_groups(self.device_groups@, device_id@, views_of(allowed_groups@)),
    {
        let ghost allowed = views_of(allowed_groups@);
        let mut k: usize = 0;
        while k < allowed_groups.len()
            invariant
                k <= allowed_groups@.len(),
                allowed == views_of(allowed_groups@),
                forall|j: int|
                    0 <= j < k ==> !group_holds_device(
                        self.device_groups@,
                        #[trigger] allowed[j],
                        device_id@,
                    ),
            decreases allowed_groups@.len() - k,
        {
            assert(allowed[k as int] == allowed_groups@[k as int]@);
            match self.find_device_group(allowed_groups[k].as_str()) {
                Some(i) => {
                    if contains_str(&self.device_groups[i].devices, device_id) {
                        return true;
                    }
                },
                None => {},
            }
            k += 1;
        }
        false
    }

    /// Whether the members of a user group may reach the device.
    pub fn check_device_access(&self, group: &UserGroup, device_id: &str) -> (r: bool)
        ensures
            r == device_reachable(group.device_access, self.device_groups@, device_id@),
    {
        match group.device_access.access_type {
            AccessType::All => !contains_str(&group.device_access.excluded_devices, device_id),
            AccessType::SpecificOnly => contains_str(
                &group.device_access.specific_devices,
                device_id,
            ),
            AccessType::GroupOnly => self.device_in_allowed_groups(
                device_id,
                &group.device_access.device_groups,
            ),
            AccessType::Restricted => !contains_str(
                &group.device_access.excluded_devices,
                device_id,
            ),
        }
    }

    /// Whether a user has a permission, for the device where one is named.
    /// `user` is the account that storage holds for `user_id`. A user
    /// without an account has none; a super-administrator has every one;
    /// any other user has what one of the user's groups grants.
    pub fn check_user_permission(
        &self,
        user: Option<&User>,
        user_id: &str,
        permission: &str,
        device_id: Option<&str>,
    ) -> (r: bool)
        ensures
            r == match user {
                None => false,
                Some(u) => u.role == UserRole::SuperAdmin || some_group_permits(
                    self.user_groups@,
                    self.device_groups@,
                    user_id@,
                    permission@,
                    match device_id {
                        Some(d) => Some(d@),
                        None => None,
                    },
                ),
            },
    {
        let u = match user {
            Some(u) => u,
            None => {
                return false;
            },
        };
        if u.role == UserRole::SuperAdmin {
            return true;
        }
        let ghost device = match device_id {
            Some(d) => Some(d@),
            None => None,
        };
        let mut i: usize = 0;
        while i < self.user_groups.len()
            invariant
                i <= self.user_groups@.len(),
                user == Some(u),
                u.role != UserRole::SuperAdmin,
                device == match device_id {
                    Some(d) => Some(d@),
                    None => None,
                },
                forall|j: int|
                    0 <= j < i ==> !group_permits(
                        #[trigger] self.user_groups@[j],
                        self.device_groups@,
                        user_id@,
                        permission@,
                        device,
                    ),
            decreases self.user_groups@.len() - i,
        {
            let group = &self.user_groups[i];
            if contains_str(&group.members, user_id) && self.group_has_permission(
                group,
                permission,
            ) {
                let reachable = match device_id {
                    Some(d) => self.check_device_access(group, d),
                    None => true,
                };
                if reachable {
                    assert(group_permits(
                        self.user_groups@[i as int],
                        self.device_groups@,
                        user_id@,
                        permission@,
                        device,
                    ));
                    return true;
                }
            }
            i += 1;
        }
        false
    }

    /// Opens a session under a new random identifier, and returns the
    /// identifier.
    pub fn start_session(
        &mut self,
        user_id: &str,
        device_id: &str,
        ip_address: &str,
        permissions: Vec<String>,
        now: u64,
    ) -> (session_id: String)
        ensures
            *final(self) == (EnterpriseManager {
                active_sessions: final(self).active_sessions,
                ..*old(self)
            }),
            session_id@.len() == crate::boundary::UUID_TEXT_LEN,
            exists|s: SessionInfo|
                {
                    &&& final(self).active_sessions@ == put_session(old(self).active_sessions@, s)
                    &&& s.session_id@ == session_id@
                    &&& s.user_id@ == user_id@
                    &&& s.device_id@ == device_id@
                    &&& s.ip_address@ == ip_address@
                    &&& s.permissions == permissions
                    &&& s.start_time == now
                    &&& s.last_activity == now
                },
    {
        let session_id = new_uuid_v4();
        let session = SessionInfo {
            session_id: session_id.clone(),
            user_id: user_id.to_owned(),
            device_id: device_id.to_owned(),
            start_time: now,
            last_activity: now,
            permissions,
            ip_address: ip_address.to_owned(),
        };
        self.put_session(session);
        session_id
    }

    /// Puts a session under its identifier.
    pub fn put_session(&mut self, session: SessionInfo)
        ensures
            *final(self) == (EnterpriseManager {
                active_sessions: final(self).active_sessions,
                ..*old(self)
            }),
            final(self).active_sessions@ == put_session(old(self).active_sessions@, session),
    {
        match self.find_session(session.session_id.as_str()) {
            Some(i) => {
                self.active_sessions.set(i, session);
            },
            None => {
                self.active_sessions.push(session);
            },
        }
    }

    /// Closes a session at time `now`, and returns how long it was open. A
    /// session that is not there is no error.
    pub fn end_session(&mut self, session_id: &str, now: u64) -> (duration: Option<u64>)
        ensures
            *final(self) == (EnterpriseManager {
                active_sessions: final(self).active_sessions,
                ..*old(self)
            }),
            ({
                let sessions = old(self).active_sessions@;
                let i = first_index(session_ids(sessions), session_id@);
                if i < sessions.len() {
                    final(self).active_sessions@ == sessions.remove(i) && duration == Some(
                        if now >= sessions[i].start_time {
                            (now - sessions[i].start_time) as u64
                        } else {
                            0u64
                        },
                    )
                } else {
                    final(self).active_sessions@ == sessions && duration is None
                }
            }),
    {
        match self.find_session(session_id) {
            Some(i) => {
                let session = self.active_sessions.remove(i);
                Some(now.saturating_sub(session.start_time))
            },
            None => None,
        }
    }

    /// Notes at time `now` that a session is active.
    pub fn update_session_activity(&mut self, session_id: &str, now: u64)
        ensures
            *final(self) == (EnterpriseManager {
                active_sessions: final(self).active_sessions,
                ..*old(self)
            }),
            ({
                let sessions = old(self).active_sessions@;
                let i = first_index(session_ids(sessions), session_id@);
                if i < sessions.len() {
                    final(self).active_sessions@ == sessions.update(
                        i,
                        SessionInfo { last_activity: now, ..sessions[i] },
                    )
                } else {
                    final(self).active_sessions@ == sessions
                }
            }),
    {
        match self.find_session(session_id) {
            Some(i) => {
                self.active_sessions[i].last_activity = now;
                proof {
                    assert(self.active_sessions@ =~= old(self).active_sessions@.update(
                        i as int,
                        SessionInfo { last_activity: now, ..old(self).active_sessions@[i as int] },
                    ));
                }
            },
            None => {},
        }
    }

    /// Whether every group of the user lets the user in on the given day
    /// of the week (Sunday being 0) at the given time.
    pub fn check_time_restrictions_at(&self, user_id: &str, day: u8, hour: u8, minute: u8) -> (r:
        bool)
        ensures
            r == time_allowed(self.user_groups@, user_id@, day, hour, minute),
    {
        let mut i: usize = 0;
        while i < self.user_groups.len()
            invariant
                i <= self.user_groups@.len(),
                forall|j: int|
                    0 <= j < i && views_of((#[trigger] self.user_groups@[j]).members@).contains(
                        user_id@,
                    ) ==> group_open(self.user_groups@[j].permissions, day, hour, minute),
            decreases self.user_groups@.len() - i,
        {
            let group = &self.user_groups[i];
            if contains_str(&group.members, user_id) {
                let hours_ok = match &group.permissions.allowed_hours {
                    Some(range) => is_time_allowed(range, hour, minute),
                    None => true,
                };
                if !hours_ok {
                    return false;
                }
                if group.permissions.allowed_days.len() > 0 && !contains_day(
                    &group.permissions.allowed_days,
                    day,
                ) {
                    return false;
                }
            }
            i += 1;
        }
        true
    }

    /// Whether every group of the user lets the user in at the time of the
    /// call: on the day of the week that it is in UTC, at the time of the
    /// day that the local clock shows.
    pub fn check_time_restrictions(&self, user_id: &str) -> (r: bool)
        ensures
            exists|day: u8, hour: u8, minute: u8|
                day < 7 && hour < 24 && minute < 60 && r == #[trigger] time_allowed(
                    self.user_groups@,
                    user_id@,
                    day,
                    hour,
                    minute,
                ),
    {
        let day = utc_weekday_now();
        let (hour, minute) = local_hour_minute_now();
        self.check_time_restrictions_at(user_id, day, hour, minute)
    }

    /// Whether a span holds the time of the day that the local clock shows.
    pub fn is_current_time_allowed(&self, time_range: &TimeRange) -> (r: bool)
        ensures
            exists|hour: u8, minute: u8|
                hour < 24 && minute < 60 && r == #[trigger] time_in_range(
                    *time_range,
                    hour,
                    minute,
                ),
    {
        let (hour, minute) = local_hour_minute_now();
        is_time_allowed(time_range, hour, minute)
    }
}

/// The names of the permissions that a group can grant, in the order in
/// which a user's permissions are listed.
pub open spec fn permission_names() -> Seq<Seq<char>> {
    seq![
        "manage_users"@,
        "manage_groups"@,
        "manage_devices"@,
        "view_audit_logs"@,
        "manage_settings"@,
        "control_devices"@,
        "view_screens"@,
        "transfer_files"@,
        "use_clipboard"@,
        "use_audio"@,
        "record_sessions"@,
    ]
}

/// The name of the permission at a place of that order.
pub fn permission_name(k: usize) -> (name: &'static str)
    requires
        k < 11,
    ensures
        name@ == permission_names()[k as int],
{
    match k {
        0 => "manage_users",
        1 => "manage_groups",
        2 => "manage_devices",
        3 => "view_audit_logs",
        4 => "manage_settings",
        5 => "control_devices",
        6 => "view_screens",
        7 => "transfer_files",
        8 => "use_clipboard",
        9 => "use_audio",
        _ => "record_sessions",
    }
}

/// Whether a group of which the user is a member grants the permission.
pub open spec fn granted_to(groups: Seq<UserGroup>, user_id: Seq<char>, permission: Seq<char>) -> bool {
    exists|i: int|
        0 <= i < groups.len() && views_of((#[trigger] groups[i]).members@).contains(user_id)
            && group_grants(groups[i].permissions, permission)
}

/// What the five permissions that every installation starts with hold, by
/// their place: identifier, name, description, category and the role that
/// is needed.
pub open spec fn is_default_permission(k: int, p: Permission) -> bool {
    if k == 0 {
        p.id@ == "manage_users"@ && p.name@ == "管理用户"@ && p.description@
            == "创建、编辑、删除用户账户"@ && p.category == PermissionCategory::User
            && p.required_role == UserRole::Admin
    } else if k == 1 {
        p.id@ == "manage_groups"@ && p.name@ == "管理用户组"@ && p.description@
            == "创建、编辑、删除用户组"@ && p.category == PermissionCategory::User
            && p.required_role == UserRole::Admin
    } else if k == 2 {
        p.id@ == "manage_devices"@ && p.name@ == "管理设备"@ && p.description@
            == "管理设备和设备组"@ && p.category == PermissionCategory::Device
            && p.required_role == UserRole::Admin
    } else if k == 3 {
        p.id@ == "control_devices"@ && p.name@ == "控制设备"@ && p.description@
            == "远程控制设备"@ && p.category == PermissionCategory::Device && p.required_role
            == UserRole::User
    } else {
        p.id@ == "transfer_files"@ && p.name@ == "文件传输"@ && p.description@
            == "上传和下载文件"@ && p.category == PermissionCategory::FileTransfer
            && p.required_role == UserRole::User
    }
}

/// The permissions with each of `added` put under its identifier, in
/// order.
pub open spec fn put_permissions(permissions: Seq<Permission>, added: Seq<Permission>) -> Seq<
    Permission,
>
    decreases added.len(),
{
    if added.len() == 0 {
        permissions
    } else {
        put_permission(put_permissions(permissions, added.drop_last()), added.last())
    }
}

/// One of the five permissions that every installation starts with.
pub fn default_permission(k: usize) -> (p: Permission)
    requires
        k < 5,
    ensures
        is_default_permission(k as int, p),
{
    match k {
        0 => Permission {
            id: "manage_users".to_string(),
            name: "管理用户".to_string(),
            description: "创建、编辑、删除用户账户".to_string(),
            category: PermissionCategory::User,
            required_role: UserRole::Admin,
        },
        1 => Permission {
            id: "manage_groups".to_string(),
            name: "管理用户组".to_string(),
            description: "创建、编辑、删除用户组".to_string(),
            category: PermissionCategory::User,
            required_role: UserRole::Admin,
        },
        2 => Permission {
            id: "manage_devices".to_string(),
            name: "管理设备".to_string(),
            description: "管理设备和设备组".to_string(),
            category: PermissionCategory::Device,
            required_role: UserRole::Admin,
        },
        3 => Permission {
            id: "control_devices".to_string(),
            name: "控制设备".to_string(),
            description: "远程控制设备".to_string(),
            category: PermissionCategory::Device,
            required_role: UserRole::User,
        },
        _ => Permission {
            id: "transfer_files".to_string(),
            name: "文件传输".to_string(),
            description: "上传和下载文件".to_string(),
            category: PermissionCategory::FileTransfer,
            required_role: UserRole::User,
        },
    }
}

impl EnterpriseManager {
    fn find_permission(&self, id: &str) -> (r: Option<usize>)
        ensures
            match r {
                Some(i) => i < self.permissions@.len() && i == first_index(
                    permission_ids(self.permissions@),
                    id@,
                ),
                None => first_index(permission_ids(self.permissions@), id@)
                    == self.permissions@.len(),
            },
    {
        let ghost ids = permission_ids(self.permissions@);
        let mut i: usize = 0;
        while i < self.permissions.len()
            invariant
                i <= self.permissions@.len(),
                ids == permission_ids(self.permissions@),
                forall|j: int| 0 <= j < i ==> ids[j] != id@,
            decreases self.permissions@.len() - i,
        {
            if str_eq(self.permissions[i].id.as_str(), id) {
                proof {
                    lemma_first_index_is(ids, id@, i as int);
                }
                return Some(i);
            }
            i += 1;
        }
        proof {
            lemma_first_index_is(ids, id@, ids.len() as int);
        }
        None
    }

    /// Puts the five permissions that every installation starts with under
    /// their identifiers.
    pub fn load_default_permissions(&mut self)
        ensures
            *final(self) == (EnterpriseManager {
                permissions: final(self).permissions,
                ..*old(self)
            }),
            exists|added: Seq<Permission>|
                {
                    &&& added.len() == 5
                    &&& forall|k: int| 0 <= k < 5 ==> is_default_permission(k, #[trigger] added[k])
                    &&& final(self).permissions@ == put_permissions(old(self).permissions@, added)
                },
    {
        let ghost mut added: Seq<Permission> = Seq::empty();
        let mut k: usize = 0;
        while k < 5
            invariant
                k <= 5,
                *self == (EnterpriseManager { permissions: self.permissions, ..*old(self) }),
                added.len() == k,
                forall|j: int| 0 <= j < k ==> is_default_permission(j, #[trigger] added[j]),
                self.permissions@ == put_permissions(old(self).permissions@, added),
            decreases 5 - k,
        {
            let p = default_permission(k);
            proof {
                assert(added.push(p).drop_last() =~= added);
                added = added.push(p);
            }
            match self.find_permission(p.id.as_str()) {
                Some(i) => {
                    self.permissions.set(i, p);
                },
                None => {
                    self.permissions.push(p);
                },
            }
            k += 1;
        }
    }

    /// Prepares a new manager for use.
    pub fn initialize(&mut self)
        ensures
            *final(self) == (EnterpriseManager {
                permissions: final(self).permissions,
                ..*old(self)
            }),
            exists|added: Seq<Permission>|
                {
                    &&& added.len() == 5
                    &&& forall|k: int| 0 <= k < 5 ==> is_default_permission(k, #[trigger] added[k])
                    &&& final(self).permissions@ == put_permissions(old(self).permissions@, added)
                },
    {
        self.load_default_permissions();
    }

    fn is_granted(&self, user_id: &str, permission: &str) -> (r: bool)
        ensures
            r == granted_to(self.user_groups@, user_id@, permission@),
    {
        let mut i: usize = 0;
        while i < self.user_groups.len()
            invariant
                i <= self.user_groups@.len(),
                forall|j: int|
                    0 <= j < i ==> !(views_of((#[trigger] self.user_groups@[j]).members@).contains(
                        user_id@,
                    ) && group_grants(self.user_groups@[j].permissions, permission@)),
            decreases self.user_groups@.len() - i,
        {
            let group = &self.user_groups[i];
            if contains_str(&group.members, user_id) && self.group_has_permission(
                group,
                permission,
            ) {
                assert(views_of(self.user_groups@[i as int].members@).contains(user_id@)
                    && group_grants(self.user_groups@[i as int].permissions, permission@));
                return true;
            }
            i += 1;
        }
        false
    }

    /// The names of the permissions that the groups of a user grant, each
    /// once.
    pub fn get_user_effective_permissions(&self, user_id: &str) -> (out: Vec<String>)
        ensures
            views_of(out@) == permission_names().filter(
                |p: Seq<char>| granted_to(self.user_groups@, user_id@, p),
            ),
    {
        let ghost keep = |p: Seq<char>| granted_to(self.user_groups@, user_id@, p);
        let mut out: Vec<String> = Vec::new();
        let mut k: usize = 0;
        proof {
            reveal(Seq::filter);
            assert(permission_names().subrange(0, 0) =~= Seq::<Seq<char>>::empty());
            assert(views_of(out@) =~= permission_names().subrange(0, 0).filter(keep));
        }
        while k < 11
            invariant
                k <= 11,
                permission_names().len() == 11,
                keep == |p: Seq<char>| granted_to(self.user_groups@, user_id@, p),
                views_of(out@) == permission_names().subrange(0, k as int).filter(keep),
            decreases 11 - k,
        {
            let name = permission_name(k);
            let ghost before = permission_names().subrange(0, k as int);
            proof {
                assert(permission_names().subrange(0, k as int + 1) =~= before.push(name@));
                before.lemma_filter_push(name@, keep);
            }
            if self.is_granted(user_id, name) {
                let ghost prev = views_of(out@);
                out.push(name.to_owned());
                assert(views_of(out@) =~= prev.push(name@));
            }
            k += 1;
        }
        assert(permission_names().subrange(0, 11) =~= permission_names());
        out
    }
}

} // verus!
