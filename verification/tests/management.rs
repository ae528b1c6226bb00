use hbbs_enterprise::auth::{User, UserRole};
use hbbs_enterprise::enterprise_database::DeviceInfo;
use hbbs_enterprise::enterprise_management::{
    default_permission, is_time_allowed, permission_name, AccessType, AutoAssignmentRule,
    DeviceAccess, DeviceGroup, EnterpriseManager, GroupPermissions, ManagementError,
    MonitoringSettings, PermissionCategory, RuleType, SessionInfo, TimeRange, UserGroup,
};

fn permissions() -> GroupPermissions {
    GroupPermissions {
        can_manage_users: false,
        can_manage_groups: false,
        can_manage_devices: false,
        can_view_audit_logs: false,
        can_manage_settings: false,
        can_control_devices: false,
        can_view_screens: false,
        can_transfer_files: false,
        can_use_clipboard: false,
        can_use_audio: false,
        can_record_sessions: false,
        max_file_size: 0,
        allowed_file_types: vec![],
        blocked_file_types: vec![],
        can_upload: false,
        can_download: false,
        can_sync_folders: false,
        session_timeout: None,
        daily_time_limit: None,
        allowed_hours: None,
        allowed_days: vec![],
    }
}

fn user_group(id: &str, name: &str, members: &[&str]) -> UserGroup {
    UserGroup {
        id: id.to_string(),
        name: name.to_string(),
        description: None,
        created_by: "admin".to_string(),
        created_at: 1,
        updated_at: 1,
        members: members.iter().map(|m| m.to_string()).collect(),
        permissions: permissions(),
        device_access: DeviceAccess {
            access_type: AccessType::All,
            device_groups: vec![],
            specific_devices: vec![],
            excluded_devices: vec![],
            ip_restrictions: vec![],
        },
        enabled: true,
    }
}

fn device_group(id: &str, name: &str, devices: &[&str]) -> DeviceGroup {
    DeviceGroup {
        id: id.to_string(),
        name: name.to_string(),
        description: None,
        created_by: "admin".to_string(),
        created_at: 1,
        updated_at: 1,
        devices: devices.iter().map(|m| m.to_string()).collect(),
        parent_group: None,
        child_groups: vec![],
        tags: vec![],
        auto_assignment_rules: vec![],
        monitoring_settings: MonitoringSettings {
            enable_monitoring: false,
            alert_on_offline: false,
            offline_threshold_minutes: 5,
            alert_on_unauthorized_access: false,
            alert_recipients: vec![],
        },
    }
}

fn device(ip: &str, name: &str, os: &str, owner: &str, tags: &[&str]) -> DeviceInfo {
    DeviceInfo {
        id: "dev".to_string(),
        name: name.to_string(),
        os: os.to_string(),
        version: "1".to_string(),
        ip_address: ip.to_string(),
        mac_address: None,
        last_online: 0,
        owner_id: owner.to_string(),
        group_ids: vec![],
        enabled: true,
        tags: tags.iter().map(|m| m.to_string()).collect(),
    }
}

fn rule(rule_type: RuleType, value: &str) -> AutoAssignmentRule {
    AutoAssignmentRule { rule_type, condition: String::new(), value: value.to_string() }
}

fn account(role: UserRole) -> User {
    User {
        id: "u1".to_string(),
        username: "n".to_string(),
        password_hash: String::new(),
        email: None,
        role,
        groups: vec![],
        enabled: true,
        created_at: 0,
        last_login: None,
        failed_login_attempts: 0,
        locked_until: None,
        two_factor_enabled: false,
        two_factor_secret: None,
    }
}

#[test]
fn test_permission_check() {
    let mut m = EnterpriseManager::new();
    let mut g = user_group("g1", "ops", &["u1"]);
    g.permissions.can_control_devices = true;
    g.device_access.excluded_devices = vec!["secret-dev".to_string()];
    m.create_user_group(g).unwrap();
    let user = account(UserRole::User);
    assert!(m.check_user_permission(Some(&user), "u1", "control_devices", None));
    assert!(m.check_user_permission(Some(&user), "u1", "control_devices", Some("dev")));
    assert!(!m.check_user_permission(Some(&user), "u1", "control_devices", Some("secret-dev")));
    assert!(!m.check_user_permission(Some(&user), "u1", "manage_users", None));
    assert!(!m.check_user_permission(Some(&user), "u2", "control_devices", None));
    assert!(!m.check_user_permission(None, "u1", "control_devices", None));
    let root = account(UserRole::SuperAdmin);
    assert!(m.check_user_permission(Some(&root), "whoever", "manage_users", Some("secret-dev")));
}

#[test]
fn test_device_auto_assignment() {
    let mut m = EnterpriseManager::new();
    let mut lan = device_group("lan", "LAN", &[]);
    lan.auto_assignment_rules = vec![rule(RuleType::Os, "nothing"), rule(RuleType::IpRange, "192.168.1.0/24")];
    let mut linux = device_group("linux", "Linux", &["dev"]);
    linux.auto_assignment_rules = vec![rule(RuleType::Os, "LINUX")];
    let mut other = device_group("other", "Other", &[]);
    other.auto_assignment_rules = vec![rule(RuleType::Owner, "bob")];
    m.create_device_group(lan).unwrap();
    m.create_device_group(linux).unwrap();
    m.create_device_group(other).unwrap();
    let d = device("192.168.1.77", "host-a", "Arch Linux", "alice", &[]);
    m.auto_assign_device_to_groups("dev", &d, 99);
    assert_eq!(m.device_groups[0].devices, vec!["dev"]);
    assert_eq!(m.device_groups[0].updated_at, 99);
    // held already: unchanged
    assert_eq!(m.device_groups[1].devices, vec!["dev"]);
    assert_eq!(m.device_groups[1].updated_at, 1);
    assert_eq!(m.device_groups[2].devices, Vec::<String>::new());
}

#[test]
fn assignment_rules_look_at_the_device() {
    let m = EnterpriseManager::new();
    let d = device("10.1.2.3", "build-host-7", "Windows 11", "alice", &["lab", "gpu"]);
    assert!(m.evaluate_assignment_rule(&rule(RuleType::IpRange, "10.0.0.0/8"), &d));
    assert!(!m.evaluate_assignment_rule(&rule(RuleType::IpRange, "192.168.0.0/16"), &d));
    assert!(!m.evaluate_assignment_rule(&rule(RuleType::IpRange, "not a range"), &d));
    assert!(m.ip_in_range("10.1.2.3", "10.1.2.3/32"));
    assert!(!m.ip_in_range("10.1.2.4", "10.1.2.3/32"));
    assert!(!m.ip_in_range("10.0.0.0/8", "10.0.0.0/8"));
    assert!(m.ip_in_range("::1", "::/0"));
    assert!(!m.ip_in_range("10.1.2.3", "::/0"));
    assert!(m.evaluate_assignment_rule(&rule(RuleType::Hostname, "host"), &d));
    assert!(m.evaluate_assignment_rule(&rule(RuleType::Hostname, ""), &d));
    assert!(!m.evaluate_assignment_rule(&rule(RuleType::Hostname, "Host"), &d));
    assert!(m.evaluate_assignment_rule(&rule(RuleType::Os, "WINDOWS"), &d));
    assert!(m.evaluate_assignment_rule(&rule(RuleType::Os, "windows 11"), &d));
    assert!(!m.evaluate_assignment_rule(&rule(RuleType::Os, "linux"), &d));
    assert!(m.evaluate_assignment_rule(&rule(RuleType::Tag, "gpu"), &d));
    assert!(!m.evaluate_assignment_rule(&rule(RuleType::Tag, "gp"), &d));
    assert!(m.evaluate_assignment_rule(&rule(RuleType::Owner, "alice"), &d));
    assert!(!m.evaluate_assignment_rule(&rule(RuleType::Owner, "Alice"), &d));
}

#[test]
fn user_groups_are_kept_by_identifier() {
    let mut m = EnterpriseManager::new();
    assert_eq!(m.create_user_group(user_group("g1", "ops", &[])), Ok("g1".to_string()));
    assert_eq!(
        m.create_user_group(user_group("g2", "ops", &[])),
        Err(ManagementError::GroupNameExists)
    );
    assert_eq!(m.user_groups.len(), 1);
    assert_eq!(m.create_user_group(user_group("g2", "dev", &[])), Ok("g2".to_string()));
    m.update_user_group(user_group("g1", "renamed", &[]));
    assert_eq!(m.user_groups.len(), 2);
    assert_eq!(m.user_groups[0].name, "renamed");
    assert_eq!(m.add_user_to_group("u1", "g1", 50), Ok(true));
    assert_eq!(m.add_user_to_group("u1", "g1", 60), Ok(false));
    assert_eq!(m.user_groups[0].members, vec!["u1"]);
    assert_eq!(m.user_groups[0].updated_at, 50);
    assert_eq!(m.add_user_to_group("u1", "nope", 50), Err(ManagementError::GroupNotFound));
    assert_eq!(m.delete_user_group("g1"), Err(ManagementError::GroupHasMembers));
    assert_eq!(m.add_user_to_group("u2", "g1", 70), Ok(true));
    assert_eq!(m.remove_user_from_group("u1", "g1", 80), Ok(()));
    assert_eq!(m.user_groups[0].members, vec!["u2"]);
    assert_eq!(m.user_groups[0].updated_at, 80);
    assert_eq!(m.remove_user_from_group("u1", "nope", 80), Err(ManagementError::GroupNotFound));
    assert_eq!(m.remove_user_from_group("u2", "g1", 81), Ok(()));
    assert_eq!(m.delete_user_group("g1"), Ok(()));
    assert_eq!(m.delete_user_group("g1"), Ok(()));
    assert_eq!(m.user_groups.len(), 1);
    assert_eq!(m.user_groups[0].id, "g2");
    assert_eq!(ManagementError::GroupNameExists.message(), "Group name already exists");
    assert_eq!(ManagementError::GroupHasMembers.message(), "Cannot delete group with members");
    assert_eq!(ManagementError::GroupNotFound.message(), "Group not found");
    assert_eq!(
        ManagementError::DeviceGroupNameExists.message(),
        "Device group name already exists"
    );
    assert_eq!(ManagementError::DeviceGroupNotFound.message(), "Device group not found");
}

#[test]
fn device_groups_and_access() {
    let mut m = EnterpriseManager::new();
    assert_eq!(m.create_device_group(device_group("d1", "lab", &["a"])), Ok("d1".to_string()));
    assert_eq!(
        m.create_device_group(device_group("d2", "lab", &[])),
        Err(ManagementError::DeviceGroupNameExists)
    );
    assert_eq!(m.add_device_to_group("b", "d1", 5), Ok(true));
    assert_eq!(m.add_device_to_group("b", "d1", 6), Ok(false));
    assert_eq!(m.add_device_to_group("b", "dx", 6), Err(ManagementError::DeviceGroupNotFound));
    assert_eq!(m.device_groups[0].devices, vec!["a", "b"]);
    assert!(m.device_in_allowed_groups("a", &vec!["zz".to_string(), "d1".to_string()]));
    assert!(!m.device_in_allowed_groups("c", &vec!["d1".to_string()]));
    assert!(!m.device_in_allowed_groups("a", &vec![]));
    let mut g = user_group("g", "n", &[]);
    g.device_access.excluded_devices = vec!["x".to_string()];
    g.device_access.specific_devices = vec!["s".to_string()];
    g.device_access.device_groups = vec!["d1".to_string()];
    for (access_type, dev, expected) in [
        (AccessType::All, "x", false),
        (AccessType::All, "y", true),
        (AccessType::Restricted, "x", false),
        (AccessType::Restricted, "s", true),
        (AccessType::SpecificOnly, "s", true),
        (AccessType::SpecificOnly, "a", false),
        (AccessType::GroupOnly, "a", true),
        (AccessType::GroupOnly, "s", false),
    ] {
        g.device_access.access_type = access_type;
        assert_eq!(m.check_device_access(&g, dev), expected);
    }
}

#[test]
fn permissions_by_name() {
    let m = EnterpriseManager::new();
    let mut g = user_group("g", "n", &[]);
    g.permissions.can_view_audit_logs = true;
    g.permissions.can_record_sessions = true;
    assert!(m.group_has_permission(&g, "view_audit_logs"));
    assert!(m.group_has_permission(&g, "record_sessions"));
    assert!(!m.group_has_permission(&g, "manage_users"));
    assert!(!m.group_has_permission(&g, "unknown"));
    assert!(!m.group_has_permission(&g, ""));
    assert_eq!(permission_name(0), "manage_users");
    assert_eq!(permission_name(10), "record_sessions");
}

#[test]
fn effective_permissions_are_the_union() {
    let mut m = EnterpriseManager::new();
    let mut a = user_group("a", "a", &["u1", "u2"]);
    a.permissions.can_use_audio = true;
    a.permissions.can_manage_users = true;
    let mut b = user_group("b", "b", &["u1"]);
    b.permissions.can_use_audio = true;
    b.permissions.can_view_screens = true;
    let mut c = user_group("c", "c", &["u3"]);
    c.permissions.can_manage_settings = true;
    m.create_user_group(a).unwrap();
    m.create_user_group(b).unwrap();
    m.create_user_group(c).unwrap();
    assert_eq!(
        m.get_user_effective_permissions("u1"),
        vec!["manage_users", "view_screens", "use_audio"]
    );
    assert_eq!(m.get_user_effective_permissions("u2"), vec!["manage_users", "use_audio"]);
    assert_eq!(m.get_user_effective_permissions("nobody"), Vec::<String>::new());
}

#[test]
fn default_permissions_are_loaded() {
    let mut m = EnterpriseManager::new();
    m.initialize();
    m.load_default_permissions();
    assert_eq!(m.permissions.len(), 5);
    let ids: Vec<&str> = m.permissions.iter().map(|p| p.id.as_str()).collect();
    assert_eq!(
        ids,
        vec!["manage_users", "manage_groups", "manage_devices", "control_devices", "transfer_files"]
    );
    assert_eq!(m.permissions[0].name, "管理用户");
    assert_eq!(m.permissions[0].description, "创建、编辑、删除用户账户");
    assert_eq!(m.permissions[0].category, PermissionCategory::User);
    assert_eq!(m.permissions[0].required_role, UserRole::Admin);
    assert_eq!(m.permissions[2].category, PermissionCategory::Device);
    assert_eq!(m.permissions[3].required_role, UserRole::User);
    assert_eq!(m.permissions[4].category, PermissionCategory::FileTransfer);
    assert_eq!(default_permission(4).name, "文件传输");
}

#[test]
fn time_ranges_hold_times() {
    let day = TimeRange { start_hour: 9, start_minute: 30, end_hour: 17, end_minute: 0 };
    assert!(is_time_allowed(&day, 9, 30));
    assert!(!is_time_allowed(&day, 9, 29));
    assert!(is_time_allowed(&day, 17, 0));
    assert!(!is_time_allowed(&day, 17, 1));
    let night = TimeRange { start_hour: 22, start_minute: 0, end_hour: 6, end_minute: 0 };
    assert!(is_time_allowed(&night, 23, 0));
    assert!(is_time_allowed(&night, 0, 0));
    assert!(is_time_allowed(&night, 6, 0));
    assert!(!is_time_allowed(&night, 6, 1));
    assert!(!is_time_allowed(&night, 21, 59));
    let always = TimeRange { start_hour: 0, start_minute: 0, end_hour: 23, end_minute: 59 };
    let m = EnterpriseManager::new();
    assert!(m.is_current_time_allowed(&always));
}

#[test]
fn time_restrictions_hold_for_every_group() {
    let mut m = EnterpriseManager::new();
    let mut a = user_group("a", "a", &["u1"]);
    a.permissions.allowed_hours =
        Some(TimeRange { start_hour: 8, start_minute: 0, end_hour: 18, end_minute: 0 });
    let mut b = user_group("b", "b", &["u1"]);
    b.permissions.allowed_days = vec![1, 2, 3, 4, 5];
    let mut c = user_group("c", "c", &["u2"]);
    c.permissions.allowed_days = vec![0];
    m.create_user_group(a).unwrap();
    m.create_user_group(b).unwrap();
    m.create_user_group(c).unwrap();
    assert!(m.check_time_restrictions_at("u1", 1, 12, 0));
    assert!(!m.check_time_restrictions_at("u1", 0, 12, 0));
    assert!(!m.check_time_restrictions_at("u1", 1, 19, 0));
    assert!(m.check_time_restrictions_at("u2", 0, 3, 0));
    assert!(!m.check_time_restrictions_at("u2", 6, 3, 0));
    assert!(m.check_time_restrictions_at("nobody", 6, 3, 0));
    assert!(m.check_time_restrictions("nobody"));
}

#[test]
fn sessions_are_opened_and_closed() {
    let mut m = EnterpriseManager::new();
    let id = m.start_session("u", "d", "1.2.3.4", vec!["view".to_string()], 100);
    assert_eq!(id.len(), 36);
    let other = m.start_session("u", "d", "1.2.3.4", vec![], 100);
    assert_ne!(id, other);
    assert_eq!(m.active_sessions.len(), 2);
    assert_eq!(
        m.active_sessions[0],
        SessionInfo {
            session_id: id.clone(),
            user_id: "u".to_string(),
            device_id: "d".to_string(),
            start_time: 100,
            last_activity: 100,
            permissions: vec!["view".to_string()],
            ip_address: "1.2.3.4".to_string(),
        }
    );
    m.update_session_activity(&id, 130);
    assert_eq!(m.active_sessions[0].last_activity, 130);
    m.update_session_activity("nobody", 140);
    assert_eq!(m.end_session(&id, 160), Some(60));
    assert_eq!(m.end_session(&id, 160), None);
    assert_eq!(m.end_session(&other, 50), Some(0));
    assert_eq!(m.active_sessions.len(), 0);
}
