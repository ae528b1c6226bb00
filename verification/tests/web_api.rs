use hbbs_enterprise::auth::{AuthManager, Claims, User, UserRole};
use hbbs_enterprise::enterprise_database::{
    audit_selection, default_admin, default_admin_password, device_from_row, device_to_row,
    from_stored_time, max_connections, role_from_name, role_name, to_stored_time,
    update_user_login_info, user_from_row, user_to_row, AuditLog, AuditSelection, DeviceInfo,
    UserRow,
};
use hbbs_enterprise::enterprise_main::{
    console_port, enterprise_mode, generate_random_secret, get_arg_option, secret_with_picks,
    setup_enterprise_environment, start_settings, StartError, StartSettings, RENDEZVOUS_PORT, RMEM,
};
use hbbs_enterprise::enterprise_relay_server::{relay_mode, relay_port, RelayMode, RELAY_PORT};
use hbbs_enterprise::web_api::{
    admin_gate, audit_log_filter, audit_log_response, bearer_token, control_device, create_user,
    current_user_response, dashboard_stats, device_list_response, extract_claims_from_headers,
    is_admin_role, login, login_outcome, logout, new_user, user_created_response, user_info,
    AuditLogFilter, AuditLogQuery, CreateUserRequest, CreateUserStep, HeaderError, LoginRequest,
    StatusCode, UserInfo,
};

fn user() -> User {
    User {
        id: "u1".to_string(),
        username: "alice".to_string(),
        password_hash: "hash".to_string(),
        email: Some("a@example.com".to_string()),
        role: UserRole::Admin,
        groups: vec!["g1".to_string(), "g2".to_string()],
        enabled: true,
        created_at: 5,
        last_login: Some(9),
        failed_login_attempts: 2,
        locked_until: None,
        two_factor_enabled: false,
        two_factor_secret: None,
    }
}

fn claims(role: &str) -> Claims {
    Claims {
        sub: "u1".to_string(),
        username: "alice".to_string(),
        role: role.to_string(),
        groups: vec![],
        exp: 10,
        iat: 0,
        jti: "j".to_string(),
    }
}

fn create_request(role: &str) -> CreateUserRequest {
    CreateUserRequest {
        username: "bob".to_string(),
        password: "pw".to_string(),
        email: None,
        role: role.to_string(),
        groups: vec!["g".to_string()],
    }
}

#[test]
fn enterprise_main_test_generate_random_secret() {
    let secret = generate_random_secret();
    assert_eq!(secret.len(), 64);
    assert!(secret.chars().all(|c| c.is_ascii()));
}

#[test]
fn enterprise_relay_server_test_generate_random_secret() {
    let secret = hbbs_enterprise::enterprise_relay_server::generate_random_secret();
    assert_eq!(secret.len(), 64);
    assert!(secret.chars().all(|c| c.is_ascii()));
}

#[test]
fn secrets_are_drawn_from_the_charset() {
    let charset = "ABCDEFGHIJKLMNOPQRSTUVWXYZabcdefghijklmnopqrstuvwxyz0123456789!@#$%^&*";
    let secret = generate_random_secret();
    assert!(secret.chars().all(|c| charset.contains(c)));
    assert_ne!(secret, generate_random_secret());
    assert_eq!(secret_with_picks(&vec![0, 26, 52, 62, 69]), "Aa0!*");
    assert_eq!(secret_with_picks(&vec![]), "");
}

#[test]
fn start_settings_are_read() {
    assert_eq!(
        start_settings("21116", "0", "7"),
        Ok(StartSettings { port: 21116, rmem: 0, serial: 7 })
    );
    assert_eq!(
        start_settings("3", "x", ""),
        Ok(StartSettings { port: 3, rmem: 0, serial: 0 })
    );
    assert_eq!(start_settings("3", "52428800", "-2").unwrap().rmem, 52428800);
    assert_eq!(start_settings("3", "1", "-2").unwrap().serial, -2);
    assert_eq!(start_settings("2", "0", "0").unwrap().port, 2);
    assert_eq!(start_settings("1", "0", "0"), Err(StartError::InvalidPort));
    assert_eq!(start_settings("-5", "0", "0"), Err(StartError::InvalidPort));
    assert_eq!(start_settings("port", "0", "0"), Err(StartError::PortFormat));
    assert_eq!(start_settings("", "0", "0"), Err(StartError::PortFormat));
    assert_eq!(start_settings("99999999999", "0", "0"), Err(StartError::PortFormat));
    assert_eq!(StartError::InvalidPort.message(), "Invalid port");
    assert_eq!(RENDEZVOUS_PORT, 21116);
    assert_eq!(RMEM, 0);
    assert_eq!(get_arg_option(String::new()), None);
    assert_eq!(get_arg_option("v".to_string()), Some("v".to_string()));
    assert!(enterprise_mode("true", false));
    assert!(enterprise_mode("", true));
    assert!(!enterprise_mode("false", false));
    assert!(!enterprise_mode("TRUE", false));
    assert_eq!(console_port(None, 21116), 21119);
    assert_eq!(console_port(Some(8080), 21116), 8080);
}

#[test]
fn enterprise_environment_is_decided() {
    let env = setup_enterprise_environment(
        Some("s".to_string()),
        false,
        Some("db".to_string()),
        false,
        Some("8080".to_string()),
    );
    assert_eq!(env.jwt_secret, Some("s".to_string()));
    assert!(!env.secret_generated);
    assert_eq!(env.db_url, Some("db".to_string()));
    assert_eq!(env.web_port, Some("8080".to_string()));
    let env = setup_enterprise_environment(None, true, None, true, None);
    assert_eq!(env.jwt_secret, None);
    assert_eq!(env.db_url, None);
    assert!(!env.secret_generated);
    let env = setup_enterprise_environment(None, false, None, false, None);
    assert_eq!(env.jwt_secret.unwrap().len(), 64);
    assert!(env.secret_generated);
    assert_eq!(env.db_url, Some("enterprise.sqlite3".to_string()));
}

#[test]
fn relay_port_follows_the_environment() {
    assert_eq!(RELAY_PORT, 21117);
    assert_eq!(relay_port(None), 21117);
    assert_eq!(relay_port(Some("21116")), 21117);
    assert_eq!(relay_port(Some("5000")), 5001);
    assert_eq!(relay_port(Some("0")), 21117);
    assert_eq!(relay_port(Some("-4")), 21117);
    assert_eq!(relay_port(Some("x")), 21117);
    assert_eq!(relay_port(Some("2147483647")), 21117);
    assert_eq!(relay_mode(true, true), RelayMode::Enterprise);
    assert_eq!(relay_mode(true, false), RelayMode::Standard);
    assert_eq!(relay_mode(false, true), RelayMode::Standard);
}

#[test]
fn roles_have_names() {
    for (role, name) in [
        (UserRole::SuperAdmin, "SuperAdmin"),
        (UserRole::Admin, "Admin"),
        (UserRole::User, "User"),
        (UserRole::ReadOnly, "ReadOnly"),
    ] {
        assert_eq!(role_name(role), name);
        assert_eq!(role_from_name(name), role);
    }
    assert_eq!(role_from_name("admin"), UserRole::User);
    assert_eq!(role_from_name(""), UserRole::User);
    assert!(is_admin_role("SuperAdmin"));
    assert!(is_admin_role("Admin"));
    assert!(!is_admin_role("User"));
    assert!(!is_admin_role("admin"));
}

#[test]
fn users_go_to_rows_and_back() {
    let row = user_to_row(&user()).unwrap();
    assert_eq!(
        row,
        UserRow {
            id: "u1".to_string(),
            username: "alice".to_string(),
            password_hash: "hash".to_string(),
            email: Some("a@example.com".to_string()),
            role: "Admin".to_string(),
            groups: "[\"g1\",\"g2\"]".to_string(),
            enabled: true,
            created_at: 5,
            last_login: None,
            failed_login_attempts: 2,
            locked_until: None,
            two_factor_enabled: false,
            two_factor_secret: None,
        }
    );
    let mut stored = row;
    stored.last_login = Some(9);
    stored.locked_until = Some(-1);
    let back = user_from_row(stored);
    let mut expected = user();
    expected.locked_until = Some(0);
    assert_eq!(back, expected);
    let broken = UserRow {
        id: "x".to_string(),
        username: "x".to_string(),
        password_hash: "x".to_string(),
        email: None,
        role: "Root".to_string(),
        groups: "not json".to_string(),
        enabled: false,
        created_at: -7,
        last_login: None,
        failed_login_attempts: -3,
        locked_until: None,
        two_factor_enabled: true,
        two_factor_secret: Some("s".to_string()),
    };
    let u = user_from_row(broken);
    assert_eq!(u.role, UserRole::User);
    assert_eq!(u.groups, Vec::<String>::new());
    assert_eq!(u.created_at, 0);
    assert_eq!(u.failed_login_attempts, 0);
    assert_eq!(to_stored_time(u64::MAX), i64::MAX);
    assert_eq!(to_stored_time(12), 12);
    assert_eq!(from_stored_time(-1), 0);
    assert_eq!(from_stored_time(12), 12);
}

#[test]
fn devices_go_to_rows_and_back() {
    let device = DeviceInfo {
        id: "d".to_string(),
        name: "n".to_string(),
        os: "o".to_string(),
        version: "v".to_string(),
        ip_address: "1.1.1.1".to_string(),
        mac_address: Some("aa:bb".to_string()),
        last_online: 77,
        owner_id: "u".to_string(),
        group_ids: vec![],
        enabled: true,
        tags: vec!["a b".to_string(), "\"q\"".to_string()],
    };
    let row = device_to_row(&device).unwrap();
    assert_eq!(row.group_ids, "[]");
    assert_eq!(row.tags, "[\"a b\",\"\\\"q\\\"\"]");
    assert_eq!(row.last_online, 77);
    assert_eq!(device_from_row(row), device);
}

#[test]
fn default_admin_account() {
    let admin = default_admin("id".to_string(), "h".to_string(), 3);
    assert_eq!(admin.username, "admin");
    assert_eq!(admin.email, Some("admin@rustdesk.local".to_string()));
    assert_eq!(admin.role, UserRole::SuperAdmin);
    assert_eq!(admin.groups, vec!["administrators"]);
    assert!(admin.enabled);
    assert_eq!(admin.created_at, 3);
    assert_eq!(default_admin_password(), "admin123");
    assert_eq!(max_connections(None), 10);
    assert_eq!(max_connections(Some("25")), 25);
    assert_eq!(max_connections(Some("many")), 10);
    assert_eq!(max_connections(Some("-1")), 10);
}

#[test]
fn logins_are_noted_on_the_account() {
    let mut u = user();
    u.locked_until = Some(99);
    update_user_login_info(&mut u, false, 50);
    assert_eq!(u.failed_login_attempts, 3);
    assert_eq!(u.last_login, Some(9));
    assert_eq!(u.locked_until, Some(99));
    update_user_login_info(&mut u, true, 60);
    assert_eq!(u.failed_login_attempts, 0);
    assert_eq!(u.last_login, Some(60));
    assert_eq!(u.locked_until, None);
    u.failed_login_attempts = u32::MAX;
    update_user_login_info(&mut u, false, 70);
    assert_eq!(u.failed_login_attempts, u32::MAX);
}

#[test]
fn audit_lines_are_selected() {
    assert_eq!(audit_selection(Some("u"), Some("d")), AuditSelection::ByUserAndDevice);
    assert_eq!(audit_selection(Some("u"), None), AuditSelection::ByUser);
    assert_eq!(audit_selection(None, Some("d")), AuditSelection::ByDevice);
    assert_eq!(audit_selection(None, None), AuditSelection::All);
    assert_eq!(
        AuditSelection::ByUser.statement(),
        "SELECT * FROM audit_logs WHERE user_id = ? ORDER BY timestamp DESC LIMIT ? OFFSET ?"
    );
    assert_eq!(
        AuditSelection::All.statement(),
        "SELECT * FROM audit_logs ORDER BY timestamp DESC LIMIT ? OFFSET ?"
    );
    let query = |user_id: Option<&str>, page: Option<u64>, limit: Option<u64>| AuditLogQuery {
        user_id: user_id.map(|s| s.to_string()),
        device_id: Some("d".to_string()),
        page,
        limit,
    };
    assert_eq!(
        audit_log_filter(&claims("Admin"), query(Some("other"), None, None)),
        Some(AuditLogFilter {
            user_id: Some("other".to_string()),
            device_id: Some("d".to_string()),
            limit: 50,
            offset: 0,
        })
    );
    assert_eq!(
        audit_log_filter(&claims("SuperAdmin"), query(None, Some(3), Some(20))),
        Some(AuditLogFilter {
            user_id: None,
            device_id: Some("d".to_string()),
            limit: 20,
            offset: 40,
        })
    );
    assert_eq!(
        audit_log_filter(&claims("User"), query(Some("other"), Some(2), None)),
        Some(AuditLogFilter {
            user_id: Some("u1".to_string()),
            device_id: Some("d".to_string()),
            limit: 50,
            offset: 50,
        })
    );
    assert_eq!(audit_log_filter(&claims("User"), query(None, Some(0), None)), None);
    assert_eq!(audit_log_filter(&claims("User"), query(None, Some(u64::MAX), Some(2))), None);
    assert_eq!(audit_log_filter(&claims("User"), query(None, Some(1), Some(u64::MAX))), None);
}

#[test]
fn bearer_tokens_are_read() {
    assert_eq!(bearer_token(None), Err(HeaderError::Missing));
    assert_eq!(bearer_token(Some("Bearer abc.def")), Ok("abc.def".to_string()));
    assert_eq!(bearer_token(Some("Bearer ")), Ok(String::new()));
    assert_eq!(bearer_token(Some("Bearer")), Err(HeaderError::Format));
    assert_eq!(bearer_token(Some("bearer abc")), Err(HeaderError::Format));
    assert_eq!(bearer_token(Some("Basic abcdef")), Err(HeaderError::Format));
    assert_eq!(bearer_token(Some("")), Err(HeaderError::Format));
    assert_eq!(bearer_token(Some("Bearer é√")), Ok("é√".to_string()));
    let auth = AuthManager::new("secret".to_string());
    assert_eq!(extract_claims_from_headers(&auth, None), Err(HeaderError::Missing));
    assert_eq!(extract_claims_from_headers(&auth, Some("x")), Err(HeaderError::Format));
    assert_eq!(extract_claims_from_headers(&auth, Some("Bearer x")), Err(HeaderError::Token));
    let token = auth.generate_jwt(&user()).unwrap();
    let header = format!("Bearer {}", token);
    let c = extract_claims_from_headers(&auth, Some(&header)).unwrap();
    assert_eq!(c.sub, "u1");
    assert_eq!(c.role, "Admin");
    assert_eq!(c.groups, vec!["g1", "g2"]);
    assert_eq!(HeaderError::Missing.message(), "Missing Authorization header");
    assert_eq!(HeaderError::Format.message(), "Invalid Authorization format");
    assert_eq!(HeaderError::Token.message(), "Invalid token");
}

#[test]
fn login_runs_through_its_steps() {
    let u = user();
    let out = login_outcome(None, false, true, true, Some("t".to_string()), 1);
    let r = out.response.unwrap();
    assert!(!r.success);
    assert_eq!(r.message, "用户名或密码错误");
    assert!(!out.count_failure && !out.note_success && out.audit.is_none());
    let out = login_outcome(Some(&u), true, true, true, Some("t".to_string()), 1);
    assert_eq!(out.response.unwrap().message, "账户已被锁定，请稍后再试");
    assert!(!out.count_failure);
    let out = login_outcome(Some(&u), false, false, true, Some("t".to_string()), 1);
    assert_eq!(out.response.unwrap().message, "用户名或密码错误");
    assert!(out.count_failure);
    let mut two = user();
    two.two_factor_enabled = true;
    let out = login_outcome(Some(&two), false, true, false, Some("t".to_string()), 1);
    assert_eq!(out.response.unwrap().message, "需要双因素认证代码");
    let out = login_outcome(Some(&two), false, true, true, None, 1);
    assert_eq!(out.response, Err(StatusCode::InternalServerError));
    let out = login_outcome(Some(&two), false, true, true, Some("t".to_string()), 123);
    let r = out.response.unwrap();
    assert!(r.success);
    assert_eq!(r.token, Some("t".to_string()));
    assert_eq!(r.message, "登录成功");
    assert_eq!(
        r.user,
        Some(UserInfo {
            id: "u1".to_string(),
            username: "alice".to_string(),
            email: Some("a@example.com".to_string()),
            role: "Admin".to_string(),
            groups: vec!["g1".to_string(), "g2".to_string()],
            enabled: true,
            last_login: Some(9),
        })
    );
    assert!(out.note_success && !out.count_failure);
    assert_eq!(
        out.audit,
        Some(AuditLog {
            id: 0,
            user_id: "u1".to_string(),
            device_id: "system".to_string(),
            action: "login".to_string(),
            details: Some("用户登录".to_string()),
            ip_address: "127.0.0.1".to_string(),
            user_agent: None,
            timestamp: 123,
            success: true,
        })
    );
}

#[test]
fn login_checks_the_password() {
    let auth = AuthManager::new("secret".to_string());
    let mut u = user();
    u.password_hash = auth.hash_password("right").unwrap();
    let request = |password: &str| LoginRequest {
        username: "alice".to_string(),
        password: password.to_string(),
        totp_code: None,
    };
    let out = login(&auth, Some(&u), &request("right"));
    let r = out.response.unwrap();
    assert!(r.success);
    assert!(out.note_success);
    let c = auth.verify_jwt(&r.token.unwrap()).unwrap();
    assert_eq!(c.username, "alice");
    let out = login(&auth, Some(&u), &request("wrong"));
    assert!(!out.response.unwrap().success);
    assert!(out.count_failure);
    let out = login(&auth, None, &request("right"));
    assert!(!out.response.unwrap().success);
    u.locked_until = Some(u64::MAX);
    let out = login(&auth, Some(&u), &request("right"));
    assert_eq!(out.response.unwrap().message, "账户已被锁定，请稍后再试");
}

#[test]
fn answers_and_statuses() {
    let u = user();
    let c = claims("User");
    assert_eq!(current_user_response(None, Ok(Some(&u))), Err(StatusCode::Unauthorized));
    assert_eq!(current_user_response(Some(&c), Ok(None)), Err(StatusCode::NotFound));
    assert_eq!(current_user_response(Some(&c), Err(())), Err(StatusCode::InternalServerError));
    let a = current_user_response(Some(&c), Ok(Some(&u))).unwrap();
    assert!(a.success);
    assert_eq!(a.message, "获取用户信息成功");
    assert_eq!(a.data, Some(user_info(&u)));
    assert_eq!(admin_gate(None), Err(StatusCode::Unauthorized));
    assert_eq!(admin_gate(Some(&c)), Err(StatusCode::Forbidden));
    assert_eq!(admin_gate(Some(&claims("Admin"))), Ok(()));
    assert_eq!(StatusCode::Unauthorized.as_u16(), 401);
    assert_eq!(StatusCode::Forbidden.as_u16(), 403);
    assert_eq!(StatusCode::NotFound.as_u16(), 404);
    assert_eq!(StatusCode::BadRequest.as_u16(), 400);
    assert_eq!(StatusCode::InternalServerError.as_u16(), 500);
    assert_eq!(StatusCode::NotImplemented.as_u16(), 501);
    let l = logout();
    assert!(l.success);
    assert_eq!(l.message, "登出成功");
    assert_eq!(
        dashboard_stats(),
        vec![
            ("total_users".to_string(), 10),
            ("online_devices".to_string(), 5),
            ("total_connections_today".to_string(), 25),
            ("active_sessions".to_string(), 3)
        ]
    );
    let (answer, audit) = control_device(&c, "dev9", 44);
    assert_eq!(answer.data, Some("设备控制会话已建立".to_string()));
    assert_eq!(answer.message, "开始控制设备");
    assert_eq!(audit.action, "control_device");
    assert_eq!(audit.device_id, "dev9");
    assert_eq!(audit.user_id, "u1");
    assert_eq!(audit.details, Some("用户开始控制设备".to_string()));
    assert_eq!(audit.timestamp, 44);
    let logs = audit_log_response(vec![audit]);
    assert_eq!(logs.data.as_ref().unwrap().total, 1);
    assert_eq!(logs.message, "获取审计日志成功");
    let devices = device_list_response(vec![]);
    assert_eq!(devices.data.unwrap().total, 0);
    assert_eq!(devices.message, "获取设备列表成功");
}

#[test]
fn users_are_created_by_administrators() {
    let auth = AuthManager::new("secret".to_string());
    assert_eq!(
        create_user(&auth, None, create_request("User"), false),
        CreateUserStep::Status(StatusCode::Unauthorized)
    );
    assert_eq!(
        create_user(&auth, Some(&claims("User")), create_request("User"), false),
        CreateUserStep::Status(StatusCode::Forbidden)
    );
    match create_user(&auth, Some(&claims("Admin")), create_request("User"), true) {
        CreateUserStep::Refused(a) => {
            assert!(!a.success);
            assert_eq!(a.message, "用户名已存在");
        }
        other => panic!("unexpected step {:?}", other),
    }
    match create_user(&auth, Some(&claims("Admin")), create_request("ReadOnly"), false) {
        CreateUserStep::Store(u) => {
            assert_eq!(u.username, "bob");
            assert_eq!(u.role, UserRole::ReadOnly);
            assert_eq!(u.groups, vec!["g"]);
            assert_eq!(u.id.len(), 36);
            assert!(auth.verify_password("pw", &u.password_hash));
            let a = user_created_response(&u, true).unwrap();
            assert_eq!(a.message, "用户创建成功");
            assert_eq!(a.data.unwrap().username, "bob");
            assert_eq!(user_created_response(&u, false), Err(StatusCode::InternalServerError));
        }
        other => panic!("unexpected step {:?}", other),
    }
    let u = new_user(create_request("nonsense"), "h".to_string(), "id".to_string(), 8);
    assert_eq!(u.role, UserRole::User);
    assert_eq!(u.created_at, 8);
    assert_eq!(u.password_hash, "h");
    assert_eq!(u.failed_login_attempts, 0);
}
