use hbbs_enterprise::auth::{
    claims_from_fields, password_matches, AuthError, AuthManager, ClaimValue, Claims,
    TwoFactorAuth, User,
    UserRole, HASH_COST, LOCKOUT_SECS, MAX_FAILED_ATTEMPTS, SESSION_TIMEOUT_SECS,
};

fn test_user() -> User {
    User {
        id: "test_id".to_string(),
        username: "test_user".to_string(),
        password_hash: "hash".to_string(),
        email: None,
        role: UserRole::User,
        groups: vec!["group1".to_string()],
        enabled: true,
        created_at: 0,
        last_login: None,
        failed_login_attempts: 0,
        locked_until: None,
        two_factor_enabled: false,
        two_factor_secret: None,
    }
}

#[test]
fn test_password_hashing() {
    let auth = AuthManager::new("test_secret".to_string());
    let password = "test_password";
    let hash = auth.hash_password(password).unwrap();
    assert!(auth.verify_password(password, &hash));
    assert!(!auth.verify_password("wrong_password", &hash));
}

#[test]
fn test_jwt_generation() {
    let auth = AuthManager::new("test_secret".to_string());
    let user = test_user();
    let token = auth.generate_jwt(&user).unwrap();
    let claims = auth.verify_jwt(&token).unwrap();
    assert_eq!(claims.username, "test_user");
}

#[test]
fn token_carries_the_claims() {
    let auth = AuthManager::new("test_secret".to_string());
    let user = test_user();
    let now = std::time::SystemTime::now()
        .duration_since(std::time::UNIX_EPOCH)
        .unwrap()
        .as_secs();
    let token = auth.generate_jwt_at(&user, now, "jti-1".to_string()).unwrap();
    assert_ne!(token, "test_secret");
    assert_eq!(token.split('.').count(), 3);
    let claims = auth.verify_jwt(&token).unwrap();
    assert_eq!(
        claims,
        Claims {
            sub: "test_id".to_string(),
            username: "test_user".to_string(),
            role: "User".to_string(),
            groups: vec!["group1".to_string()],
            exp: (now + 8 * 3600) as usize,
            iat: now as usize,
            jti: "jti-1".to_string(),
        }
    );
    // another secret does not verify it
    let other = AuthManager::new("other_secret".to_string());
    assert_eq!(other.verify_jwt(&token), Err(AuthError::Token));
    assert_eq!(auth.verify_jwt("no token"), Err(AuthError::Token));
    // a token that has expired does not stand
    let old = auth.generate_jwt_at(&user, 1000, "jti-2".to_string()).unwrap();
    assert_eq!(auth.verify_jwt(&old), Err(AuthError::Token));
    // an expiry beyond the clock's range
    assert_eq!(
        auth.generate_jwt_at(&user, u64::MAX, "j".to_string()),
        Err(AuthError::Clock)
    );
    assert_eq!(auth.claims_for(&user, u64::MAX - 28799, "j".to_string()), None);
}

#[test]
fn claims_need_every_field() {
    let text = |name: &str, value: &str| (name.to_string(), ClaimValue::Text(value.to_string()));
    let number = |name: &str, value: u64| (name.to_string(), ClaimValue::Number(value));
    let full = || {
        vec![
            text("sub", "s"),
            ("aud".to_string(), ClaimValue::Other),
            text("username", "u"),
            number("exp", 20),
            text("role", "Admin"),
            ("groups".to_string(), ClaimValue::List(vec!["g".to_string()])),
            number("nbf", 5),
            text("jti", "j"),
            number("iat", 10),
        ]
    };
    assert_eq!(
        claims_from_fields(&full()),
        Some(Claims {
            sub: "s".to_string(),
            username: "u".to_string(),
            role: "Admin".to_string(),
            groups: vec!["g".to_string()],
            exp: 20,
            iat: 10,
            jti: "j".to_string(),
        })
    );
    // a claim that is missing
    for name in ["sub", "username", "role", "jti", "exp", "iat", "groups"] {
        let claims: Vec<_> = full().into_iter().filter(|(n, _)| n != name).collect();
        assert_eq!(claims_from_fields(&claims), None);
    }
    // a claim of another shape
    for name in ["sub", "exp", "groups"] {
        let claims: Vec<_> = full()
            .into_iter()
            .map(|(n, v)| if n == name { (n, ClaimValue::Other) } else { (n, v) })
            .collect();
        assert_eq!(claims_from_fields(&claims), None);
    }
    let mut wrong = full();
    wrong[3] = text("exp", "20");
    assert_eq!(claims_from_fields(&wrong), None);
    assert_eq!(claims_from_fields(&vec![]), None);
}

#[test]
fn policy_of_a_new_manager() {
    let auth = AuthManager::new("s".to_string());
    assert_eq!(auth.jwt_secret, "s");
    assert_eq!(auth.session_timeout, 8 * 3600);
    assert_eq!(auth.max_failed_attempts, 5);
    assert_eq!(auth.lockout_duration, 30 * 60);
    assert_eq!(SESSION_TIMEOUT_SECS, 28800);
    assert_eq!(MAX_FAILED_ATTEMPTS, 5);
    assert_eq!(LOCKOUT_SECS, 1800);
    assert_eq!(HASH_COST, 12);
}

#[test]
fn lockout_follows_the_clock() {
    let auth = AuthManager::new("s".to_string());
    let mut user = test_user();
    assert!(!auth.is_user_locked(&user));
    assert!(!auth.is_user_locked_at(&user, 0));
    user.locked_until = Some(100);
    assert!(auth.is_user_locked_at(&user, 99));
    assert!(!auth.is_user_locked_at(&user, 100));
    assert!(!auth.is_user_locked_at(&user, 101));
    assert!(!auth.is_user_locked(&user));
    user.locked_until = Some(u64::MAX);
    assert!(auth.is_user_locked(&user));
    user.failed_login_attempts = 4;
    assert!(!auth.should_lock_user(&user));
    user.failed_login_attempts = 5;
    assert!(auth.should_lock_user(&user));
    assert_eq!(auth.lockout_time_from(1000), 2800);
    assert_eq!(auth.lockout_time_from(u64::MAX - 5), u64::MAX);
    let now = std::time::SystemTime::now()
        .duration_since(std::time::UNIX_EPOCH)
        .unwrap()
        .as_secs();
    let until = auth.generate_lockout_time();
    assert!(until >= now + 1800 && until <= now + 1800 + 60);
}

#[test]
fn roles_decide_permissions() {
    let auth = AuthManager::new("s".to_string());
    let mut user = test_user();
    for role in [UserRole::SuperAdmin, UserRole::Admin, UserRole::User] {
        user.role = role;
        assert!(auth.check_permission(&user, "dev", "access"));
        assert!(auth.check_permission(&user, "dev", "view"));
    }
    user.role = UserRole::ReadOnly;
    assert!(auth.check_permission(&user, "dev", "view"));
    assert!(auth.check_permission(&user, "dev", "monitor"));
    assert!(!auth.check_permission(&user, "dev", "access"));
    assert!(!auth.check_permission(&user, "dev", "control"));
    assert!(!auth.check_permission(&user, "dev", ""));
}

#[test]
fn only_a_clear_yes_passes() {
    assert!(password_matches(Some(true)));
    assert!(!password_matches(Some(false)));
    assert!(!password_matches(None));
    let auth = AuthManager::new("s".to_string());
    assert!(!auth.verify_password("p", "not a hash"));
}

#[test]
fn two_factor_secret_and_url() {
    let tfa = TwoFactorAuth::new();
    let secret = tfa.get_secret().to_string();
    assert_eq!(secret.len(), 32);
    assert!(secret.chars().all(|c| "ABCDEFGHIJKLMNOPQRSTUVWXYZ234567".contains(c)));
    assert_eq!(
        tfa.generate_qr_code_url("alice", "RustDesk"),
        format!("otpauth://totp/RustDesk:alice?secret={}&issuer=RustDesk", secret)
    );
    let fixed = TwoFactorAuth::with_picks(&vec![0, 25, 26, 31, 1]);
    assert_eq!(fixed.get_secret(), "AZ27B");
    assert!(TwoFactorAuth::new().get_secret() != TwoFactorAuth::new().get_secret());
}

#[test]
fn code_shape_is_six_digits() {
    let tfa = TwoFactorAuth::with_picks(&vec![]);
    assert!(tfa.verify_token("123456"));
    assert!(tfa.verify_token("000000"));
    assert!(!tfa.verify_token("12345"));
    assert!(!tfa.verify_token("1234567"));
    assert!(!tfa.verify_token("12345a"));
    assert!(!tfa.verify_token(""));
    assert!(!tfa.verify_token("１２３４５６"));
    assert!(!tfa.verify_token("12é45"));
}
