use hbbs_enterprise::advanced_security::{
    backup_code, detail_value, recent_times, AdvancedSecurityManager, E2EEncryption,
    EncryptedMessage,
    SecurityAction, SecurityError, SecurityEvent, SecurityEventType, SecurityPolicy, SecurityRule,
    SecurityRuleType, SecuritySeverity, TotpConfig,
};

fn event(event_type: SecurityEventType, severity: SecuritySeverity) -> SecurityEvent {
    SecurityEvent {
        id: "e".to_string(),
        event_type,
        severity,
        user_id: None,
        device_id: None,
        ip_address: "1.1.1.1".to_string(),
        user_agent: None,
        details: vec![],
        timestamp: 0,
        resolved: false,
        resolution_notes: None,
    }
}

#[test]
fn test_totp_generation_and_verification() {
    let security_manager = AdvancedSecurityManager::new();
    let secret = security_manager.generate_totp_secret();
    assert_eq!(secret.len(), 32);
    assert!(secret.chars().all(|c| "ABCDEFGHIJKLMNOPQRSTUVWXYZ234567".contains(c)));
}

#[test]
fn test_e2e_encryption() {
    let mut security_manager = AdvancedSecurityManager::new();
    let session_id = "test_session";
    let public_key = security_manager.initiate_e2e_session(session_id);
    assert!(!public_key.is_empty());
    // 32 bytes in base64
    assert_eq!(public_key.len(), 44);
    let session = security_manager.active_sessions.get(session_id).unwrap();
    assert_eq!(session.local_keypair.0.len(), 32);
    assert_eq!(session.local_keypair.1.len(), 32);
    assert_eq!(session.remote_public_key, None);
    assert_eq!(session.nonce_counter, 0);
}

#[test]
fn one_time_codes_follow_the_reference_vector() {
    let m = AdvancedSecurityManager::new();
    let secret = "12345678901234567890";
    assert_eq!(m.verify_totp_code_at(secret, "287082", 59), Ok(true));
    // thirty seconds earlier and later still pass
    assert_eq!(m.verify_totp_code_at(secret, "287082", 29), Ok(true));
    assert_eq!(m.verify_totp_code_at(secret, "287082", 89), Ok(true));
    assert_eq!(m.verify_totp_code_at(secret, "287082", 119), Ok(false));
    assert_eq!(m.verify_totp_code_at(secret, "287083", 59), Ok(false));
    assert_eq!(m.verify_totp_code_at(secret, secret, 59), Ok(false));
    assert_eq!(m.verify_totp_code_at(secret, "081804", 1111111109), Ok(true));
    assert_eq!(m.verify_totp_code_at("short", "287082", 59), Err(SecurityError::SecretTooShort));
    assert_eq!(m.verify_totp_code_at("123456789012345", "287082", 59), Err(SecurityError::SecretTooShort));
    assert!(m.verify_totp_code_at("1234567890123456", "287082", 59).is_ok());
    assert_eq!(m.verify_totp_code(secret, "not a code"), Ok(false));
    assert_eq!(m.verify_totp_code("short", "123456"), Err(SecurityError::SecretTooShort));
}

#[test]
fn enrolment_for_one_time_codes() {
    let mut m = AdvancedSecurityManager::new();
    assert_eq!(m.verify_2fa_at("alice", "123456", 59), Ok(false));
    let out = m.enable_2fa("alice", 500);
    assert_eq!(out.config.issuer, "RustDesk Enterprise");
    assert_eq!(out.config.account_name, "alice");
    assert_eq!(out.config.algorithm, "SHA1");
    assert_eq!(out.config.digits, 6);
    assert_eq!(out.config.period, 30);
    assert_eq!(out.config.secret.len(), 32);
    assert_eq!(out.record.user_id, "alice");
    assert_eq!(out.record.secret, out.config.secret);
    assert!(!out.record.enabled);
    assert_eq!(out.record.created_at, 500);
    assert_eq!(out.record.last_used, None);
    assert_eq!(out.record.backup_codes.len(), 10);
    for code in &out.record.backup_codes {
        assert_eq!(code.len(), 9);
        let (a, b) = code.split_once('-').unwrap();
        let a: u32 = a.parse().unwrap();
        let b: u32 = b.parse().unwrap();
        assert!((1000..9999).contains(&a) && (1000..9999).contains(&b));
    }
    assert_eq!(out.actions, Vec::<SecurityAction>::new());
    assert_eq!(m.totp_configs.get("alice"), Some(&out.config));
    assert_eq!(m.security_events.len(), 1);
    assert_eq!(m.security_events[0].event_type, SecurityEventType::TwoFactorEnabled);
    assert_eq!(m.security_events[0].severity, SecuritySeverity::Medium);
    assert_eq!(m.security_events[0].user_id, Some("alice".to_string()));
    assert_eq!(m.security_events[0].timestamp, 500);
    assert_eq!(m.verify_2fa_at("alice", "not a code", 59), Ok(false));
    assert_eq!(m.verify_2fa("alice", "not a code"), Ok(false));
    m.disable_2fa("alice", 600);
    assert_eq!(m.totp_configs.get("alice"), None);
    assert_eq!(m.security_events.len(), 2);
    assert_eq!(m.security_events[1].event_type, SecurityEventType::TwoFactorDisabled);
    assert_eq!(backup_code(1000, 9998), "1000-9998");
    assert_eq!(backup_code(0, 12), "0-12");
}

#[test]
fn qr_code_is_a_png_in_base64() {
    let m = AdvancedSecurityManager::new();
    let config = TotpConfig {
        issuer: "RustDesk Enterprise".to_string(),
        account_name: "alice".to_string(),
        secret: "JBSWY3DPEHPK3PXP".to_string(),
        algorithm: "SHA1".to_string(),
        digits: 6,
        period: 30,
    };
    assert_eq!(
        m.totp_uri(&config),
        "otpauth://totp/RustDesk Enterprise:alice?secret=JBSWY3DPEHPK3PXP&issuer=RustDesk Enterprise&algorithm=SHA1&digits=6&period=30"
    );
    let qr = m.generate_qr_code(&config).unwrap();
    // every PNG file begins with the same eight bytes
    assert!(qr.starts_with("iVBORw0KGgo"));
    assert_eq!(m.generate_qr_code(&config).unwrap(), qr);
    let mut other = config.clone();
    other.account_name = "bob".to_string();
    assert_ne!(m.generate_qr_code(&other).unwrap(), qr);
    let mut huge = config.clone();
    huge.secret = "A".repeat(4000);
    assert_eq!(m.generate_qr_code(&huge), Err(SecurityError::QrCode));
}

#[test]
fn data_digest_is_sha512_in_base64() {
    let m = AdvancedSecurityManager::new();
    let expected =
        "3a81oZNherrMQXNJriBBMRLm+k6JqX6iCp7u5ktV05ohkpkqJ0/BqDa6PCOj/uu9RU1EI2Q86A4qmslPpUyknw==";
    assert_eq!(m.calculate_data_hash(b"abc"), expected);
    assert!(m.verify_data_integrity(b"abc", expected));
    assert!(!m.verify_data_integrity(b"abd", expected));
    assert!(!m.verify_data_integrity(b"abc", "abc"));
}

#[test]
fn policies_act_on_events() {
    let mut m = AdvancedSecurityManager::new();
    m.initialize(42);
    let policy = m.security_policies.get("default_security_policy").unwrap();
    assert_eq!(policy.name, "默认安全策略");
    assert_eq!(policy.description, "基础安全规则");
    assert!(policy.enabled);
    assert_eq!(policy.created_at, 42);
    assert_eq!(policy.rules.len(), 1);
    assert_eq!(policy.rules[0].id, "failed_login_rule");
    assert_eq!(policy.rules[0].condition, "count >= 5");
    assert_eq!(policy.rules[0].threshold, Some(5));
    assert_eq!(policy.rules[0].time_window, Some(3600));
    let failure = event(SecurityEventType::LoginFailure, SecuritySeverity::Medium);
    let success = event(SecurityEventType::LoginSuccess, SecuritySeverity::Low);
    assert!(m.rule_matches(&policy.rules[0], &failure));
    assert!(!m.rule_matches(&policy.rules[0], &success));
    let other = SecurityRule {
        id: "r".to_string(),
        rule_type: SecurityRuleType::OffHoursAccess,
        condition: String::new(),
        action: SecurityAction::Alert,
        threshold: None,
        time_window: None,
    };
    assert!(!m.rule_matches(&other, &failure));
    assert_eq!(m.evaluate_security_policies(&failure), vec![SecurityAction::Block]);
    assert_eq!(m.evaluate_security_policies(&success), Vec::<SecurityAction>::new());
    m.security_policies.put(
        "second".to_string(),
        SecurityPolicy {
            id: "second".to_string(),
            name: "n".to_string(),
            description: "d".to_string(),
            rules: vec![
                other,
                SecurityRule {
                    id: "r2".to_string(),
                    rule_type: SecurityRuleType::FailedLoginAttempts,
                    condition: String::new(),
                    action: SecurityAction::ForceLogout,
                    threshold: None,
                    time_window: None,
                },
            ],
            enabled: true,
            created_at: 0,
            updated_at: 0,
        },
    );
    assert_eq!(
        m.log_security_event(event(SecurityEventType::LoginFailure, SecuritySeverity::Critical)),
        vec![SecurityAction::Block, SecurityAction::ForceLogout, SecurityAction::Alert]
    );
    assert_eq!(
        m.log_security_event(event(SecurityEventType::DataExfiltration, SecuritySeverity::High)),
        vec![SecurityAction::Alert]
    );
    assert_eq!(
        m.log_security_event(event(SecurityEventType::LoginAttempt, SecuritySeverity::Low)),
        Vec::<SecurityAction>::new()
    );
    assert_eq!(m.security_events.len(), 3);
}

#[test]
fn five_failed_logins_block_the_address() {
    let mut m = AdvancedSecurityManager::new();
    for k in 0..4u64 {
        let out = m.log_login_attempt("alice", "6.6.6.6", false, vec![], 1000 + k);
        assert_eq!(out.attack, None);
    }
    assert!(!m.is_ip_blocked("6.6.6.6"));
    assert_eq!(m.failed_attempts.get("alice:6.6.6.6"), Some(&vec![1000, 1001, 1002, 1003]));
    let details = vec![
        ("x".to_string(), "y".to_string()),
        ("user_agent".to_string(), "agent/1".to_string()),
    ];
    let out = m.log_login_attempt("alice", "6.6.6.6", false, details, 1004);
    assert_eq!(out.actions, Vec::<SecurityAction>::new());
    assert_eq!(out.attack, Some(vec![SecurityAction::Alert]));
    assert!(m.is_ip_blocked("6.6.6.6"));
    assert!(!m.is_ip_blocked("7.7.7.7"));
    let blocked = m.suspicious_ips.get("6.6.6.6").unwrap();
    assert_eq!(blocked.attempts, 5);
    assert_eq!(blocked.first_seen, 1004);
    assert_eq!(blocked.last_seen, 1004);
    assert_eq!(m.security_events.len(), 6);
    assert_eq!(m.security_events[4].event_type, SecurityEventType::LoginFailure);
    assert_eq!(m.security_events[4].user_agent, Some("agent/1".to_string()));
    assert_eq!(m.security_events[5].event_type, SecurityEventType::BruteForceAttack);
    assert_eq!(m.security_events[5].severity, SecuritySeverity::High);
    assert_eq!(
        m.security_events[5].details,
        vec![
            ("attack_type".to_string(), "brute_force".to_string()),
            ("target_user".to_string(), "alice".to_string())
        ]
    );
    // a login that succeeds is not counted
    let out = m.log_login_attempt("bob", "8.8.8.8", true, vec![], 2000);
    assert_eq!(out.attack, None);
    assert_eq!(m.failed_attempts.get("bob:8.8.8.8"), None);
    assert_eq!(m.security_events[6].event_type, SecurityEventType::LoginSuccess);
    assert_eq!(m.security_events[6].severity, SecuritySeverity::Low);
    assert!(m.security_events[6].resolved);
}

#[test]
fn failed_logins_leave_the_window() {
    assert_eq!(recent_times(&vec![0, 1, 3600, 3601, 9000], 3601), vec![3600, 3601, 9000]);
    assert_eq!(recent_times(&vec![2], 3601), vec![2]);
    assert_eq!(recent_times(&vec![1], 3601), Vec::<u64>::new());
    let mut m = AdvancedSecurityManager::new();
    for k in 0..4u64 {
        m.track_failed_attempt("id".to_string(), "alice", "6.6.6.6", k);
    }
    // the fifth comes an hour later: the first four are forgotten
    assert_eq!(m.track_failed_attempt("id".to_string(), "alice", "6.6.6.6", 3603), None);
    assert_eq!(m.failed_attempts.get("alice:6.6.6.6"), Some(&vec![3603]));
    m.track_failed_attempt("id".to_string(), "bob", "6.6.6.6", 5000);
    m.handle_brute_force_attack("id".to_string(), "carol", "9.9.9.9", 5000);
    m.handle_brute_force_attack("id".to_string(), "carol", "4.4.4.4", 90000);
    m.expire_records(3603 + 3600);
    assert_eq!(m.failed_attempts.get("alice:6.6.6.6"), None);
    assert_eq!(m.failed_attempts.get("bob:6.6.6.6"), Some(&vec![5000]));
    assert!(m.is_ip_blocked("9.9.9.9"));
    m.expire_records(5000 + 86400);
    assert!(!m.is_ip_blocked("9.9.9.9"));
    assert!(m.is_ip_blocked("4.4.4.4"));
    assert_eq!(m.failed_attempts.len(), 0);
}

#[test]
fn details_are_found_by_name() {
    let details = vec![
        ("a".to_string(), "1".to_string()),
        ("b".to_string(), "2".to_string()),
        ("a".to_string(), "3".to_string()),
    ];
    assert_eq!(detail_value(&details, "a"), Some("1".to_string()));
    assert_eq!(detail_value(&details, "b"), Some("2".to_string()));
    assert_eq!(detail_value(&details, "c"), None);
}

#[test]
fn handshake_and_sealing() {
    let mut a = AdvancedSecurityManager::new();
    let mut b = AdvancedSecurityManager::new();
    let pk_a = a.initiate_e2e_session("s");
    let pk_b = b.initiate_e2e_session("s");
    assert_ne!(pk_a, pk_b);
    assert_eq!(
        a.encrypt_message("nobody", b"text", 1).unwrap_err(),
        SecurityError::SessionNotFound
    );
    assert_eq!(a.encrypt_message("s", b"text", 1).unwrap_err(), SecurityError::NotEstablished);
    assert_eq!(a.complete_e2e_handshake("s", "not base64!"), Err(SecurityError::Encoding));
    assert_eq!(a.complete_e2e_handshake("s", "aGVsbG8="), Err(SecurityError::InvalidPublicKey));
    assert_eq!(a.complete_e2e_handshake("nobody", &pk_b), Ok(()));
    assert_eq!(a.complete_e2e_handshake("s", &pk_b), Ok(()));
    assert_eq!(b.complete_e2e_handshake("s", &pk_a), Ok(()));
    let sa = a.active_sessions.get("s").unwrap();
    let sb = b.active_sessions.get("s").unwrap();
    assert_eq!(sa.remote_public_key.as_ref(), Some(&sb.local_keypair.0));
    // both sides derive the same key, of 32 bytes, which is neither's own
    assert_eq!(sa.shared_secret, sb.shared_secret);
    assert_eq!(sa.shared_secret.as_ref().unwrap().len(), 32);
    assert_ne!(sa.shared_secret.as_ref(), Some(&sa.local_keypair.1));
    assert_ne!(sa.shared_secret.as_ref(), Some(&sb.local_keypair.0));
    // the session's key is no signing key, so nothing can be signed with it
    assert_eq!(a.encrypt_message("s", b"text", 1).unwrap_err(), SecurityError::Signing);
    assert_eq!(a.active_sessions.get("s").unwrap().nonce_counter, 1);
}

#[test]
fn opening_checks_in_order() {
    let mut m = AdvancedSecurityManager::new();
    let message = |nonce: &str, ciphertext: &str, signature: &str| EncryptedMessage {
        session_id: "s".to_string(),
        nonce: nonce.to_string(),
        ciphertext: ciphertext.to_string(),
        signature: signature.to_string(),
        timestamp: 0,
    };
    assert_eq!(m.decrypt_message(&message("", "", "")), Err(SecurityError::SessionNotFound));
    let mut other = AdvancedSecurityManager::new();
    let pk = other.initiate_e2e_session("s");
    m.initiate_e2e_session("s");
    assert_eq!(m.decrypt_message(&message("", "", "")), Err(SecurityError::NotEstablished));
    m.complete_e2e_handshake("s", &pk).unwrap();
    assert_eq!(m.decrypt_message(&message("!", "", "")), Err(SecurityError::Encoding));
    assert_eq!(m.decrypt_message(&message("", "!", "")), Err(SecurityError::Encoding));
    assert_eq!(m.decrypt_message(&message("", "", "!")), Err(SecurityError::Encoding));
    assert_eq!(
        m.decrypt_message(&message("aGVsbG8=", "aGVsbG8=", "aGVsbG8=")),
        Err(SecurityError::SignatureInvalid)
    );
    assert_eq!(SecurityError::SignatureInvalid.message(), "Signature verification failed");
    assert_eq!(SecurityError::SessionNotFound.message(), "Session not found");
}

#[test]
fn sealed_messages_are_opened_by_the_other_side() {
    let (sign_pk, sign_sk) = sodiumoxide::crypto::sign::gen_keypair();
    let shared = vec![7u8; 32];
    let mut sender = AdvancedSecurityManager::new();
    sender.active_sessions.put(
        "s".to_string(),
        E2EEncryption {
            session_id: "s".to_string(),
            local_keypair: (sign_pk.0.to_vec(), sign_sk.0.to_vec()),
            remote_public_key: None,
            shared_secret: Some(shared.clone()),
            nonce_counter: 41,
        },
    );
    let mut receiver = AdvancedSecurityManager::new();
    receiver.active_sessions.put(
        "s".to_string(),
        E2EEncryption {
            session_id: "s".to_string(),
            local_keypair: (vec![], vec![]),
            remote_public_key: Some(sign_pk.0.to_vec()),
            shared_secret: Some(shared.clone()),
            nonce_counter: 0,
        },
    );
    let text = b"the quick brown fox";
    let message = sender.encrypt_message("s", text, 1234).unwrap();
    assert_eq!(message.session_id, "s");
    assert_eq!(message.timestamp, 1234);
    // a nonce of 24 bytes in base64
    assert_eq!(message.nonce.len(), 32);
    assert_eq!(sender.active_sessions.get("s").unwrap().nonce_counter, 42);
    let sealed = base64::decode(&message.ciphertext).unwrap();
    assert_eq!(sealed.len(), text.len() + 16);
    assert!(!sealed.windows(text.len()).any(|w| w == text));
    // the signed text is the signature and then the sealed text
    let signed = base64::decode(&message.signature).unwrap();
    assert_eq!(signed.len(), sealed.len() + 64);
    assert_eq!(&signed[64..], &sealed[..]);
    assert_eq!(receiver.decrypt_message(&message), Ok(text.to_vec()));
    // another nonce every time
    let again = sender.encrypt_message("s", text, 1234).unwrap();
    assert_ne!(again.nonce, message.nonce);
    assert_ne!(again.ciphertext, message.ciphertext);
    // a ciphertext that is not the signed one
    let mut swapped = message.clone();
    swapped.ciphertext = again.ciphertext.clone();
    assert_eq!(receiver.decrypt_message(&swapped), Err(SecurityError::IntegrityCheckFailed));
    // a nonce of the wrong length, and the wrong nonce
    let mut short = message.clone();
    short.nonce = "aGVsbG8=".to_string();
    assert_eq!(receiver.decrypt_message(&short), Err(SecurityError::InvalidNonce));
    let mut wrong = message.clone();
    wrong.nonce = again.nonce.clone();
    assert_eq!(receiver.decrypt_message(&wrong), Err(SecurityError::DecryptionFailed));
    // a signature of someone else
    let (_, other_sk) = sodiumoxide::crypto::sign::gen_keypair();
    let mut forged = message.clone();
    forged.signature = base64::encode(sodiumoxide::crypto::sign::sign(&sealed, &other_sk));
    assert_eq!(receiver.decrypt_message(&forged), Err(SecurityError::SignatureInvalid));
    // no key of the other side
    let mut blind = AdvancedSecurityManager::new();
    blind.active_sessions.put(
        "s".to_string(),
        E2EEncryption {
            session_id: "s".to_string(),
            local_keypair: (vec![], vec![]),
            remote_public_key: None,
            shared_secret: Some(shared),
            nonce_counter: 0,
        },
    );
    assert_eq!(blind.decrypt_message(&message), Err(SecurityError::RemoteKeyMissing));
}
