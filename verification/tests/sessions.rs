use hbbs_enterprise::auth::{AuthManager, Claims, User, UserRole};
use hbbs_enterprise::device_session::{
    authenticate_device, DevicePermissions, DeviceSessions, ANONYMOUS_TIMEOUT_SECS,
    AUTHENTICATED_TIMEOUT_SECS, SWEEP_INTERVAL_SECS,
};
use hbbs_enterprise::enterprise_rendezvous_server::{EnterpriseRendezvousServer, ServerConfig};
use hbbs_enterprise::transport::{
    loop_step, server_ports, ListenerKind, LoopFailure, LoopStep, ResourceState, ServerPorts,
    SupervisorAction, TransportEvent, TransportSupervisor,
};

fn user(role: UserRole) -> User {
    User {
        id: "uid".to_string(),
        username: "name".to_string(),
        password_hash: "hash".to_string(),
        email: None,
        role,
        groups: vec![],
        enabled: true,
        created_at: 0,
        last_login: None,
        failed_login_attempts: 0,
        locked_until: None,
        two_factor_enabled: false,
        two_factor_secret: None,
    }
}

fn claims() -> Claims {
    Claims {
        sub: "uid".to_string(),
        username: "name".to_string(),
        role: "User".to_string(),
        groups: vec![],
        exp: 10,
        iat: 0,
        jti: "j".to_string(),
    }
}

#[test]
fn session_tiers_follow_authentication() {
    let mut sessions = DeviceSessions::new();
    let audit = sessions.create_session("dev-a".to_string(), Some("user-1".to_string()), 1000);
    let audit = audit.unwrap();
    assert_eq!(audit.user_id, "user-1");
    assert_eq!(audit.device_id, "dev-a");
    assert_eq!(audit.action, "device_connect");
    assert_eq!(audit.details, Some("设备连接".to_string()));
    assert_eq!(audit.ip_address, "0.0.0.0");
    assert_eq!(audit.timestamp, 1000);
    assert!(audit.success);
    assert_eq!(sessions.create_session("dev-b".to_string(), None, 1000), None);
    let a = sessions.get("dev-a").unwrap();
    assert!(a.authenticated);
    assert_eq!(a.connection_count, 1);
    assert_eq!(a.last_activity, 1000);
    assert_eq!(
        a.permissions,
        DevicePermissions {
            can_control: true,
            can_transfer_files: true,
            can_view_screen: true,
            can_use_audio: true,
            can_use_clipboard: true,
            session_timeout: Some(8 * 3600),
        }
    );
    let b = sessions.get("dev-b").unwrap();
    assert!(!b.authenticated);
    assert_eq!(b.user_id, None);
    assert_eq!(b.permissions, DevicePermissions::default());
    assert_eq!(DevicePermissions::default().session_timeout, Some(3600));
    assert!(!DevicePermissions::default().can_control);
    assert_eq!(ANONYMOUS_TIMEOUT_SECS, 3600);
    assert_eq!(AUTHENTICATED_TIMEOUT_SECS, 28800);
    assert_eq!(SWEEP_INTERVAL_SECS, 60);
    assert_eq!(sessions.len(), 2);
}

#[test]
fn session_expiry_is_monotonic() {
    let mut sessions = DeviceSessions::new();
    sessions.create_session("anon".to_string(), None, 1000);
    sessions.create_session("auth".to_string(), Some("u".to_string()), 1000);
    assert_eq!(sessions.sweep(1000 + 3600 - 1), Vec::<String>::new());
    assert!(sessions.get("anon").is_some());
    assert_eq!(sessions.sweep(1000 + 3600), Vec::<String>::new());
    assert!(sessions.get("anon").is_some());
    assert_eq!(sessions.sweep(1000 + 3600 + 1), vec!["anon".to_string()]);
    assert!(sessions.get("anon").is_none());
    assert!(sessions.get("auth").is_some());
    // a clock that went back expires nothing
    assert_eq!(sessions.sweep(0), Vec::<String>::new());
    assert_eq!(sessions.sweep(1000 + 28800), Vec::<String>::new());
    assert_eq!(sessions.sweep(1000 + 28801), vec!["auth".to_string()]);
    assert_eq!(sessions.len(), 0);
}

#[test]
fn activity_postpones_expiry() {
    let mut sessions = DeviceSessions::new();
    sessions.create_session("d".to_string(), None, 0);
    assert!(sessions.touch("d", 3000));
    assert!(!sessions.touch("nobody", 3000));
    assert_eq!(sessions.sweep(3601), Vec::<String>::new());
    assert_eq!(sessions.get("d").unwrap().last_activity, 3000);
    assert!(sessions.terminate("d"));
    assert!(!sessions.terminate("d"));
    assert!(sessions.get("d").is_none());
    // a new session replaces the old one
    sessions.create_session("d".to_string(), None, 10);
    sessions.create_session("d".to_string(), Some("u".to_string()), 20);
    assert_eq!(sessions.len(), 1);
    assert!(sessions.get("d").unwrap().authenticated);
}

#[test]
fn device_authentication_defaults_to_anonymous() {
    let auth = AuthManager::new("s".to_string());
    let c = claims();
    let admin = user(UserRole::Admin);
    let read_only = user(UserRole::ReadOnly);
    assert_eq!(authenticate_device(&auth, "dev", None, None), None);
    assert_eq!(authenticate_device(&auth, "dev", None, Some(&admin)), None);
    assert_eq!(authenticate_device(&auth, "dev", Some(&c), None), None);
    assert_eq!(
        authenticate_device(&auth, "dev", Some(&c), Some(&admin)),
        Some("uid".to_string())
    );
    // a read-only account may view and monitor, not access
    assert_eq!(authenticate_device(&auth, "dev", Some(&c), Some(&read_only)), None);
}

#[test]
fn server_tracks_sessions() {
    let mut s = EnterpriseRendezvousServer::new(ServerConfig {
        port: 21116,
        serial: 0,
        key: String::new(),
        rendezvous_servers: vec![],
        relay_servers: String::new(),
        always_use_relay: false,
        mask: None,
        local_ip: String::new(),
        min_id_len: 1,
    })
    .unwrap();
    assert!(s.create_device_session("d1".to_string(), Some("u".to_string()), 5).is_some());
    assert!(s.create_device_session("d2".to_string(), None, 5).is_none());
    assert_eq!(s.cleanup_expired_sessions(5 + 3601), vec!["d2".to_string()]);
    assert!(s.device_sessions.get("d1").is_some());
    let auth = AuthManager::new("s".to_string());
    assert_eq!(
        s.authenticate_device(&auth, "d1", Some(&claims()), Some(&user(UserRole::User))),
        Some("uid".to_string())
    );
}

#[test]
fn ports_follow_the_base_port() {
    assert_eq!(
        server_ports(21116),
        Some(ServerPorts { main: 21116, nat: 21115, ws: 21118, web: 21119 })
    );
    assert_eq!(server_ports(1), None);
    assert_eq!(
        server_ports(2),
        Some(ServerPorts { main: 2, nat: 1, ws: 4, web: 5 })
    );
    assert_eq!(server_ports(-1), None);
    assert_eq!(server_ports(65532).unwrap().web, 65535);
    assert_eq!(server_ports(65533), None);
    let p = server_ports(100).unwrap();
    assert_eq!(p.port_of(LoopFailure::UdpSocket), 100);
    assert_eq!(p.port_of(LoopFailure::Listener), 100);
    assert_eq!(p.port_of(LoopFailure::Listener2), 99);
    assert_eq!(p.port_of(LoopFailure::Listener3), 102);
}

#[test]
fn a_failed_transport_is_rebuilt_alone() {
    let mut sup = TransportSupervisor::new(server_ports(21116).unwrap());
    let action = sup.on_failure(LoopFailure::UdpSocket);
    assert_eq!(
        action,
        SupervisorAction::Rebuild { transport: LoopFailure::UdpSocket, port: 21116 }
    );
    assert_eq!(sup.rebuilds, 1);
    assert_eq!(sup.state_of(LoopFailure::UdpSocket), ResourceState::Rebuilding);
    assert_eq!(sup.state_of(LoopFailure::Listener), ResourceState::Serving);
    assert_eq!(sup.state_of(LoopFailure::Listener2), ResourceState::Serving);
    assert_eq!(sup.state_of(LoopFailure::Listener3), ResourceState::Serving);
    // the listeners go on accepting while the socket is rebuilt
    assert_eq!(
        loop_step(TransportEvent::Accepted(ListenerKind::Main)),
        LoopStep::ServeConnection { websocket: false }
    );
    assert_eq!(sup.on_rebuilt(LoopFailure::UdpSocket, true), SupervisorAction::Resume);
    assert_eq!(sup.state_of(LoopFailure::UdpSocket), ResourceState::Serving);
    assert!(!sup.fatal);
    assert_eq!(
        sup.on_failure(LoopFailure::Listener3),
        SupervisorAction::Rebuild { transport: LoopFailure::Listener3, port: 21118 }
    );
    assert_eq!(
        sup.on_failure(LoopFailure::Listener2),
        SupervisorAction::Rebuild { transport: LoopFailure::Listener2, port: 21115 }
    );
    assert_eq!(sup.rebuilds, 3);
    assert_eq!(sup.on_rebuilt(LoopFailure::Listener2, false), SupervisorAction::Exit);
    assert!(sup.fatal);
}

#[test]
fn loop_steps_follow_the_events() {
    assert_eq!(loop_step(TransportEvent::Datagram), LoopStep::HandleDatagram);
    assert_eq!(
        loop_step(TransportEvent::Accepted(ListenerKind::WebSocket)),
        LoopStep::ServeConnection { websocket: true }
    );
    assert_eq!(loop_step(TransportEvent::Accepted(ListenerKind::NatProbe)), LoopStep::ServeNatProbe);
    assert_eq!(loop_step(TransportEvent::Queued), LoopStep::HandleQueued);
    assert_eq!(loop_step(TransportEvent::ProbeTick), LoopStep::ProbeRelays);
    assert_eq!(
        loop_step(TransportEvent::Failed(LoopFailure::UdpSocket)),
        LoopStep::Leave(LoopFailure::UdpSocket)
    );
    assert_eq!(
        loop_step(TransportEvent::Failed(LoopFailure::Listener)),
        LoopStep::Leave(LoopFailure::Listener)
    );
}
