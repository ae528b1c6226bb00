use hbbs_enterprise::enterprise_rendezvous_server::{
    DEFAULT_MIN_ID_LEN,
    always_use_relay_from, get_server_sk, key_needs_generation, lan_settings,
    resolve_server_key, Data,
    EnterpriseRendezvousServer, KeyPair, PunchHoleDecision, RegisterPkOutcome, ServerConfig,
    ServerKey, UdpOutcome,
};
use hbbs_enterprise::peer::{BindOutcome, Peer, PeerDirectory, SocketAddress};
use hbbs_enterprise::relay::{parse_relay_servers, RelayPool};
use hbbs_enterprise::rendezvous_codec::{
    address_from_bytes, address_to_bytes, decode_message, encode_message, int32_from_wire,
    int32_to_wire,
};
use hbbs_enterprise::wire::{get_varint, put_varint, read_fields, WireField, WireValue};
use hbbs_enterprise::rendezvous_proto::{
    register_pk_response, ConfigUpdate, PunchHoleFailure, PunchHoleRequest, PunchHoleResponse,
    RegisterPeer, RegisterPk, RegisterPkResponse, RegisterPkResult, RendezvousMessage,
};

fn addr(ip: &str, port: u16) -> SocketAddress {
    SocketAddress { ip: ip.to_string(), port }
}

fn server(key: &str, relays: &str, always_use_relay: bool) -> EnterpriseRendezvousServer {
    EnterpriseRendezvousServer::new(ServerConfig {
        port: 21116,
        serial: 3,
        key: key.to_string(),
        rendezvous_servers: vec!["rs1.example.com".to_string(), "rs2.example.com".to_string()],
        relay_servers: relays.to_string(),
        always_use_relay,
        mask: None,
        local_ip: String::new(),
        min_id_len: DEFAULT_MIN_ID_LEN,
    })
    .unwrap()
}

fn register_alice(s: &mut EnterpriseRendezvousServer) -> UdpOutcome {
    s.handle_message(
        RendezvousMessage::RegisterPk(RegisterPk {
            id: "alice".to_string(),
            uuid: b"u1".to_vec(),
            public_key: vec![7u8; 32],
        }),
        addr("10.0.0.1", 4000),
        true,
        false,
        100,
    )
}

fn punch(s: &mut EnterpriseRendezvousServer, target: &str, key: &str) -> UdpOutcome {
    s.handle_message(
        RendezvousMessage::PunchHoleRequest(PunchHoleRequest {
            target_id: target.to_string(),
            license_key: key.to_string(),
        }),
        addr("10.0.0.2", 5000),
        true,
        false,
        101,
    )
}

#[test]
fn worked_example_direct_address() {
    let mut s = server("", "", false);
    assert_eq!(
        register_alice(&mut s),
        UdpOutcome::RegisterPk(RegisterPkOutcome {
            reply: Some(RegisterPkResult::Okay),
            persist: true
        })
    );
    assert_eq!(
        punch(&mut s, "alice", ""),
        UdpOutcome::PunchHole(PunchHoleDecision::Reply(PunchHoleResponse::Address(addr(
            "10.0.0.1", 4000
        ))))
    );
}

#[test]
fn worked_example_by_the_directory() {
    let mut s = server("", "", false);
    assert_eq!(
        s.pm.try_bind("alice".to_string(), b"u1".to_vec(), vec![7u8; 32], addr("10.0.0.1", 4000), 1),
        BindOutcome::Accepted { changed: true }
    );
    let h = s.pm.get_or_create("alice");
    let p = s.pm.peer_at(h);
    assert_eq!((p.uuid.as_slice(), p.public_key.len(), &p.address), (&b"u1"[..], 32, &addr("10.0.0.1", 4000)));
    assert_eq!(
        s.handle_punch_hole_request("alice", "", false),
        PunchHoleDecision::Reply(PunchHoleResponse::Address(addr("10.0.0.1", 4000)))
    );
    let mut licensed = server("secret", "", false);
    licensed.pm.try_bind("alice".to_string(), b"u1".to_vec(), vec![7u8; 32], addr("10.0.0.1", 4000), 1);
    assert_eq!(
        licensed.handle_punch_hole_request("alice", "wrong", false),
        PunchHoleDecision::Reply(PunchHoleResponse::Failure(PunchHoleFailure::LicenseMismatch))
    );
}

#[test]
fn worked_example_license_mismatch() {
    let mut s = server("secret", "", false);
    register_alice(&mut s);
    assert_eq!(
        punch(&mut s, "alice", "wrong"),
        UdpOutcome::PunchHole(PunchHoleDecision::Reply(PunchHoleResponse::Failure(
            PunchHoleFailure::LicenseMismatch
        )))
    );
}

#[test]
fn license_gate_precedes_lookup() {
    let mut s = server("secret", "", false);
    register_alice(&mut s);
    let known = s.handle_punch_hole_request("alice", "wrong", false);
    let unknown = s.handle_punch_hole_request("nobody", "wrong", false);
    let expected =
        PunchHoleDecision::Reply(PunchHoleResponse::Failure(PunchHoleFailure::LicenseMismatch));
    assert_eq!(known, expected);
    assert_eq!(unknown, expected);
    assert_eq!(
        s.handle_punch_hole_request("alice", "secret", false),
        PunchHoleDecision::Reply(PunchHoleResponse::Address(addr("10.0.0.1", 4000)))
    );
    assert_eq!(
        s.handle_punch_hole_request("nobody", "secret", false),
        PunchHoleDecision::ResolveCold
    );
}

#[test]
fn reregistration_is_idempotent() {
    let mut dir = PeerDirectory::new();
    let first = dir.try_bind("alice".to_string(), b"u1".to_vec(), vec![1, 2, 3], addr("1.1.1.1", 1), 10);
    assert_eq!(first, BindOutcome::Accepted { changed: true });
    let before = dir.lookup("alice");
    let second =
        dir.try_bind("alice".to_string(), b"u1".to_vec(), vec![1, 2, 3], addr("1.1.1.1", 1), 20);
    assert_eq!(second, BindOutcome::Accepted { changed: false });
    assert_eq!(dir.lookup("alice"), before);
    assert_eq!(dir.len(), 1);
    let h = dir.get_or_create("alice");
    assert_eq!(dir.peer_at(h).last_seen, 10);
}

#[test]
fn roaming_is_allowed_impersonation_is_not() {
    let mut dir = PeerDirectory::new();
    dir.try_bind("alice".to_string(), b"u1".to_vec(), vec![1], addr("1.1.1.1", 1), 10);
    // same uuid, same key, another address
    assert_eq!(
        dir.try_bind("alice".to_string(), b"u1".to_vec(), vec![1], addr("2.2.2.2", 2), 11),
        BindOutcome::Accepted { changed: true }
    );
    assert_eq!(dir.lookup("alice").unwrap().address, addr("2.2.2.2", 2));
    // same uuid, another key and another address
    assert_eq!(
        dir.try_bind("alice".to_string(), b"u1".to_vec(), vec![9], addr("3.3.3.3", 3), 12),
        BindOutcome::IdentityMismatch
    );
    assert_eq!(dir.lookup("alice").unwrap().address, addr("2.2.2.2", 2));
    // another uuid
    assert_eq!(
        dir.try_bind("alice".to_string(), b"u2".to_vec(), vec![1], addr("2.2.2.2", 2), 13),
        BindOutcome::IdentityMismatch
    );
    // same uuid, another key from the same address
    assert_eq!(
        dir.try_bind("alice".to_string(), b"u1".to_vec(), vec![9], addr("2.2.2.2", 2), 14),
        BindOutcome::Accepted { changed: true }
    );
    let h = dir.get_or_create("alice");
    assert_eq!(dir.peer_at(h).public_key, vec![9]);
    assert_eq!(dir.peer_at(h).last_seen, 14);
}

#[test]
fn placeholder_is_no_peer_until_bound() {
    let mut dir = PeerDirectory::new();
    let h = dir.get_or_create("bob");
    assert_eq!(h, 0);
    assert!(dir.contains("bob"));
    assert!(!dir.peer_at(h).bound);
    assert_eq!(dir.lookup("bob"), None);
    assert_eq!(dir.get_or_create("bob"), 0);
    assert_eq!(dir.len(), 1);
    assert_eq!(
        dir.try_bind("bob".to_string(), b"u".to_vec(), vec![1], addr("1.1.1.1", 1), 5),
        BindOutcome::Accepted { changed: true }
    );
    assert_eq!(dir.lookup("bob").unwrap().uuid, b"u".to_vec());
    dir.record_address("bob", addr("4.4.4.4", 4), 6);
    assert_eq!(dir.lookup("bob").unwrap().address, addr("4.4.4.4", 4));
    assert!(dir.peer_at(0).bound);
}

#[test]
fn restore_keeps_what_the_directory_holds() {
    let mut dir = PeerDirectory::new();
    dir.try_bind("carol".to_string(), b"u".to_vec(), vec![1], addr("1.1.1.1", 1), 5);
    dir.restore(Peer {
        id: "carol".to_string(),
        uuid: b"old".to_vec(),
        public_key: vec![2],
        address: addr("9.9.9.9", 9),
        last_seen: 1,
        bound: true,
    });
    assert_eq!(dir.lookup("carol").unwrap().uuid, b"u".to_vec());
    dir.restore(Peer {
        id: "dave".to_string(),
        uuid: b"d".to_vec(),
        public_key: vec![2],
        address: addr("9.9.9.9", 9),
        last_seen: 1,
        bound: true,
    });
    assert_eq!(dir.lookup("dave").unwrap().address, addr("9.9.9.9", 9));
}

#[test]
fn register_pk_is_checked_before_the_directory() {
    let mut s = server("", "", false);
    let msg = |id: &str, uuid: &[u8], pk: &[u8]| {
        RendezvousMessage::RegisterPk(RegisterPk {
            id: id.to_string(),
            uuid: uuid.to_vec(),
            public_key: pk.to_vec(),
        })
    };
    // no uuid or no key: dropped
    assert_eq!(
        s.handle_message(msg("alice", b"", b"k"), addr("1.1.1.1", 1), true, false, 1),
        UdpOutcome::RegisterPk(RegisterPkOutcome { reply: None, persist: false })
    );
    assert_eq!(
        s.handle_message(msg("alice", b"u", b""), addr("1.1.1.1", 1), true, false, 1),
        UdpOutcome::RegisterPk(RegisterPkOutcome { reply: None, persist: false })
    );
    // an empty identifier is too short for any server
    assert_eq!(
        s.handle_message(msg("", b"u", b"k"), addr("1.1.1.1", 1), true, false, 1),
        UdpOutcome::RegisterPk(RegisterPkOutcome {
            reply: Some(RegisterPkResult::UuidMismatch),
            persist: false
        })
    );
    // a server that asks for six bytes turns five away, and takes six
    let mut strict = EnterpriseRendezvousServer::new(ServerConfig {
        port: 21116,
        serial: 0,
        key: String::new(),
        rendezvous_servers: vec![],
        relay_servers: String::new(),
        always_use_relay: false,
        mask: None,
        local_ip: String::new(),
        min_id_len: 6,
    })
    .unwrap();
    assert_eq!(
        strict.handle_message(msg("alice", b"u", b"k"), addr("1.1.1.1", 1), true, false, 1),
        UdpOutcome::RegisterPk(RegisterPkOutcome {
            reply: Some(RegisterPkResult::UuidMismatch),
            persist: false
        })
    );
    assert!(!strict.pm.contains("alice"));
    assert_eq!(
        strict.handle_message(msg("alice1", b"u", b"k"), addr("1.1.1.1", 1), true, false, 1),
        UdpOutcome::RegisterPk(RegisterPkOutcome {
            reply: Some(RegisterPkResult::Okay),
            persist: true
        })
    );
    // over the rate
    assert_eq!(
        s.handle_message(msg("alice", b"u", b"k"), addr("1.1.1.1", 1), false, false, 1),
        UdpOutcome::RegisterPk(RegisterPkOutcome {
            reply: Some(RegisterPkResult::TooFrequent),
            persist: false
        })
    );
    assert!(!s.pm.contains("alice"));
    // accepted, then unchanged, then mismatch
    assert_eq!(
        s.handle_message(msg("alice", b"u", b"k"), addr("1.1.1.1", 1), true, false, 1),
        UdpOutcome::RegisterPk(RegisterPkOutcome {
            reply: Some(RegisterPkResult::Okay),
            persist: true
        })
    );
    assert_eq!(
        s.handle_message(msg("alice", b"u", b"k"), addr("1.1.1.1", 1), true, false, 2),
        UdpOutcome::RegisterPk(RegisterPkOutcome {
            reply: Some(RegisterPkResult::Okay),
            persist: false
        })
    );
    assert_eq!(
        s.handle_message(msg("alice", b"other", b"k"), addr("1.1.1.1", 1), true, false, 3),
        UdpOutcome::RegisterPk(RegisterPkOutcome {
            reply: Some(RegisterPkResult::UuidMismatch),
            persist: false
        })
    );
}

#[test]
fn register_peer_records_address_and_updates_config() {
    let mut s = server("", "", false);
    let out = s.handle_message(
        RendezvousMessage::RegisterPeer(RegisterPeer { id: "alice".to_string(), serial: 2 }),
        addr("10.0.0.1", 4000),
        true,
        false,
        77,
    );
    match out {
        UdpOutcome::RegisterPeer(o) => {
            let device = o.device.unwrap();
            assert_eq!(device.id, "alice");
            assert_eq!(device.name, "alice");
            assert_eq!(device.os, "Unknown");
            assert_eq!(device.version, "Unknown");
            assert_eq!(device.ip_address, "10.0.0.1");
            assert_eq!(device.owner_id, "system");
            assert_eq!(device.last_online, 77);
            assert!(device.enabled);
            assert_eq!(
                o.reply,
                Some(ConfigUpdate {
                    serial: 3,
                    rendezvous_servers: vec![
                        "rs1.example.com".to_string(),
                        "rs2.example.com".to_string()
                    ],
                })
            );
        }
        other => panic!("unexpected outcome {:?}", other),
    }
    assert!(s.pm.contains("alice"));
    assert_eq!(s.pm.lookup("alice"), None);
    // a peer that is up to date gets no update
    let out = s.handle_register_peer("alice".to_string(), 3, addr("10.0.0.1", 4000), 78);
    assert_eq!(out.reply, None);
    // an empty identifier is ignored
    let out = s.handle_register_peer("".to_string(), 0, addr("10.0.0.1", 4000), 79);
    assert_eq!(out.device, None);
    assert_eq!(out.reply, None);
    assert_eq!(s.pm.len(), 1);
}

#[test]
fn other_messages_are_ignored() {
    let mut s = server("", "", false);
    assert_eq!(
        s.handle_message(
            register_pk_response(RegisterPkResult::Okay),
            addr("1.1.1.1", 1),
            true,
            false,
            1
        ),
        UdpOutcome::Ignored
    );
    assert_eq!(
        register_pk_response(RegisterPkResult::TooFrequent),
        RendezvousMessage::RegisterPkResponse(RegisterPkResponse {
            result: RegisterPkResult::TooFrequent
        })
    );
}

#[test]
fn relay_is_used_when_called_for() {
    let mut s = server("", "r1:21117,r2:21117", false);
    register_alice(&mut s);
    assert_eq!(
        s.handle_punch_hole_request("alice", "", true),
        PunchHoleDecision::Reply(PunchHoleResponse::Relay("r1:21117".to_string()))
    );
    assert_eq!(
        s.handle_punch_hole_request("alice", "", true),
        PunchHoleDecision::Reply(PunchHoleResponse::Relay("r2:21117".to_string()))
    );
    assert_eq!(
        s.handle_punch_hole_request("alice", "", false),
        PunchHoleDecision::Reply(PunchHoleResponse::Address(addr("10.0.0.1", 4000)))
    );
    let mut always = server("", "r1:21117", true);
    register_alice(&mut always);
    assert_eq!(
        always.handle_punch_hole_request("alice", "", false),
        PunchHoleDecision::Reply(PunchHoleResponse::Relay("r1:21117".to_string()))
    );
    // every connection goes through a relay and there is none: the address
    // is not handed out
    let mut none = server("", "", true);
    register_alice(&mut none);
    assert_eq!(
        none.handle_punch_hole_request("alice", "", false),
        PunchHoleDecision::Reply(PunchHoleResponse::Failure(PunchHoleFailure::Offline))
    );
    assert_eq!(
        none.handle_punch_hole_request("alice", "", true),
        PunchHoleDecision::Reply(PunchHoleResponse::Failure(PunchHoleFailure::Offline))
    );
    // a relay is only preferred and there is none: the address is all there is
    let mut preferred = server("", "", false);
    register_alice(&mut preferred);
    assert_eq!(
        preferred.handle_punch_hole_request("alice", "", true),
        PunchHoleDecision::Reply(PunchHoleResponse::Address(addr("10.0.0.1", 4000)))
    );
}

#[test]
fn cold_lookup_is_completed() {
    let mut s = server("", "", false);
    assert_eq!(s.handle_punch_hole_request("erin55", "", false), PunchHoleDecision::ResolveCold);
    assert_eq!(
        s.complete_cold_lookup("erin55", None, false),
        PunchHoleResponse::Failure(PunchHoleFailure::IdNotExist)
    );
    let fetched = Peer {
        id: "erin55".to_string(),
        uuid: b"e".to_vec(),
        public_key: vec![5],
        address: addr("5.5.5.5", 55),
        last_seen: 1,
        bound: true,
    };
    assert_eq!(
        s.complete_cold_lookup("erin55", Some(fetched), false),
        PunchHoleResponse::Address(addr("5.5.5.5", 55))
    );
    assert_eq!(
        s.handle_punch_hole_request("erin55", "", false),
        PunchHoleDecision::Reply(PunchHoleResponse::Address(addr("5.5.5.5", 55)))
    );
}

#[test]
fn rotation_is_fair_over_healthy_relays() {
    let mut pool = RelayPool::new(
        vec!["a".to_string(), "b".to_string(), "c".to_string()],
        2,
    );
    let mut counts = [0usize; 3];
    let n = 1000;
    for k in 0..n {
        let e = pool.rotate_next().unwrap();
        let i = match e.address.as_str() {
            "a" => 0,
            "b" => 1,
            _ => 2,
        };
        assert_eq!(i, k % 3);
        counts[i] += 1;
    }
    assert_eq!(counts, [334, 333, 333]);
}

#[test]
fn rotation_skips_unhealthy_relays() {
    let mut pool = RelayPool::new(
        vec!["a".to_string(), "b".to_string(), "c".to_string()],
        2,
    );
    pool.record_probe("b", false);
    assert!(pool.entry(1).healthy);
    assert_eq!(pool.entry(1).failures, 1);
    pool.record_probe("b", false);
    assert!(!pool.entry(1).healthy);
    assert_eq!(pool.entry(1).failures, 2);
    let picks: Vec<String> = (0..4).map(|_| pool.rotate_next().unwrap().address).collect();
    assert_eq!(picks, vec!["a", "c", "a", "c"]);
    pool.record_probe("b", true);
    assert!(pool.entry(1).healthy);
    assert_eq!(pool.entry(1).failures, 0);
    // none healthy: round robin over all
    pool.record_round(&vec![]);
    pool.record_round(&vec![]);
    assert!(!pool.entry(0).healthy && !pool.entry(1).healthy && !pool.entry(2).healthy);
    let first = pool.rotate_next().unwrap().address;
    let second = pool.rotate_next().unwrap().address;
    let third = pool.rotate_next().unwrap().address;
    assert_eq!(vec![first, second, third], vec!["a", "b", "c"]);
    pool.record_round(&vec!["c".to_string()]);
    assert!(pool.entry(2).healthy);
    assert_eq!(pool.entry(0).failures, 3);
    let mut empty = RelayPool::new(vec![], 2);
    assert_eq!(empty.rotate_next(), None);
}

#[test]
fn relay_list_is_replaced_and_probed() {
    let mut pool = RelayPool::new(vec!["a".to_string(), "b".to_string()], 1);
    assert_eq!(pool.probe_targets(), vec!["a", "b"]);
    pool.record_probe("a", false);
    assert!(!pool.entry(0).healthy);
    pool.replace_list(vec!["c".to_string(), "a".to_string(), "d".to_string()]);
    assert_eq!(pool.len(), 3);
    assert!(pool.entry(0).healthy);
    assert_eq!(pool.entry(1).address, "a");
    assert!(!pool.entry(1).healthy);
    assert_eq!(pool.entry(1).failures, 1);
    assert!(pool.entry(2).healthy);
    pool.replace_list(vec!["only".to_string()]);
    assert_eq!(pool.probe_targets(), Vec::<String>::new());
    assert_eq!(
        parse_relay_servers("r1:21117,,r2:21117,"),
        vec!["r1:21117".to_string(), "r2:21117".to_string()]
    );
    assert_eq!(parse_relay_servers(""), Vec::<String>::new());
    assert_eq!(parse_relay_servers(","), Vec::<String>::new());
    assert_eq!(parse_relay_servers("x"), vec!["x".to_string()]);
}

#[test]
fn mailbox_items_are_handled() {
    let mut s = server("", "r1,r2", false);
    let m = register_pk_response(RegisterPkResult::Okay);
    let sent = s.handle_data(Data::Msg(
        register_pk_response(RegisterPkResult::Okay),
        addr("1.1.1.1", 1),
    ));
    assert_eq!(sent, Some((m, addr("1.1.1.1", 1))));
    assert_eq!(s.relay_probe_targets(), vec!["r1", "r2"]);
    assert_eq!(s.handle_data(Data::RelayServers(vec!["r2".to_string()])), None);
    assert_eq!(s.relay_servers.entry(0).failures, 1);
    assert_eq!(s.relay_servers.entry(1).failures, 0);
    assert_eq!(s.handle_data(Data::RelayServers0("r3".to_string())), None);
    assert_eq!(s.relay_servers.len(), 1);
    assert_eq!(s.relay_servers.entry(0).address, "r3");
    assert_eq!(s.relay_probe_targets(), Vec::<String>::new());
}

#[test]
fn server_needs_a_valid_port() {
    let config = |port: i32| ServerConfig {
        port,
        serial: 0,
        key: String::new(),
        rendezvous_servers: vec![],
        relay_servers: String::new(),
        always_use_relay: false,
        mask: None,
        local_ip: String::new(),
        min_id_len: DEFAULT_MIN_ID_LEN,
    };
    assert!(EnterpriseRendezvousServer::new(config(1)).is_none());
    assert_eq!(EnterpriseRendezvousServer::new(config(2)).unwrap().transports.ports.nat, 1);
    assert!(EnterpriseRendezvousServer::new(config(65533)).is_none());
    let s = EnterpriseRendezvousServer::new(config(3)).unwrap();
    assert_eq!(s.transports.ports.nat, 2);
    assert_eq!(s.transports.ports.ws, 5);
    assert_eq!(s.transports.ports.web, 6);
}

#[test]
fn server_key_is_resolved() {
    let secret: Vec<u8> = (0u8..64).collect();
    let text = "AAECAwQFBgcICQoLDA0ODxAREhMUFRYXGBkaGxwdHh8gISIjJCUmJygpKissLS4vMDEyMzQ1Njc4OTo7PD0+Pw==";
    let (key, sk) = get_server_sk(text, None);
    assert_eq!(key, "ICEiIyQlJicoKSorLC0uLzAxMjM0NTY3ODk6Ozw9Pj8=");
    assert_eq!(sk, Some(secret.clone()));
    assert_eq!(
        resolve_server_key(text, Some(secret.clone()), None),
        ServerKey::Secret { public_half: (32u8..64).collect(), secret_key: secret }
    );
    let pair = || Some(KeyPair { public_key: "PUB".to_string(), secret_key: Some(vec![1, 2]) });
    assert_eq!(get_server_sk("", pair()), (String::new(), Some(vec![1, 2])));
    assert_eq!(get_server_sk("-", pair()), (String::new(), Some(vec![1, 2])));
    assert_eq!(get_server_sk("_", pair()), ("PUB".to_string(), Some(vec![1, 2])));
    assert_eq!(get_server_sk("_", None), (String::new(), None));
    assert_eq!(get_server_sk("mykey", pair()), ("mykey".to_string(), None));
    // a text that decodes, but not to a secret key, is a key as it stands
    assert_eq!(get_server_sk("aGVsbG8=", None), ("aGVsbG8=".to_string(), None));
    assert!(key_needs_generation(""));
    assert!(key_needs_generation("-"));
    assert!(key_needs_generation("_"));
    assert!(!key_needs_generation("k"));
    assert!(always_use_relay_from("Y"));
    assert!(always_use_relay_from("y"));
    assert!(!always_use_relay_from("N"));
    assert!(!always_use_relay_from(""));
    assert!(!always_use_relay_from("yes"));
}

#[test]
fn local_network_needs_a_valid_mask() {
    assert_eq!(
        lan_settings("192.168.0.0/16".to_string(), None, "192.168.1.2".to_string()),
        (Some("192.168.0.0/16".to_string()), "192.168.1.2".to_string())
    );
    assert_eq!(
        lan_settings("10.0.0.0/8".to_string(), Some("10.9.9.9".to_string()), "x".to_string()),
        (Some("10.0.0.0/8".to_string()), "10.9.9.9".to_string())
    );
    assert_eq!(lan_settings("".to_string(), Some("10.9.9.9".to_string()), "x".to_string()), (None, String::new()));
    assert_eq!(lan_settings("10.0.0.0/33".to_string(), None, "x".to_string()), (None, String::new()));
    assert_eq!(lan_settings("::/0".to_string(), None, "x".to_string()), (None, String::new()));
}

#[test]
fn messages_have_their_wire_form() {
    let register_peer =
        RendezvousMessage::RegisterPeer(RegisterPeer { id: "abc".to_string(), serial: 5 });
    assert_eq!(
        encode_message(&register_peer),
        vec![0x32, 0x07, 0x0a, 0x03, b'a', b'b', b'c', 0x10, 0x05]
    );
    let register_pk = RendezvousMessage::RegisterPk(RegisterPk {
        id: "alice".to_string(),
        uuid: b"u1".to_vec(),
        public_key: vec![7, 7],
    });
    assert_eq!(
        encode_message(&register_pk),
        vec![
            0x7a, 0x0f, 0x0a, 0x05, b'a', b'l', b'i', b'c', b'e', 0x12, 0x02, b'u', b'1',
            0x1a, 0x02, 0x07, 0x07
        ]
    );
    let request = RendezvousMessage::PunchHoleRequest(PunchHoleRequest {
        target_id: "bob".to_string(),
        license_key: "k".to_string(),
    });
    assert_eq!(
        encode_message(&request),
        vec![0x42, 0x08, 0x0a, 0x03, b'b', b'o', b'b', 0x1a, 0x01, b'k']
    );
    assert_eq!(
        encode_message(&register_pk_response(RegisterPkResult::UuidMismatch)),
        vec![0x82, 0x01, 0x02, 0x08, 0x02]
    );
    assert_eq!(
        encode_message(&register_pk_response(RegisterPkResult::TooFrequent)),
        vec![0x82, 0x01, 0x02, 0x08, 0x04]
    );
    assert_eq!(encode_message(&register_pk_response(RegisterPkResult::Okay)), vec![0x82, 0x01, 0x00]);
    let mismatch = RendezvousMessage::PunchHoleResponse(PunchHoleResponse::Failure(
        PunchHoleFailure::LicenseMismatch,
    ));
    assert_eq!(encode_message(&mismatch), vec![0x5a, 0x02, 0x18, 0x03]);
    let offline =
        RendezvousMessage::PunchHoleResponse(PunchHoleResponse::Failure(PunchHoleFailure::Offline));
    assert_eq!(encode_message(&offline), vec![0x5a, 0x02, 0x18, 0x02]);
    assert_eq!(decode_message(&[0x5a, 0x02, 0x18, 0x02]), Some(offline));
    assert_eq!(decode_message(&[0x5a, 0x02, 0x18, 0x04]), None);
    let relay = RendezvousMessage::PunchHoleResponse(PunchHoleResponse::Relay("r:1".to_string()));
    assert_eq!(encode_message(&relay), vec![0x5a, 0x05, 0x22, 0x03, b'r', b':', b'1']);
    let address =
        RendezvousMessage::PunchHoleResponse(PunchHoleResponse::Address(addr("1.2.3.4", 0x5279)));
    assert_eq!(
        encode_message(&address),
        vec![0x5a, 0x0b, 0x0a, 0x09, 0x52, 0x79, b'1', b'.', b'2', b'.', b'3', b'.', b'4']
    );
    let update = RendezvousMessage::ConfigUpdate(ConfigUpdate {
        serial: -1,
        rendezvous_servers: vec!["a".to_string(), "".to_string()],
    });
    assert_eq!(
        encode_message(&update),
        vec![
            0x72, 0x10, 0x08, 0xff, 0xff, 0xff, 0xff, 0xff, 0xff, 0xff, 0xff, 0xff, 0x01, 0x12,
            0x01, b'a', 0x12, 0x00
        ]
    );
    for m in [register_peer, register_pk, request, mismatch, relay, address, update] {
        assert_eq!(decode_message(&encode_message(&m)), Some(m));
    }
}

#[test]
fn datagrams_are_read_leniently() {
    // fields that are not known are passed over, and the last field counts
    let bytes = vec![
        0x32, 0x02, 0x0a, 0x00, // a RegisterPeer that is overridden below
        0x08, 0x01, // an unknown field that holds a number
        0x32, 0x10, 0x0a, 0x01, b'x', 0x10, 0x07, 0x0a, 0x02, b'i', b'd', 0x25, 1, 2, 3, 4, 0x10,
        0x09,
    ];
    assert_eq!(
        decode_message(&bytes),
        Some(RendezvousMessage::RegisterPeer(RegisterPeer { id: "id".to_string(), serial: 9 }))
    );
    assert_eq!(decode_message(&[]), None);
    assert_eq!(decode_message(&[0x08, 0x01]), None);
    // a length that runs over the end
    assert_eq!(decode_message(&[0x32, 0x05, 0x0a, 0x01]), None);
    // a text that is no UTF-8
    assert_eq!(decode_message(&[0x32, 0x03, 0x0a, 0x01, 0xff]), None);
    // a result that is not known
    assert_eq!(decode_message(&[0x82, 0x01, 0x02, 0x08, 0x03]), None);
    // field number 0, and a kind of value that is not known
    assert_eq!(decode_message(&[0x02, 0x00]), None);
    assert_eq!(decode_message(&[0x33, 0x00]), None);
    assert_eq!(
        decode_message(&[0x5a, 0x00]),
        Some(RendezvousMessage::PunchHoleResponse(PunchHoleResponse::Failure(
            PunchHoleFailure::IdNotExist
        )))
    );
    let mut s = server("", "", false);
    assert_eq!(s.handle_udp(&[1, 2, 3], addr("1.1.1.1", 1), true, false, 1), UdpOutcome::Ignored);
    let register = encode_message(&RendezvousMessage::RegisterPk(RegisterPk {
        id: "alice".to_string(),
        uuid: b"u1".to_vec(),
        public_key: vec![7u8; 32],
    }));
    assert_eq!(
        s.handle_udp(&register, addr("10.0.0.1", 4000), true, false, 1),
        UdpOutcome::RegisterPk(RegisterPkOutcome {
            reply: Some(RegisterPkResult::Okay),
            persist: true
        })
    );
    assert_eq!(s.pm.lookup("alice").unwrap().address, addr("10.0.0.1", 4000));
}

#[test]
fn numbers_and_fields_on_the_wire() {
    let mut out = vec![9u8];
    put_varint(&mut out, 0);
    put_varint(&mut out, 127);
    put_varint(&mut out, 128);
    put_varint(&mut out, 300);
    put_varint(&mut out, u64::MAX);
    assert_eq!(
        out,
        vec![
            9, 0x00, 0x7f, 0x80, 0x01, 0xac, 0x02, 0xff, 0xff, 0xff, 0xff, 0xff, 0xff, 0xff,
            0xff, 0xff, 0x01
        ]
    );
    assert_eq!(get_varint(&out, 1), Some((0, 1)));
    assert_eq!(get_varint(&out, 3), Some((128, 2)));
    assert_eq!(get_varint(&out, 5), Some((300, 2)));
    assert_eq!(get_varint(&out, 7), Some((u64::MAX, 10)));
    assert_eq!(get_varint(&out, 16), Some((1, 1)));
    assert_eq!(get_varint(&out, 17), None);
    // a number that runs over the end, one of eleven bytes, one beyond 64 bits
    assert_eq!(get_varint(&[0x80], 0), None);
    assert_eq!(get_varint(&[0x80; 11], 0), None);
    assert_eq!(
        get_varint(&[0xff, 0xff, 0xff, 0xff, 0xff, 0xff, 0xff, 0xff, 0xff, 0x02], 0),
        None
    );
    assert_eq!(
        read_fields(&[0x08, 0x05, 0x12, 0x01, 0x41, 0x19, 1, 2, 3, 4, 5, 6, 7, 8, 0x25, 9, 9, 9, 9]),
        Some(vec![
            WireField { number: 1, value: WireValue::Varint(5) },
            WireField { number: 2, value: WireValue::Bytes(vec![0x41]) },
            WireField { number: 3, value: WireValue::Fixed64(vec![1, 2, 3, 4, 5, 6, 7, 8]) },
            WireField { number: 4, value: WireValue::Fixed32(vec![9, 9, 9, 9]) },
        ])
    );
    assert_eq!(read_fields(&[0x19, 1, 2, 3]), None);
    assert_eq!(int32_to_wire(-1), u64::MAX);
    assert_eq!(int32_to_wire(i32::MIN), 0xffff_ffff_8000_0000);
    assert_eq!(int32_to_wire(7), 7);
    assert_eq!(int32_from_wire(u64::MAX), -1);
    assert_eq!(int32_from_wire(0xffff_ffff_8000_0000), i32::MIN);
    assert_eq!(int32_from_wire(0x1_0000_0007), 7);
    assert_eq!(address_to_bytes(&addr("::1", 258)), vec![1, 2, b':', b':', b'1']);
    assert_eq!(address_from_bytes(&[1, 2, b':', b':', b'1']), Some(addr("::1", 258)));
    assert_eq!(address_from_bytes(&[1]), None);
    assert_eq!(address_from_bytes(&[1, 2, 0xff]), None);
    assert_eq!(address_from_bytes(&[0, 0]), Some(addr("", 0)));
}
