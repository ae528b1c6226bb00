//! The rendezvous server: what it holds, and what it does with each message
//! that reaches it. Registration goes through the identity rule of the peer
//! directory; a punch-hole request is gated by the license key before the
//! directory is looked at.

use vstd::prelude::*;
use vstd::string::*;
use vstd::utf8::encode_utf8;
use crate::boundary::{
    base64_decode, base64_decoded, base64_encode, base64_encoded, is_ipv4_network,
    parses_as_ipv4_network,
};
use crate::auth::{AuthManager, Claims, User};
use crate::device_session::{
    authenticated_user, connect_audit, new_session, swept, session_expired, DeviceSessionView,
    DeviceSessions,
};
use crate::enterprise_database::{opt_view, AuditLog, DeviceInfo, DeviceInfoView};
use crate::peer::{
    after_bind, bind_outcome, restored, seen_at, snapshot_of, stored, AddressView, BindOutcome,
    Peer, PeerDirectory, PeerSnapshot, PeerView, SnapshotView, SocketAddress,
};
use crate::relay::{
    after_round, next_pick, parse_relay_servers, pool_wf, replaced, rotated, RelayPool,
    RelayPoolView,
};
use crate::rendezvous_codec::{decode_message, message_of};
use crate::rendezvous_proto::{
    ConfigUpdate, ConfigUpdateView, MessageView, PunchHoleFailure, PunchHoleResponse,
    PunchHoleResponseView, RegisterPkResult, RendezvousMessage,
};
use crate::text::{
    clone_strings, non_empty_fields, split_at_commas, str_eq, view_opt, view_opt_bytes, views_of,
};
use crate::transport::{server_ports, ports_from, port_is_valid, TransportSupervisor};

verus! {

/// The shortest identifier, in bytes, that can register a key where the
/// server is set up with nothing else: an identifier must not be empty.
pub const DEFAULT_MIN_ID_LEN: usize = 1;

/// The interval of the relay probes, in milliseconds.
pub const CHECK_RELAY_TIMEOUT: u64 = 3_000;

/// After this many failed probes in a row a relay counts as unhealthy.
pub const RELAY_FAILURE_THRESHOLD: u32 = 2;

/// What the server is started with.
#[derive(Debug, PartialEq, Eq)]
pub struct ServerConfig {
    /// The base port.
    pub port: i32,
    /// The serial of the configuration that peers should hold.
    pub serial: i32,
    /// The license key; empty for a server that checks none.
    pub key: String,
    /// The rendezvous servers that are handed to peers.
    pub rendezvous_servers: Vec<String>,
    /// The relay servers, separated by commas.
    pub relay_servers: String,
    /// Whether every connection goes through a relay.
    pub always_use_relay: bool,
    /// The network, in CIDR notation, whose addresses count as local.
    pub mask: Option<String>,
    /// The server's own address in that network; empty without a network.
    pub local_ip: String,
    /// An identifier of fewer bytes than this cannot register a key.
    pub min_id_len: usize,
}

/// The rendezvous server.
pub struct EnterpriseRendezvousServer {
    pub pm: PeerDirectory,
    pub relay_servers: RelayPool,
    pub rendezvous_servers: Vec<String>,
    pub serial: i32,
    /// The license key; empty for a server that checks none.
    pub key: String,
    pub always_use_relay: bool,
    /// The network, in CIDR notation, whose addresses count as local.
    pub mask: Option<String>,
    /// The server's own address in that network; empty without a network.
    pub local_ip: String,
    /// An identifier of fewer bytes than this cannot register a key.
    pub min_id_len: usize,
    pub device_sessions: DeviceSessions,
    pub transports: TransportSupervisor,
}

/// What an `EnterpriseRendezvousServer` holds.
pub ghost struct ServerView {
    pub peers: Map<Seq<char>, PeerView>,
    pub relays: RelayPoolView,
    pub rendezvous_servers: Seq<Seq<char>>,
    pub serial: i32,
    pub key: Seq<char>,
    pub always_use_relay: bool,
    pub mask: Option<Seq<char>>,
    pub local_ip: Seq<char>,
    pub min_id_len: usize,
    pub sessions: Map<Seq<char>, DeviceSessionView>,
    pub transports: TransportSupervisor,
}

impl View for EnterpriseRendezvousServer {
    type V = ServerView;

    open spec fn view(&self) -> ServerView {
        ServerView {
            peers: self.pm@,
            relays: self.relay_servers@,
            rendezvous_servers: views_of(self.rendezvous_servers@),
            serial: self.serial,
            key: self.key@,
            always_use_relay: self.always_use_relay,
            mask: opt_view(self.mask),
            local_ip: self.local_ip@,
            min_id_len: self.min_id_len,
            sessions: self.device_sessions@,
            transports: self.transports,
        }
    }
}

/// What is noted of a device when a peer announces itself.
pub open spec fn device_seen(id: Seq<char>, ip: Seq<char>, now: u64) -> DeviceInfoView {
    DeviceInfoView {
        id,
        name: id,
        os: "Unknown"@,
        version: "Unknown"@,
        ip_address: ip,
        mac_address: None,
        last_online: now,
        owner_id: "system"@,
        group_ids: Seq::empty(),
        enabled: true,
        tags: Seq::empty(),
    }
}

/// What follows from a `RegisterPeer` message: the device record to hand to
/// the storage service, and the configuration update to send back, each
/// where one is due.
#[derive(Debug, PartialEq, Eq)]
pub struct RegisterPeerOutcome {
    pub device: Option<DeviceInfo>,
    pub reply: Option<ConfigUpdate>,
}

/// What a `RegisterPeerOutcome` holds.
pub ghost struct RegisterPeerOutcomeView {
    pub device: Option<DeviceInfoView>,
    pub reply: Option<ConfigUpdateView>,
}

impl View for RegisterPeerOutcome {
    type V = RegisterPeerOutcomeView;

    open spec fn view(&self) -> RegisterPeerOutcomeView {
        RegisterPeerOutcomeView { device: view_opt(self.device), reply: view_opt(self.reply) }
    }
}

/// What follows from a `RegisterPk` message: the result to answer with, if
/// the message is answered at all, and whether the peer's entry has changed
/// and is to be handed to the storage service.
#[derive(Debug, Clone, Copy, PartialEq, Eq, Structural)]
pub struct RegisterPkOutcome {
    pub reply: Option<RegisterPkResult>,
    pub persist: bool,
}

/// What follows from a punch-hole request: the answer, or the order to
/// look the target up in storage first.
#[derive(Debug, PartialEq, Eq)]
pub enum PunchHoleDecision {
    Reply(PunchHoleResponse),
    ResolveCold,
}

/// What a `PunchHoleDecision` holds.
pub ghost enum PunchHoleDecisionView {
    Reply(PunchHoleResponseView),
    ResolveCold,
}

impl View for PunchHoleDecision {
    type V = PunchHoleDecisionView;

    open spec fn view(&self) -> PunchHoleDecisionView {
        match self {
            PunchHoleDecision::Reply(r) => PunchHoleDecisionView::Reply(r@),
            PunchHoleDecision::ResolveCold => PunchHoleDecisionView::ResolveCold,
        }
    }
}

/// What follows from a message that came in over UDP.
#[derive(Debug, PartialEq, Eq)]
pub enum UdpOutcome {
    /// The message is none that the server acts on.
    Ignored,
    RegisterPeer(RegisterPeerOutcome),
    RegisterPk(RegisterPkOutcome),
    PunchHole(PunchHoleDecision),
}

/// What a `UdpOutcome` holds.
pub ghost enum UdpOutcomeView {
    Ignored,
    RegisterPeer(RegisterPeerOutcomeView),
    RegisterPk(RegisterPkOutcome),
    PunchHole(PunchHoleDecisionView),
}

impl View for UdpOutcome {
    type V = UdpOutcomeView;

    open spec fn view(&self) -> UdpOutcomeView {
        match self {
            UdpOutcome::Ignored => UdpOutcomeView::Ignored,
            UdpOutcome::RegisterPeer(o) => UdpOutcomeView::RegisterPeer(o@),
            UdpOutcome::RegisterPk(o) => UdpOutcomeView::RegisterPk(*o),
            UdpOutcome::PunchHole(d) => UdpOutcomeView::PunchHole(d@),
        }
    }
}

/// What the serving loop finds in its mailbox.
#[derive(Debug, PartialEq, Eq)]
pub enum Data {
    /// A message to send out over the UDP socket.
    Msg(RendezvousMessage, SocketAddress),
    /// A new list of relay servers, separated by commas.
    RelayServers0(String),
    /// The relay servers that answered the last round of probes.
    RelayServers(Vec<String>),
}

/// The server after a `RegisterPeer` message: a peer that names itself was
/// seen at the sender's address.
pub open spec fn register_peer_state(
    s: ServerView,
    id: Seq<char>,
    from: AddressView,
    now: u64,
) -> ServerView {
    if id.len() == 0 {
        s
    } else {
        ServerView { peers: s.peers.insert(id, seen_at(stored(s.peers, id), id, from, now)), ..s }
    }
}

/// What follows from a `RegisterPeer` message: nothing for an empty
/// identifier; else the device record, and the configuration update where
/// the peer's serial is behind the server's.
pub open spec fn register_peer_outcome(
    s: ServerView,
    id: Seq<char>,
    serial: i32,
    from: AddressView,
    now: u64,
) -> RegisterPeerOutcomeView {
    if id.len() == 0 {
        RegisterPeerOutcomeView { device: None, reply: None }
    } else {
        RegisterPeerOutcomeView {
            device: Some(device_seen(id, from.ip, now)),
            reply: if s.serial > serial {
                Some(
                    ConfigUpdateView {
                        serial: s.serial,
                        rendezvous_servers: s.rendezvous_servers,
                    },
                )
            } else {
                None
            },
        }
    }
}

/// Whether a `RegisterPk` message gets as far as the identity rule: it
/// carries a uuid and a key, its identifier is long enough, and its source
/// is within the registration rate.
pub open spec fn register_pk_reaches_directory(
    min_id_len: usize,
    id: Seq<char>,
    uuid: Seq<u8>,
    public_key: Seq<u8>,
    within_rate: bool,
) -> bool {
    uuid.len() > 0 && public_key.len() > 0 && encode_utf8(id).len() >= min_id_len && within_rate
}

/// What follows from a `RegisterPk` message. One without a uuid or a key is
/// dropped. An identifier that is too short is answered as a mismatch, a
/// source over its rate as too frequent. What is left goes by the identity
/// rule.
pub open spec fn register_pk_outcome(
    min_id_len: usize,
    peers: Map<Seq<char>, PeerView>,
    id: Seq<char>,
    uuid: Seq<u8>,
    public_key: Seq<u8>,
    from: AddressView,
    within_rate: bool,
) -> RegisterPkOutcome {
    if uuid.len() == 0 || public_key.len() == 0 {
        RegisterPkOutcome { reply: None, persist: false }
    } else if encode_utf8(id).len() < min_id_len {
        RegisterPkOutcome { reply: Some(RegisterPkResult::UuidMismatch), persist: false }
    } else if !within_rate {
        RegisterPkOutcome { reply: Some(RegisterPkResult::TooFrequent), persist: false }
    } else {
        match bind_outcome(stored(peers, id), uuid, public_key, from) {
            BindOutcome::IdentityMismatch => RegisterPkOutcome {
                reply: Some(RegisterPkResult::UuidMismatch),
                persist: false,
            },
            BindOutcome::Accepted { changed } => RegisterPkOutcome {
                reply: Some(RegisterPkResult::Okay),
                persist: changed,
            },
        }
    }
}

/// The server after a `RegisterPk` message.
pub open spec fn register_pk_state(
    s: ServerView,
    id: Seq<char>,
    uuid: Seq<u8>,
    public_key: Seq<u8>,
    from: AddressView,
    within_rate: bool,
    now: u64,
) -> ServerView {
    if register_pk_reaches_directory(s.min_id_len, id, uuid, public_key, within_rate) {
        ServerView { peers: after_bind(s.peers, id, uuid, public_key, from, now), ..s }
    } else {
        s
    }
}

/// Whether a request passes the license gate: the server has no key, or
/// the request carries the server's key.
pub open spec fn license_passes(configured: Seq<char>, supplied: Seq<char>) -> bool {
    configured.len() == 0 || supplied == configured
}

/// The answer to a request whose target was resolved. An unknown target
/// fails. A known one is answered with a relay where one is called for,
/// by the server's setting or by the caller, and the pool has one. Without
/// a relay to hand out, a server on which every connection goes through a
/// relay answers that the target cannot be reached, and never with the
/// target's address; any other server answers with the address.
pub open spec fn punch_hole_reply(
    target: Option<SnapshotView>,
    always_use_relay: bool,
    prefer_relay: bool,
    relays: RelayPoolView,
) -> PunchHoleResponseView {
    match target {
        None => PunchHoleResponseView::Failure(PunchHoleFailure::IdNotExist),
        Some(t) => if (always_use_relay || prefer_relay) && relays.entries.len() > 0 {
            PunchHoleResponseView::Relay(
                relays.entries[next_pick(relays.entries, relays.cursor)].address,
            )
        } else if always_use_relay {
            PunchHoleResponseView::Failure(PunchHoleFailure::Offline)
        } else {
            PunchHoleResponseView::Address(t.address)
        },
    }
}

/// The relay pool after that answer: it has rotated where a relay was
/// called for.
pub open spec fn relays_after_reply(
    target: Option<SnapshotView>,
    always_use_relay: bool,
    prefer_relay: bool,
    relays: RelayPoolView,
) -> RelayPoolView {
    if target is Some && (always_use_relay || prefer_relay) {
        rotated(relays)
    } else {
        relays
    }
}

/// What follows from a punch-hole request. The license gate comes first;
/// behind it a target that the directory holds is resolved at once, and any
/// other is looked up in storage.
pub open spec fn punch_hole_decision(
    s: ServerView,
    target_id: Seq<char>,
    license_key: Seq<char>,
    prefer_relay: bool,
) -> PunchHoleDecisionView {
    if !license_passes(s.key, license_key) {
        PunchHoleDecisionView::Reply(
            PunchHoleResponseView::Failure(PunchHoleFailure::LicenseMismatch),
        )
    } else if !s.peers.dom().contains(target_id) {
        PunchHoleDecisionView::ResolveCold
    } else {
        PunchHoleDecisionView::Reply(
            punch_hole_reply(
                snapshot_of(s.peers, target_id),
                s.always_use_relay,
                prefer_relay,
                s.relays,
            ),
        )
    }
}

/// The server after a punch-hole request.
pub open spec fn punch_hole_state(
    s: ServerView,
    target_id: Seq<char>,
    license_key: Seq<char>,
    prefer_relay: bool,
) -> ServerView {
    if license_passes(s.key, license_key) && s.peers.dom().contains(target_id) {
        ServerView {
            relays: relays_after_reply(
                snapshot_of(s.peers, target_id),
                s.always_use_relay,
                prefer_relay,
                s.relays,
            ),
            ..s
        }
    } else {
        s
    }
}

/// The directory once the storage lookup for `target_id` has come back:
/// an entry that was found for that identifier is taken in.
pub open spec fn peers_after_lookup(
    peers: Map<Seq<char>, PeerView>,
    target_id: Seq<char>,
    fetched: Option<PeerView>,
) -> Map<Seq<char>, PeerView> {
    match fetched {
        Some(p) => if p.id == target_id {
            restored(peers, p)
        } else {
            peers
        },
        None => peers,
    }
}

/// What follows from a message that came in over UDP.
pub open spec fn udp_outcome(
    s: ServerView,
    msg: MessageView,
    from: AddressView,
    within_rate: bool,
    prefer_relay: bool,
    now: u64,
) -> UdpOutcomeView {
    match msg {
        MessageView::RegisterPeer { id, serial } => UdpOutcomeView::RegisterPeer(
            register_peer_outcome(s, id, serial, from, now),
        ),
        MessageView::RegisterPk { id, uuid, public_key } => UdpOutcomeView::RegisterPk(
            register_pk_outcome(s.min_id_len, s.peers, id, uuid, public_key, from, within_rate),
        ),
        MessageView::PunchHoleRequest { target_id, license_key } => UdpOutcomeView::PunchHole(
            punch_hole_decision(s, target_id, license_key, prefer_relay),
        ),
        _ => UdpOutcomeView::Ignored,
    }
}

/// The server after a message that came in over UDP.
pub open spec fn udp_state(
    s: ServerView,
    msg: MessageView,
    from: AddressView,
    within_rate: bool,
    prefer_relay: bool,
    now: u64,
) -> ServerView {
    match msg {
        MessageView::RegisterPeer { id, serial } => register_peer_state(s, id, from, now),
        MessageView::RegisterPk { id, uuid, public_key } => register_pk_state(
            s,
            id,
            uuid,
            public_key,
            from,
            within_rate,
            now,
        ),
        MessageView::PunchHoleRequest { target_id, license_key } => punch_hole_state(
            s,
            target_id,
            license_key,
            prefer_relay,
        ),
        _ => s,
    }
}

/// The server after an item from the mailbox.
pub open spec fn data_state(s: ServerView, data: Data) -> ServerView {
    match data {
        Data::Msg(_, _) => s,
        Data::RelayServers0(list) => ServerView {
            relays: replaced(s.relays, non_empty_fields(split_at_commas(list@))),
            ..s
        },
        Data::RelayServers(reachable) => ServerView {
            relays: RelayPoolView {
                entries: after_round(
                    s.relays.entries,
                    views_of(reachable@),
                    s.relays.failure_threshold,
                ),
                ..s.relays
            },
            ..s
        },
    }
}

impl EnterpriseRendezvousServer {
    /// The parts of the server are well formed.
    pub open spec fn wf(&self) -> bool {
        &&& self.pm.wf()
        &&& self.relay_servers.wf()
        &&& self.device_sessions.wf()
    }

    /// A server with an empty directory and no sessions, or nothing where
    /// the base port cannot be served.
    pub fn new(config: ServerConfig) -> (r: Option<Self>)
        ensures
            r is Some <==> port_is_valid(config.port),
            match r {
                Some(s) => {
                    &&& s.wf()
                    &&& s@.peers == Map::<Seq<char>, PeerView>::empty()
                    &&& s@.sessions == Map::<Seq<char>, DeviceSessionView>::empty()
                    &&& s@.relays == replaced(
                        RelayPoolView {
                            entries: Seq::empty(),
                            cursor: 0,
                            failure_threshold: RELAY_FAILURE_THRESHOLD,
                        },
                        non_empty_fields(split_at_commas(config.relay_servers@)),
                    )
                    &&& s@.rendezvous_servers == views_of(config.rendezvous_servers@)
                    &&& s@.serial == config.serial
                    &&& s@.key == config.key@
                    &&& s@.always_use_relay == config.always_use_relay
                    &&& s@.mask == opt_view(config.mask)
                    &&& s@.local_ip == config.local_ip@
                    &&& s@.min_id_len == config.min_id_len
                    &&& s@.transports == TransportSupervisor {
                        ports: ports_from(config.port),
                        udp: crate::transport::ResourceState::Serving,
                        listener: crate::transport::ResourceState::Serving,
                        listener2: crate::transport::ResourceState::Serving,
                        listener3: crate::transport::ResourceState::Serving,
                        rebuilds: 0,
                        fatal: false,
                    }
                },
                None => true,
            },
    {
        let ports = match server_ports(config.port) {
            Some(p) => p,
            None => {
                return None;
            },
        };
        let mut relay_servers = RelayPool::new(Vec::new(), RELAY_FAILURE_THRESHOLD);
        assert(relay_servers@.entries =~= Seq::empty());
        relay_servers.replace_list(parse_relay_servers(config.relay_servers.as_str()));
        let transports = TransportSupervisor::new(ports);
        assert(transports.udp == transports.spec_state_of(crate::transport::LoopFailure::UdpSocket));
        assert(transports.listener == transports.spec_state_of(
            crate::transport::LoopFailure::Listener,
        ));
        assert(transports.listener2 == transports.spec_state_of(
            crate::transport::LoopFailure::Listener2,
        ));
        assert(transports.listener3 == transports.spec_state_of(
            crate::transport::LoopFailure::Listener3,
        ));
        Some(
            EnterpriseRendezvousServer {
                pm: PeerDirectory::new(),
                relay_servers,
                rendezvous_servers: config.rendezvous_servers,
                serial: config.serial,
                key: config.key,
                always_use_relay: config.always_use_relay,
                mask: config.mask,
                local_ip: config.local_ip,
                min_id_len: config.min_id_len,
                device_sessions: DeviceSessions::new(),
                transports,
            },
        )
    }

    /// Handles a `RegisterPeer` message that came from `from` at time `now`.
    pub fn handle_register_peer(
        &mut self,
        id: String,
        serial: i32,
        from: SocketAddress,
        now: u64,
    ) -> (out: RegisterPeerOutcome)
        requires
            old(self).wf(),
        ensures
            final(self).wf(),
            final(self)@ == register_peer_state(old(self)@, id@, from@, now),
            out@ == register_peer_outcome(old(self)@, id@, serial, from@, now),
    {
        if id.as_str().is_empty() {
            return RegisterPeerOutcome { device: None, reply: None };
        }
        let device = DeviceInfo {
            id: id.clone(),
            name: id.clone(),
            os: "Unknown".to_string(),
            version: "Unknown".to_string(),
            ip_address: from.ip.clone(),
            mac_address: None,
            last_online: now,
            owner_id: "system".to_string(),
            group_ids: Vec::new(),
            enabled: true,
            tags: Vec::new(),
        };
        assert(device@.group_ids =~= Seq::empty());
        assert(device@.tags =~= Seq::empty());
        self.pm.record_address(id.as_str(), from, now);
        let reply = if self.serial > serial {
            Some(
                ConfigUpdate {
                    serial: self.serial,
                    rendezvous_servers: clone_strings(&self.rendezvous_servers),
                },
            )
        } else {
            None
        };
        RegisterPeerOutcome { device: Some(device), reply }
    }

    /// Handles a `RegisterPk` message that came from `from` at time `now`.
    /// `within_rate` is the verdict of the guard that counts registrations
    /// by source.
    pub fn handle_register_pk(
        &mut self,
        id: String,
        uuid: Vec<u8>,
        public_key: Vec<u8>,
        from: SocketAddress,
        within_rate: bool,
        now: u64,
    ) -> (out: RegisterPkOutcome)
        requires
            old(self).wf(),
        ensures
            final(self).wf(),
            final(self)@ == register_pk_state(
                old(self)@,
                id@,
                uuid@,
                public_key@,
                from@,
                within_rate,
                now,
            ),
            out == register_pk_outcome(
                old(self)@.min_id_len,
                old(self)@.peers,
                id@,
                uuid@,
                public_key@,
                from@,
                within_rate,
            ),
    {
        if uuid.len() == 0 || public_key.len() == 0 {
            return RegisterPkOutcome { reply: None, persist: false };
        }
        if id.as_str().as_bytes().len() < self.min_id_len {
            return RegisterPkOutcome {
                reply: Some(RegisterPkResult::UuidMismatch),
                persist: false,
            };
        }
        if !within_rate {
            return RegisterPkOutcome { reply: Some(RegisterPkResult::TooFrequent), persist: false };
        }
        match self.pm.try_bind(id, uuid, public_key, from, now) {
            BindOutcome::IdentityMismatch => RegisterPkOutcome {
                reply: Some(RegisterPkResult::UuidMismatch),
                persist: false,
            },
            BindOutcome::Accepted { changed } => RegisterPkOutcome {
                reply: Some(RegisterPkResult::Okay),
                persist: changed,
            },
        }
    }

    fn reply_for(&mut self, target: Option<PeerSnapshot>, prefer_relay: bool) -> (r:
        PunchHoleResponse)
        requires
            old(self).wf(),
        ensures
            final(self).wf(),
            r@ == punch_hole_reply(
                view_opt(target),
                old(self)@.always_use_relay,
                prefer_relay,
                old(self)@.relays,
            ),
            final(self)@ == (ServerView {
                relays: relays_after_reply(
                    view_opt(target),
                    old(self)@.always_use_relay,
                prefer_relay,
                    old(self)@.relays,
                ),
                ..old(self)@
            }),
    {
        match target {
            None => PunchHoleResponse::Failure(PunchHoleFailure::IdNotExist),
            Some(t) => {
                if self.always_use_relay || prefer_relay {
                    match self.relay_servers.rotate_next() {
                        Some(e) => PunchHoleResponse::Relay(e.address),
                        None => if self.always_use_relay {
                            PunchHoleResponse::Failure(PunchHoleFailure::Offline)
                        } else {
                            PunchHoleResponse::Address(t.address)
                        },
                    }
                } else {
                    PunchHoleResponse::Address(t.address)
                }
            },
        }
    }

    /// Handles a punch-hole request for `target_id` that carries
    /// `license_key`. `prefer_relay` is the caller's judgement that a direct
    /// connection cannot be had.
    pub fn handle_punch_hole_request(
        &mut self,
        target_id: &str,
        license_key: &str,
        prefer_relay: bool,
    ) -> (out: PunchHoleDecision)
        requires
            old(self).wf(),
        ensures
            final(self).wf(),
            out@ == punch_hole_decision(old(self)@, target_id@, license_key@, prefer_relay),
            final(self)@ == punch_hole_state(old(self)@, target_id@, license_key@, prefer_relay),
    {
        if !self.key.as_str().is_empty() && !str_eq(license_key, self.key.as_str()) {
            return PunchHoleDecision::Reply(
                PunchHoleResponse::Failure(PunchHoleFailure::LicenseMismatch),
            );
        }
        if !self.pm.contains(target_id) {
            return PunchHoleDecision::ResolveCold;
        }
        let target = self.pm.lookup(target_id);
        PunchHoleDecision::Reply(self.reply_for(target, prefer_relay))
    }

    /// Answers a punch-hole request once the storage lookup for its target
    /// has come back with `fetched`. The request has passed the license
    /// gate before the lookup was ordered.
    pub fn complete_cold_lookup(
        &mut self,
        target_id: &str,
        fetched: Option<Peer>,
        prefer_relay: bool,
    ) -> (r: PunchHoleResponse)
        requires
            old(self).wf(),
        ensures
            final(self).wf(),
            final(self)@.peers == peers_after_lookup(old(self)@.peers, target_id@, view_opt(fetched)),
            r@ == punch_hole_reply(
                snapshot_of(final(self)@.peers, target_id@),
                old(self)@.always_use_relay,
                prefer_relay,
                old(self)@.relays,
            ),
            final(self)@ == (ServerView {
                peers: final(self)@.peers,
                relays: relays_after_reply(
                    snapshot_of(final(self)@.peers, target_id@),
                    old(self)@.always_use_relay,
                prefer_relay,
                    old(self)@.relays,
                ),
                ..old(self)@
            }),
    {
        match fetched {
            Some(p) => {
                if str_eq(p.id.as_str(), target_id) {
                    self.pm.restore(p);
                }
            },
            None => {},
        }
        let target = self.pm.lookup(target_id);
        self.reply_for(target, prefer_relay)
    }

    /// Handles a datagram that came in over UDP from `from` at time `now`:
    /// the message that it holds, if it holds one, is handled; any other
    /// datagram is ignored.
    pub fn handle_udp(
        &mut self,
        bytes: &[u8],
        from: SocketAddress,
        within_rate: bool,
        prefer_relay: bool,
        now: u64,
    ) -> (out: UdpOutcome)
        requires
            old(self).wf(),
        ensures
            final(self).wf(),
            match message_of(bytes@) {
                Some(msg) => out@ == udp_outcome(
                    old(self)@,
                    msg,
                    from@,
                    within_rate,
                    prefer_relay,
                    now,
                ) && final(self)@ == udp_state(
                    old(self)@,
                    msg,
                    from@,
                    within_rate,
                    prefer_relay,
                    now,
                ),
                None => out@ == UdpOutcomeView::Ignored && final(self)@ == old(self)@,
            },
    {
        match decode_message(bytes) {
            Some(msg) => self.handle_message(msg, from, within_rate, prefer_relay, now),
            None => UdpOutcome::Ignored,
        }
    }

    /// Handles a message that came in over UDP from `from` at time `now`.
    pub fn handle_message(
        &mut self,
        msg: RendezvousMessage,
        from: SocketAddress,
        within_rate: bool,
        prefer_relay: bool,
        now: u64,
    ) -> (out: UdpOutcome)
        requires
            old(self).wf(),
        ensures
            final(self).wf(),
            out@ == udp_outcome(old(self)@, msg@, from@, within_rate, prefer_relay, now),
            final(self)@ == udp_state(old(self)@, msg@, from@, within_rate, prefer_relay, now),
    {
        match msg {
            RendezvousMessage::RegisterPeer(m) => UdpOutcome::RegisterPeer(
                self.handle_register_peer(m.id, m.serial, from, now),
            ),
            RendezvousMessage::RegisterPk(m) => UdpOutcome::RegisterPk(
                self.handle_register_pk(m.id, m.uuid, m.public_key, from, within_rate, now),
            ),
            RendezvousMessage::PunchHoleRequest(m) => UdpOutcome::PunchHole(
                self.handle_punch_hole_request(
                    m.target_id.as_str(),
                    m.license_key.as_str(),
                    prefer_relay,
                ),
            ),
            _ => UdpOutcome::Ignored,
        }
    }

    /// Handles an item from the mailbox, and returns the message that is to
    /// go out over the UDP socket, if the item was one.
    pub fn handle_data(&mut self, data: Data) -> (send: Option<(RendezvousMessage, SocketAddress)>)
        requires
            old(self).wf(),
        ensures
            final(self).wf(),
            final(self)@ == data_state(old(self)@, data),
            match data {
                Data::Msg(m, a) => send == Some((m, a)),
                _ => send is None,
            },
    {
        match data {
            Data::Msg(m, a) => Some((m, a)),
            Data::RelayServers0(list) => {
                self.relay_servers.replace_list(parse_relay_servers(list.as_str()));
                None
            },
            Data::RelayServers(reachable) => {
                self.relay_servers.record_round(&reachable);
                None
            },
        }
    }

    /// Decides whom a connecting device is authenticated as, from the
    /// claims of its credential where it presented one that verified, and
    /// from the account that storage holds for the claims' user name.
    pub fn authenticate_device(
        &self,
        auth: &AuthManager,
        device_id: &str,
        claims: Option<&Claims>,
        user: Option<&User>,
    ) -> (r: Option<String>)
        ensures
            opt_view(r) == authenticated_user(
                match claims {
                    Some(c) => Some(*c),
                    None => None,
                },
                match user {
                    Some(u) => Some(*u),
                    None => None,
                },
            ),
    {
        crate::device_session::authenticate_device(auth, device_id, claims, user)
    }

    /// Makes the session of a device that connected at time `now`, and
    /// returns the line for the audit trail where the device's user is
    /// known.
    pub fn create_device_session(
        &mut self,
        device_id: String,
        user_id: Option<String>,
        now: u64,
    ) -> (audit: Option<AuditLog>)
        requires
            old(self).wf(),
        ensures
            final(self).wf(),
            final(self)@ == (ServerView {
                sessions: old(self)@.sessions.insert(
                    device_id@,
                    new_session(device_id@, opt_view(user_id), now),
                ),
                ..old(self)@
            }),
            match audit {
                Some(a) => user_id is Some && a@ == connect_audit(device_id@, user_id->0@, now),
                None => user_id is None,
            },
    {
        self.device_sessions.create_session(device_id, user_id, now)
    }

    /// Removes the sessions that have expired at time `now`, and returns
    /// the devices whose sessions were removed.
    pub fn cleanup_expired_sessions(&mut self, now: u64) -> (removed: Vec<String>)
        requires
            old(self).wf(),
        ensures
            final(self).wf(),
            final(self)@ == (ServerView {
                sessions: swept(old(self)@.sessions, now),
                ..old(self)@
            }),
            forall|id: Seq<char>|
                views_of(removed@).contains(id) <==> old(self)@.sessions.dom().contains(id)
                    && session_expired(old(self)@.sessions[id], now),
    {
        self.device_sessions.sweep(now)
    }

    /// The relay servers that the probe timer's tick sends probes to.
    pub fn relay_probe_targets(&self) -> (targets: Vec<String>)
        ensures
            views_of(targets@) == crate::relay::probe_list(self@.relays.entries),
    {
        self.relay_servers.probe_targets()
    }
}

/// On a server on which every connection goes through a relay, no answer
/// to a punch-hole request holds the target's address.
pub proof fn lemma_relay_mode_hides_address(
    s: ServerView,
    target_id: Seq<char>,
    license_key: Seq<char>,
    prefer_relay: bool,
    fetched: Option<SnapshotView>,
)
    requires
        s.always_use_relay,
    ensures
        !(punch_hole_decision(s, target_id, license_key, prefer_relay) matches PunchHoleDecisionView::Reply(
            PunchHoleResponseView::Address(_),
        )),
        !(punch_hole_reply(fetched, s.always_use_relay, prefer_relay, s.relays)
            is Address),
{
}

/// The license gate comes before the lookup: a request with a wrong key is
/// answered with a license mismatch whatever the directory and the relay
/// pool hold, and leaves the server as it was.
pub proof fn lemma_license_gates_lookup(
    s: ServerView,
    target_id: Seq<char>,
    license_key: Seq<char>,
    prefer_relay: bool,
)
    requires
        s.key.len() > 0,
        license_key != s.key,
    ensures
        punch_hole_decision(s, target_id, license_key, prefer_relay)
            == PunchHoleDecisionView::Reply(
            PunchHoleResponseView::Failure(PunchHoleFailure::LicenseMismatch),
        ),
        punch_hole_state(s, target_id, license_key, prefer_relay) == s,
{
}

/// The length of a signing secret key, in bytes. Its second half is the
/// public key.
pub const SECRET_KEY_BYTES: usize = 64;

/// A signing key pair that was generated for the server: the public key in
/// base64, and the secret key where the generation succeeded.
#[derive(Debug, PartialEq, Eq)]
pub struct KeyPair {
    pub public_key: String,
    pub secret_key: Option<Vec<u8>>,
}

/// What a `KeyPair` holds.
pub ghost struct KeyPairView {
    pub public_key: Seq<char>,
    pub secret_key: Option<Seq<u8>>,
}

impl View for KeyPair {
    type V = KeyPairView;

    open spec fn view(&self) -> KeyPairView {
        KeyPairView {
            public_key: self.public_key@,
            secret_key: match self.secret_key {
                Some(k) => Some(k@),
                None => None,
            },
        }
    }
}

/// Where the server's license key comes from, and the secret key it signs
/// with.
#[derive(Debug, PartialEq, Eq)]
pub enum ServerKey {
    /// The configured key is a secret key. The license key is the base64
    /// text of its public half.
    Secret { public_half: Vec<u8>, secret_key: Vec<u8> },
    /// The license key as text; empty for no license check.
    Text { key: String, signing_key: Option<Vec<u8>> },
}

/// What a `ServerKey` holds.
pub ghost enum ServerKeyView {
    Secret { public_half: Seq<u8>, secret_key: Seq<u8> },
    Text { key: Seq<char>, signing_key: Option<Seq<u8>> },
}

impl View for ServerKey {
    type V = ServerKeyView;

    open spec fn view(&self) -> ServerKeyView {
        match self {
            ServerKey::Secret { public_half, secret_key } => ServerKeyView::Secret {
                public_half: public_half@,
                secret_key: secret_key@,
            },
            ServerKey::Text { key, signing_key } => ServerKeyView::Text {
                key: key@,
                signing_key: match signing_key {
                    Some(k) => Some(k@),
                    None => None,
                },
            },
        }
    }
}

/// Whether the configured key asks for a generated key pair: it is empty,
/// `-` or `_`.
pub open spec fn wants_generated_key(key: Seq<char>) -> bool {
    key == ""@ || key == "-"@ || key == "_"@
}

/// The secret key of a generated pair, if there is a pair with one.
pub open spec fn generated_secret(generated: Option<KeyPairView>) -> Option<Seq<u8>> {
    match generated {
        Some(pair) => pair.secret_key,
        None => None,
    }
}

/// The server's key. A configured key that is the base64 text of a secret
/// key stands for that secret key. An empty key and `-` switch the license
/// check off, and `_` makes the generated public key the license key; all
/// three sign with the generated secret key. Any other text is the license
/// key as it stands, and nothing is signed.
pub open spec fn resolved_key(
    key: Seq<char>,
    decoded: Option<Seq<u8>>,
    generated: Option<KeyPairView>,
) -> ServerKeyView {
    if decoded is Some && decoded->0.len() == SECRET_KEY_BYTES {
        ServerKeyView::Secret {
            public_half: decoded->0.subrange(
                (SECRET_KEY_BYTES / 2) as int,
                SECRET_KEY_BYTES as int,
            ),
            secret_key: decoded->0,
        }
    } else if key == ""@ || key == "-"@ {
        ServerKeyView::Text { key: Seq::empty(), signing_key: generated_secret(generated) }
    } else if key == "_"@ {
        ServerKeyView::Text {
            key: match generated {
                Some(pair) => pair.public_key,
                None => Seq::empty(),
            },
            signing_key: generated_secret(generated),
        }
    } else {
        ServerKeyView::Text { key, signing_key: None }
    }
}

/// The license key that a server key stands for.
pub open spec fn license_text(k: ServerKeyView) -> Seq<char> {
    match k {
        ServerKeyView::Secret { public_half, secret_key } => base64_encoded(public_half),
        ServerKeyView::Text { key, signing_key } => key,
    }
}

/// The secret key that a server key signs with.
pub open spec fn signing_key(k: ServerKeyView) -> Option<Seq<u8>> {
    match k {
        ServerKeyView::Secret { public_half, secret_key } => Some(secret_key),
        ServerKeyView::Text { key, signing_key } => signing_key,
    }
}

/// Whether the configured key asks for a generated key pair.
pub fn key_needs_generation(key: &str) -> (r: bool)
    ensures
        r == wants_generated_key(key@),
{
    str_eq(key, "") || str_eq(key, "-") || str_eq(key, "_")
}

/// The server's key, from the configured key, from what the configured key
/// decodes to as base64 where it does, and from the key pair that was
/// generated where one was asked for.
pub fn resolve_server_key(key: &str, decoded: Option<Vec<u8>>, generated: Option<KeyPair>) -> (k:
    ServerKey)
    ensures
        k@ == resolved_key(key@, view_opt_bytes(decoded), view_opt(generated)),
{
    match decoded {
        Some(bytes) => {
            if bytes.len() == SECRET_KEY_BYTES {
                let mut first = bytes.clone();
                let public_half = first.split_off(SECRET_KEY_BYTES / 2);
                return ServerKey::Secret { public_half, secret_key: bytes };
            }
        },
        None => {},
    }
    if str_eq(key, "") || str_eq(key, "-") {
        ServerKey::Text {
            key: String::new(),
            signing_key: match generated {
                Some(pair) => pair.secret_key,
                None => None,
            },
        }
    } else if str_eq(key, "_") {
        match generated {
            Some(pair) => ServerKey::Text { key: pair.public_key, signing_key: pair.secret_key },
            None => ServerKey::Text { key: String::new(), signing_key: None },
        }
    } else {
        ServerKey::Text { key: key.to_owned(), signing_key: None }
    }
}

/// The license key and the signing key of a server that is configured with
/// `key`, given the key pair that was generated where the configured key
/// asks for one.
pub fn get_server_sk(key: &str, generated: Option<KeyPair>) -> (r: (String, Option<Vec<u8>>))
    ensures
        r.0@ == license_text(resolved_key(key@, base64_decoded(key@), view_opt(generated))),
        view_opt_bytes(r.1) == signing_key(
            resolved_key(key@, base64_decoded(key@), view_opt(generated)),
        ),
{
    let decoded = match base64_decode(key) {
        Ok(bytes) => Some(bytes),
        Err(_) => None,
    };
    match resolve_server_key(key, decoded, generated) {
        ServerKey::Secret { public_half, secret_key } => (
            base64_encode(public_half.as_slice()),
            Some(secret_key),
        ),
        ServerKey::Text { key, signing_key } => (key, signing_key),
    }
}

/// Whether the setting that sends every connection through a relay is
/// switched on: its value is `Y`, in either case.
pub fn always_use_relay_from(value: &str) -> (on: bool)
    ensures
        on == (value@ == "Y"@ || value@ == "y"@),
{
    str_eq(value, "Y") || str_eq(value, "y")
}

/// The network whose addresses count as local, and the server's own
/// address in it. A mask that is no IPv4 network in CIDR notation is no
/// mask, and then there is no local address either. With a mask the local
/// address is the one that was set, or else the one that was found for the
/// machine.
pub open spec fn lan_of(
    mask: Seq<char>,
    local_ip: Option<Seq<char>>,
    detected_ip: Seq<char>,
) -> (Option<Seq<char>>, Seq<char>) {
    if is_ipv4_network(mask) {
        (
            Some(mask),
            match local_ip {
                Some(ip) => ip,
                None => detected_ip,
            },
        )
    } else {
        (None, Seq::empty())
    }
}

/// The network whose addresses count as local, and the server's own
/// address in it.
pub fn lan_settings(mask: String, local_ip: Option<String>, detected_ip: String) -> (r: (
    Option<String>,
    String,
))
    ensures
        (opt_view(r.0), r.1@) == lan_of(mask@, opt_view(local_ip), detected_ip@),
{
    if parses_as_ipv4_network(mask.as_str()) {
        (
            Some(mask),
            match local_ip {
                Some(ip) => ip,
                None => detected_ip,
            },
        )
    } else {
        (None, String::new())
    }
}

} // verus!
