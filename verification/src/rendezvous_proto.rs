//! The messages that peers and the rendezvous server exchange.

use vstd::prelude::*;
use crate::peer::{AddressView, SocketAddress};
use crate::text::views_of;

verus! {

/// The result that a key registration is answered with.
#[derive(Debug, Clone, Copy, PartialEq, Eq, Structural)]
pub enum RegisterPkResult {
    Okay,
    UuidMismatch,
    TooFrequent,
}

/// Why a punch-hole request was turned down.
#[derive(Debug, Clone, Copy, PartialEq, Eq, Structural)]
pub enum PunchHoleFailure {
    /// No peer is registered under the identifier.
    IdNotExist,
    /// The target cannot be reached: every connection goes through a
    /// relay, and there is none.
    Offline,
    /// The request does not carry the server's license key.
    LicenseMismatch,
}

/// A peer announces itself and the serial of the configuration it holds.
#[derive(Debug, PartialEq, Eq)]
pub struct RegisterPeer {
    pub id: String,
    pub serial: i32,
}

/// The server hands a peer the current serial and rendezvous servers.
#[derive(Debug, PartialEq, Eq)]
pub struct ConfigUpdate {
    pub serial: i32,
    pub rendezvous_servers: Vec<String>,
}

/// A peer registers its instance uuid and public key under an identifier.
#[derive(Debug, PartialEq, Eq)]
pub struct RegisterPk {
    pub id: String,
    pub uuid: Vec<u8>,
    pub public_key: Vec<u8>,
}

/// The answer to a key registration.
#[derive(Debug, Clone, Copy, PartialEq, Eq, Structural)]
pub struct RegisterPkResponse {
    pub result: RegisterPkResult,
}

/// A peer asks for a connection to another peer.
#[derive(Debug, PartialEq, Eq)]
pub struct PunchHoleRequest {
    pub target_id: String,
    pub license_key: String,
}

/// The answer to a punch-hole request: the target's address for a direct
/// attempt, a relay server to go through, or a failure.
#[derive(Debug, PartialEq, Eq)]
pub enum PunchHoleResponse {
    Address(SocketAddress),
    Relay(String),
    Failure(PunchHoleFailure),
}

/// The message envelope.
#[derive(Debug, PartialEq, Eq)]
pub enum RendezvousMessage {
    RegisterPeer(RegisterPeer),
    ConfigUpdate(ConfigUpdate),
    RegisterPk(RegisterPk),
    RegisterPkResponse(RegisterPkResponse),
    PunchHoleRequest(PunchHoleRequest),
    PunchHoleResponse(PunchHoleResponse),
}

/// What a `ConfigUpdate` holds.
pub ghost struct ConfigUpdateView {
    pub serial: i32,
    pub rendezvous_servers: Seq<Seq<char>>,
}

impl View for ConfigUpdate {
    type V = ConfigUpdateView;

    open spec fn view(&self) -> ConfigUpdateView {
        ConfigUpdateView {
            serial: self.serial,
            rendezvous_servers: views_of(self.rendezvous_servers@),
        }
    }
}

/// What a `PunchHoleResponse` holds.
pub ghost enum PunchHoleResponseView {
    Address(AddressView),
    Relay(Seq<char>),
    Failure(PunchHoleFailure),
}

impl View for PunchHoleResponse {
    type V = PunchHoleResponseView;

    open spec fn view(&self) -> PunchHoleResponseView {
        match self {
            PunchHoleResponse::Address(a) => PunchHoleResponseView::Address(a@),
            PunchHoleResponse::Relay(r) => PunchHoleResponseView::Relay(r@),
            PunchHoleResponse::Failure(f) => PunchHoleResponseView::Failure(*f),
        }
    }
}

/// What a `RendezvousMessage` holds.
pub ghost enum MessageView {
    RegisterPeer { id: Seq<char>, serial: i32 },
    ConfigUpdate(ConfigUpdateView),
    RegisterPk { id: Seq<char>, uuid: Seq<u8>, public_key: Seq<u8> },
    RegisterPkResponse(RegisterPkResult),
    PunchHoleRequest { target_id: Seq<char>, license_key: Seq<char> },
    PunchHoleResponse(PunchHoleResponseView),
}

impl View for RendezvousMessage {
    type V = MessageView;

    open spec fn view(&self) -> MessageView {
        match self {
            RendezvousMessage::RegisterPeer(m) => MessageView::RegisterPeer {
                id: m.id@,
                serial: m.serial,
            },
            RendezvousMessage::ConfigUpdate(m) => MessageView::ConfigUpdate(m@),
            RendezvousMessage::RegisterPk(m) => MessageView::RegisterPk {
                id: m.id@,
                uuid: m.uuid@,
                public_key: m.public_key@,
            },
            RendezvousMessage::RegisterPkResponse(m) => MessageView::RegisterPkResponse(m.result),
            RendezvousMessage::PunchHoleRequest(m) => MessageView::PunchHoleRequest {
                target_id: m.target_id@,
                license_key: m.license_key@,
            },
            RendezvousMessage::PunchHoleResponse(m) => MessageView::PunchHoleResponse(m@),
        }
    }
}

/// The message that answers a key registration with `result`.
pub fn register_pk_response(result: RegisterPkResult) -> (msg: RendezvousMessage)
    ensures
        msg@ == MessageView::RegisterPkResponse(result),
{
    RendezvousMessage::RegisterPkResponse(RegisterPkResponse { result })
}

} // verus!
