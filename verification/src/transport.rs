//! The supervisor of the four transports: a UDP socket and three TCP
//! listeners. A transport that fails is rebuilt on its own port while the
//! others go on serving; only a rebuild that fails ends the process.

use vstd::prelude::*;

verus! {

/// The transport whose failure ended a run of the serving loop.
#[derive(Debug, Clone, Copy, PartialEq, Eq, Structural)]
pub enum LoopFailure {
    /// The UDP socket.
    UdpSocket,
    /// The listener for WebSocket connections.
    Listener3,
    /// The listener for NAT probes.
    Listener2,
    /// The main TCP listener.
    Listener,
}

/// The lowest base port: the port for NAT probes lies one below it and
/// must be a port number itself.
pub const MIN_PORT: i32 = 2;

/// The highest port that leaves room for the ports derived from it.
pub const MAX_PORT: i32 = 65532;

/// The ports of a server configured with the base port `main`.
#[derive(Debug, Clone, Copy, PartialEq, Eq, Structural)]
pub struct ServerPorts {
    /// UDP and main TCP.
    pub main: i32,
    /// NAT probes.
    pub nat: i32,
    /// WebSocket connections.
    pub ws: i32,
    /// The management console.
    pub web: i32,
}

/// The ports that follow from a base port.
pub open spec fn ports_from(port: i32) -> ServerPorts {
    ServerPorts {
        main: port,
        nat: (port - 1) as i32,
        ws: (port + 2) as i32,
        web: (port + 3) as i32,
    }
}

/// Whether a base port can be served: it and the ports derived from it are
/// port numbers.
pub open spec fn port_is_valid(port: i32) -> bool {
    MIN_PORT <= port <= MAX_PORT
}

/// The ports of a server with the given base port, or nothing where the
/// base port cannot be served.
pub fn server_ports(port: i32) -> (r: Option<ServerPorts>)
    ensures
        r == if port_is_valid(port) {
            Some(ports_from(port))
        } else {
            None
        },
{
    if port < MIN_PORT || port > MAX_PORT {
        None
    } else {
        Some(ServerPorts { main: port, nat: port - 1, ws: port + 2, web: port + 3 })
    }
}

impl ServerPorts {
    /// The port that a transport is bound to.
    pub open spec fn spec_port_of(self, transport: LoopFailure) -> i32 {
        match transport {
            LoopFailure::UdpSocket => self.main,
            LoopFailure::Listener => self.main,
            LoopFailure::Listener2 => self.nat,
            LoopFailure::Listener3 => self.ws,
        }
    }

    /// The port that a transport is bound to.
    pub fn port_of(&self, transport: LoopFailure) -> (port: i32)
        ensures
            port == self.spec_port_of(transport),
    {
        match transport {
            LoopFailure::UdpSocket => self.main,
            LoopFailure::Listener => self.main,
            LoopFailure::Listener2 => self.nat,
            LoopFailure::Listener3 => self.ws,
        }
    }
}

/// The state of one transport.
#[derive(Debug, Clone, Copy, PartialEq, Eq, Structural)]
pub enum ResourceState {
    Serving,
    /// It failed and its replacement is not bound yet.
    Rebuilding,
}

/// What the loop's owner does next.
#[derive(Debug, Clone, Copy, PartialEq, Eq, Structural)]
pub enum SupervisorAction {
    /// Drop the transport and bind a new one to the port.
    Rebuild { transport: LoopFailure, port: i32 },
    /// Run the serving loop again.
    Resume,
    /// Give up: the process ends with an error.
    Exit,
}

/// One of the three TCP listeners.
#[derive(Debug, Clone, Copy, PartialEq, Eq, Structural)]
pub enum ListenerKind {
    /// The main TCP listener, on the base port.
    Main,
    /// The listener for NAT probes.
    NatProbe,
    /// The listener for WebSocket connections.
    WebSocket,
}

/// What one turn of the loop finds.
#[derive(Debug, Clone, Copy, PartialEq, Eq, Structural)]
pub enum TransportEvent {
    /// A datagram arrived on the UDP socket.
    Datagram,
    /// A listener accepted a connection.
    Accepted(ListenerKind),
    /// The internal queue handed out an event: a change of the relay list,
    /// or a message to send through the UDP socket.
    Queued,
    /// The timer of the relay probes ticked.
    ProbeTick,
    /// A transport returned an error.
    Failed(LoopFailure),
}

/// What the loop does with what it found.
#[derive(Debug, Clone, Copy, PartialEq, Eq, Structural)]
pub enum LoopStep {
    /// Decode the datagram and handle the message.
    HandleDatagram,
    /// Hand the connection to a unit of work of its own, which performs the
    /// main handshake, framed as WebSocket or not.
    ServeConnection { websocket: bool },
    /// Hand the connection to a unit of work that answers a NAT probe.
    ServeNatProbe,
    /// Apply the queued event.
    HandleQueued,
    /// Probe the relays, in a unit of work of their own.
    ProbeRelays,
    /// Leave the loop with this failure.
    Leave(LoopFailure),
}

/// What the loop does with what it found. Only a transport's own error
/// makes the loop leave, and it leaves with that transport's failure.
pub open spec fn step_for(event: TransportEvent) -> LoopStep {
    match event {
        TransportEvent::Datagram => LoopStep::HandleDatagram,
        TransportEvent::Accepted(ListenerKind::Main) => LoopStep::ServeConnection {
            websocket: false,
        },
        TransportEvent::Accepted(ListenerKind::WebSocket) => LoopStep::ServeConnection {
            websocket: true,
        },
        TransportEvent::Accepted(ListenerKind::NatProbe) => LoopStep::ServeNatProbe,
        TransportEvent::Queued => LoopStep::HandleQueued,
        TransportEvent::ProbeTick => LoopStep::ProbeRelays,
        TransportEvent::Failed(t) => LoopStep::Leave(t),
    }
}

/// What the loop does with what it found.
pub fn loop_step(event: TransportEvent) -> (step: LoopStep)
    ensures
        step == step_for(event),
{
    match event {
        TransportEvent::Datagram => LoopStep::HandleDatagram,
        TransportEvent::Accepted(ListenerKind::Main) => LoopStep::ServeConnection {
            websocket: false,
        },
        TransportEvent::Accepted(ListenerKind::WebSocket) => LoopStep::ServeConnection {
            websocket: true,
        },
        TransportEvent::Accepted(ListenerKind::NatProbe) => LoopStep::ServeNatProbe,
        TransportEvent::Queued => LoopStep::HandleQueued,
        TransportEvent::ProbeTick => LoopStep::ProbeRelays,
        TransportEvent::Failed(t) => LoopStep::Leave(t),
    }
}

/// The supervisor's record of the four transports.
#[derive(Debug, Clone, Copy, PartialEq, Eq, Structural)]
pub struct TransportSupervisor {
    pub ports: ServerPorts,
    pub udp: ResourceState,
    pub listener: ResourceState,
    pub listener2: ResourceState,
    pub listener3: ResourceState,
    /// How many rebuilds were asked for.
    pub rebuilds: u64,
    /// Whether a rebuild has failed.
    pub fatal: bool,
}

impl TransportSupervisor {
    /// The state of a transport.
    pub open spec fn spec_state_of(self, transport: LoopFailure) -> ResourceState {
        match transport {
            LoopFailure::UdpSocket => self.udp,
            LoopFailure::Listener => self.listener,
            LoopFailure::Listener2 => self.listener2,
            LoopFailure::Listener3 => self.listener3,
        }
    }

    /// The record with the state of one transport replaced.
    pub open spec fn with_state(self, transport: LoopFailure, state: ResourceState) -> Self {
        match transport {
            LoopFailure::UdpSocket => TransportSupervisor { udp: state, ..self },
            LoopFailure::Listener => TransportSupervisor { listener: state, ..self },
            LoopFailure::Listener2 => TransportSupervisor { listener2: state, ..self },
            LoopFailure::Listener3 => TransportSupervisor { listener3: state, ..self },
        }
    }

    /// The record after the loop left with `failure`: that transport is
    /// being rebuilt, and one more rebuild is counted.
    pub open spec fn after_failure(self, failure: LoopFailure) -> Self {
        TransportSupervisor {
            rebuilds: if self.rebuilds < u64::MAX {
                (self.rebuilds + 1) as u64
            } else {
                self.rebuilds
            },
            ..self.with_state(failure, ResourceState::Rebuilding)
        }
    }

    /// The record after the rebuild of a transport ended.
    pub open spec fn after_rebuild(self, transport: LoopFailure, bound: bool) -> Self {
        if bound {
            self.with_state(transport, ResourceState::Serving)
        } else {
            TransportSupervisor { fatal: true, ..self }
        }
    }

    /// Four serving transports on the given ports.
    pub fn new(ports: ServerPorts) -> (s: Self)
        ensures
            s.ports == ports,
            forall|t: LoopFailure| s.spec_state_of(t) == ResourceState::Serving,
            s.rebuilds == 0,
            !s.fatal,
    {
        TransportSupervisor {
            ports,
            udp: ResourceState::Serving,
            listener: ResourceState::Serving,
            listener2: ResourceState::Serving,
            listener3: ResourceState::Serving,
            rebuilds: 0,
            fatal: false,
        }
    }

    /// The state of a transport.
    pub fn state_of(&self, transport: LoopFailure) -> (state: ResourceState)
        ensures
            state == self.spec_state_of(transport),
    {
        match transport {
            LoopFailure::UdpSocket => self.udp,
            LoopFailure::Listener => self.listener,
            LoopFailure::Listener2 => self.listener2,
            LoopFailure::Listener3 => self.listener3,
        }
    }

    fn set_state(&mut self, transport: LoopFailure, state: ResourceState)
        ensures
            *final(self) == old(self).with_state(transport, state),
    {
        match transport {
            LoopFailure::UdpSocket => {
                self.udp = state;
            },
            LoopFailure::Listener => {
                self.listener = state;
            },
            LoopFailure::Listener2 => {
                self.listener2 = state;
            },
            LoopFailure::Listener3 => {
                self.listener3 = state;
            },
        }
    }

    /// The loop left with `failure`: exactly that transport is to be
    /// rebuilt, on the port it was bound to.
    pub fn on_failure(&mut self, failure: LoopFailure) -> (action: SupervisorAction)
        ensures
            *final(self) == old(self).after_failure(failure),
            action == (SupervisorAction::Rebuild {
                transport: failure,
                port: old(self).ports.spec_port_of(failure),
            }),
    {
        self.set_state(failure, ResourceState::Rebuilding);
        if self.rebuilds < u64::MAX {
            self.rebuilds = self.rebuilds + 1;
        }
        SupervisorAction::Rebuild { transport: failure, port: self.ports.port_of(failure) }
    }

    /// The rebuild of a transport ended. With the transport bound again the
    /// loop resumes; a rebuild that failed is fatal.
    pub fn on_rebuilt(&mut self, transport: LoopFailure, bound: bool) -> (action: SupervisorAction)
        ensures
            *final(self) == old(self).after_rebuild(transport, bound),
            action == if bound {
                SupervisorAction::Resume
            } else {
                SupervisorAction::Exit
            },
    {
        if bound {
            self.set_state(transport, ResourceState::Serving);
            SupervisorAction::Resume
        } else {
            self.fatal = true;
            SupervisorAction::Exit
        }
    }
}

/// A failure of one transport asks for exactly one rebuild, of that
/// transport, and leaves the state of every other transport as it was. The
/// loop leaves on nothing but a transport's own error, and what it does
/// with anything else it finds does not depend on the supervisor's record.
pub proof fn lemma_fault_isolation(sup: TransportSupervisor, failure: LoopFailure)
    ensures
        forall|event: TransportEvent|
            #[trigger] step_for(event) is Leave <==> event is Failed,
        step_for(TransportEvent::Failed(failure)) == LoopStep::Leave(failure),
        sup.rebuilds < u64::MAX ==> sup.after_failure(failure).rebuilds == sup.rebuilds + 1,
        sup.after_failure(failure).spec_state_of(failure) == ResourceState::Rebuilding,
        forall|other: LoopFailure|
            other != failure ==> sup.after_failure(failure).spec_state_of(other)
                == sup.spec_state_of(other),
        !sup.fatal ==> !sup.after_failure(failure).fatal,
        sup.after_failure(failure).after_rebuild(failure, true).spec_state_of(failure)
            == ResourceState::Serving,
        forall|other: LoopFailure|
            other != failure ==> sup.after_failure(failure).after_rebuild(
                failure,
                true,
            ).spec_state_of(other) == sup.spec_state_of(other),
{
}

} // verus!
