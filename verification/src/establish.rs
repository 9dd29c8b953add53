//! The connection-establishment orchestrator.
//!
//! Establishing a chat session walks a strict, linear sequence: build the
//! transport, listen locally until a grace timer fires, dial the relay and
//! wait until the relay both learned this peer's address and reported the
//! address it observed, then issue the mode action (dial the remote through
//! a relay circuit, or request a relay reservation), and finally wait for
//! the success signal. Events outside a phase's expected vocabulary abort
//! the whole establishment.
//!
//! The orchestrator here is the decision half of that process: a state
//! machine from session events to actions. The driver performs each action
//! against the real network stack and feeds the resulting events back.

use vstd::prelude::*;

verus! {

/// Whether this peer dials the remote through the relay or listens for a
/// relayed connection.
#[derive(Clone, Copy, PartialEq, Eq, Structural, Debug)]
pub enum Mode {
    Dial,
    Listen,
}

/// Identifier of a peer, carried as the bytes of its textual form.
#[derive(Clone, PartialEq, Eq, Debug)]
pub struct PeerId {
    pub bytes: Vec<u8>,
}

/// One protocol component of a structured network address.
#[derive(Clone, PartialEq, Eq, Debug)]
pub enum Hop {
    /// A plain transport component (an IP hop, a TCP port), in its text form.
    Plain(String),
    /// A relay-circuit component.
    Circuit,
    /// A peer-identifier component.
    Peer(PeerId),
}

/// A structured network address: a sequence of protocol components.
#[derive(Clone, PartialEq, Eq, Debug)]
pub struct MultiAddr {
    pub hops: Vec<Hop>,
}

impl MultiAddr {
    /// The empty address.
    pub fn empty() -> (r: MultiAddr)
        ensures
            r.hops@ =~= Seq::<Hop>::empty(),
    {
        MultiAddr { hops: Vec::new() }
    }

    /// Extend the address with a plain transport component.
    pub fn with_plain(self, component: String) -> (r: MultiAddr)
        ensures
            r.hops@ == self.hops@.push(Hop::Plain(component)),
    {
        let mut hops = self.hops;
        hops.push(Hop::Plain(component));
        MultiAddr { hops }
    }

    /// Extend the address with a relay-circuit component.
    pub fn with_circuit(self) -> (r: MultiAddr)
        ensures
            r.hops@ == self.hops@.push(Hop::Circuit),
    {
        let mut hops = self.hops;
        hops.push(Hop::Circuit);
        MultiAddr { hops }
    }

    /// Extend the address with a peer-identifier component.
    pub fn with_p2p(self, peer: PeerId) -> (r: MultiAddr)
        ensures
            r.hops@ == self.hops@.push(Hop::Peer(peer)),
    {
        let mut hops = self.hops;
        hops.push(Hop::Peer(peer));
        MultiAddr { hops }
    }
}

/// Address a dialing peer targets: the relay address extended with a
/// circuit component and the remote peer's identifier.
pub fn dial_target(relay: MultiAddr, remote: PeerId) -> (r: MultiAddr)
    ensures
        r.hops@ == relay.hops@ + seq![Hop::Circuit, Hop::Peer(remote)],
{
    let r = relay.with_circuit().with_p2p(remote);
    proof {
        assert(r.hops@ =~= relay.hops@ + seq![Hop::Circuit, Hop::Peer(remote)]);
    }
    r
}

/// Address a listening peer asks the relay to reserve: the relay address
/// extended with a circuit component.
pub fn listen_target(relay: MultiAddr) -> (r: MultiAddr)
    ensures
        r.hops@ == relay.hops@.push(Hop::Circuit),
{
    relay.with_circuit()
}

/// The session-event vocabulary the orchestrator recognizes, abstracted
/// from the underlying protocol stack. `GraceTimerElapsed` is the local
/// grace timer that closes the wait for local listen addresses.
#[derive(Clone, PartialEq, Eq, Debug)]
pub enum Event {
    ListenAddressReady,
    Dialing,
    ConnectionEstablished,
    OutgoingConnectionError,
    PeerInfoSent,
    PeerInfoReceived(MultiAddr),
    RelayReservationAccepted,
    RelayOtherEvent,
    HolePunchSuccess,
    GossipMessageReceived(Vec<u8>),
    KeepAliveEvent,
    GraceTimerElapsed,
}

/// Why establishment failed.
#[derive(Clone, PartialEq, Eq, Debug)]
pub enum EstablishError {
    /// Dial mode was requested without a remote peer identifier.
    MissingRemotePeer,
    /// An event arrived that the current phase does not expect.
    UnexpectedEvent { phase: Phase, event: Event },
    /// A relay reservation was accepted although this peer was dialing.
    ModeInvariant,
}

/// The linear phases of establishment, plus the terminal failure phase.
#[derive(Clone, Copy, PartialEq, Eq, Structural, Debug)]
pub enum Phase {
    Idle,
    TransportReady,
    ListeningLocal,
    ObservedAddressExchanged,
    ModeActionIssued,
    Established,
    Aborted,
}

/// What the driver must do next against the real network stack.
#[derive(Clone, Copy, PartialEq, Eq, Structural, Debug)]
pub enum Action {
    /// Consume the next session event and hand it back.
    Wait,
    /// Build the secured, multiplexed, relay-capable transport and attach
    /// the session behaviours.
    BuildTransport,
    /// Listen on the unspecified local address with an ephemeral port.
    ListenLocalAll,
    /// Dial the relay address.
    DialRelay,
    /// Dial the remote peer through a relay circuit (see `dial_target`).
    DialRemoteViaRelay,
    /// Request a relay reservation (see `listen_target`).
    ListenOnRelayCircuit,
    /// Establishment failed; the stored error says why.
    Fail,
}

/// Whether the history holds a peer-info event reporting an observed
/// address.
pub open spec fn history_has_peer_info_received(h: Seq<Event>) -> bool {
    exists|i: int| 0 <= i < h.len() && h[i] is PeerInfoReceived
}

/// Position of a non-terminal phase in the linear order.
pub open spec fn phase_rank(p: Phase) -> int {
    match p {
        Phase::Idle => 0,
        Phase::TransportReady => 1,
        Phase::ListeningLocal => 2,
        Phase::ObservedAddressExchanged => 3,
        Phase::ModeActionIssued => 4,
        Phase::Established => 5,
        Phase::Aborted => 6,
    }
}

/// Ghost model of the orchestrator, with the full history of consumed
/// events.
#[verifier::ext_equal]
pub struct StateModel {
    pub mode: Mode,
    pub remote_present: bool,
    pub phase: Phase,
    pub listen_requested: bool,
    pub relay_dialed: bool,
    pub listening_all_interfaces: bool,
    pub learned_observed_addr: bool,
    pub told_relay_observed_addr: bool,
    pub punch_established: bool,
    pub reservation_accepted: bool,
    pub error: Option<EstablishError>,
    pub history: Seq<Event>,
}

impl StateModel {
    /// Well-formedness: the ordering discipline of establishment.
    ///
    /// The mode action's phase is reached only with both address flags set;
    /// `Established` is reached only through the mode's success signal; and
    /// each success flag is backed by its event in the history.
    pub open spec fn wf(self) -> bool {
        &&& (self.mode == Mode::Dial ==> self.remote_present)
        &&& (phase_rank(self.phase) >= 2 && self.phase != Phase::Aborted ==> self.listen_requested)
        &&& (phase_rank(self.phase) >= 3 && self.phase != Phase::Aborted ==> self.learned_observed_addr
            && self.told_relay_observed_addr)
        &&& (self.phase == Phase::Established ==> (self.mode == Mode::Listen
            ==> self.reservation_accepted))
        &&& (self.phase == Phase::Established ==> (self.mode == Mode::Dial
            ==> self.punch_established))
        &&& (self.reservation_accepted ==> self.mode == Mode::Listen)
        &&& (self.reservation_accepted ==> self.history.contains(Event::RelayReservationAccepted))
        &&& (self.punch_established ==> self.history.contains(Event::HolePunchSuccess))
        &&& (self.listening_all_interfaces ==> self.history.contains(Event::ListenAddressReady))
        &&& (self.told_relay_observed_addr ==> self.history.contains(Event::PeerInfoSent))
        &&& (self.learned_observed_addr ==> history_has_peer_info_received(self.history))
        &&& (self.error is Some <==> self.phase == Phase::Aborted)
    }

    /// The model after aborting on `e` in the current phase.
    pub open spec fn aborted_on(self, e: Event) -> StateModel {
        StateModel {
            phase: Phase::Aborted,
            error: Some(EstablishError::UnexpectedEvent { phase: self.phase, event: e }),
            history: self.history.push(e),
            ..self
        }
    }
}

/// One step of the wait loops: how a session event transforms the model,
/// and what the driver must do next.
pub open spec fn spec_step(s: StateModel, e: Event) -> (StateModel, Action) {
    let consumed = StateModel { history: s.history.push(e), ..s };
    match s.phase {
        Phase::Idle => (s.aborted_on(e), Action::Fail),
        Phase::TransportReady => {
            if !s.listen_requested {
                (s.aborted_on(e), Action::Fail)
            } else {
                match e {
                    Event::ListenAddressReady => (
                        StateModel { listening_all_interfaces: true, ..consumed },
                        Action::Wait,
                    ),
                    Event::GraceTimerElapsed => (
                        StateModel { phase: Phase::ListeningLocal, ..consumed },
                        Action::Wait,
                    ),
                    _ => (s.aborted_on(e), Action::Fail),
                }
            }
        },
        Phase::ListeningLocal => {
            match e {
                Event::PeerInfoSent => {
                    let told = StateModel { told_relay_observed_addr: true, ..consumed };
                    if told.learned_observed_addr {
                        (StateModel { phase: Phase::ObservedAddressExchanged, ..told }, Action::Wait)
                    } else {
                        (told, Action::Wait)
                    }
                },
                Event::PeerInfoReceived(_) => {
                    let learned = StateModel { learned_observed_addr: true, ..consumed };
                    if learned.told_relay_observed_addr {
                        (
                            StateModel { phase: Phase::ObservedAddressExchanged, ..learned },
                            Action::Wait,
                        )
                    } else {
                        (learned, Action::Wait)
                    }
                },
                Event::ListenAddressReady => (consumed, Action::Wait),
                Event::Dialing => (consumed, Action::Wait),
                Event::ConnectionEstablished => (consumed, Action::Wait),
                Event::GossipMessageReceived(_) => (consumed, Action::Wait),
                Event::KeepAliveEvent => (consumed, Action::Wait),
                _ => (s.aborted_on(e), Action::Fail),
            }
        },
        Phase::ObservedAddressExchanged => (s.aborted_on(e), Action::Fail),
        Phase::ModeActionIssued => {
            match e {
                Event::RelayReservationAccepted => {
                    if s.mode == Mode::Listen {
                        (
                            StateModel {
                                phase: Phase::Established,
                                reservation_accepted: true,
                                ..consumed
                            },
                            Action::Wait,
                        )
                    } else {
                        (
                            StateModel {
                                phase: Phase::Aborted,
                                error: Some(EstablishError::ModeInvariant),
                                ..consumed
                            },
                            Action::Fail,
                        )
                    }
                },
                Event::HolePunchSuccess => {
                    let punched = StateModel { punch_established: true, ..consumed };
                    if s.mode == Mode::Dial {
                        (StateModel { phase: Phase::Established, ..punched }, Action::Wait)
                    } else {
                        (punched, Action::Wait)
                    }
                },
                _ => (consumed, Action::Wait),
            }
        },
        Phase::Established => (consumed, Action::Wait),
        Phase::Aborted => (consumed, Action::Fail),
    }
}

/// A step from a well-formed, non-terminal model keeps the model
/// well-formed.
pub proof fn lemma_step_preserves_wf(s: StateModel, e: Event)
    requires
        s.wf(),
        s.phase != Phase::Aborted,
    ensures
        spec_step(s, e).0.wf(),
{
    let h = s.history;
    assert forall|x: Event| h.contains(x) implies #[trigger] h.push(e).contains(x) by {
        let i = choose|i: int| 0 <= i < h.len() && h[i] == x;
        assert(h.push(e)[i] == x);
    }
    assert(h.push(e)[h.len() as int] == e);
    assert(h.push(e).contains(e));
    if history_has_peer_info_received(h) {
        let i = choose|i: int| 0 <= i < h.len() && h[i] is PeerInfoReceived;
        assert(h.push(e)[i] == h[i]);
        assert(history_has_peer_info_received(h.push(e)));
    }
    if e is PeerInfoReceived {
        assert(history_has_peer_info_received(h.push(e)));
    }
}

/// The decision half of connection establishment. The driver calls the
/// phase methods in order, performs each returned action against the real
/// network stack, and feeds every observed session event to `on_event`.
pub struct Orchestrator {
    pub mode: Mode,
    pub remote_present: bool,
    pub phase: Phase,
    pub listen_requested: bool,
    pub relay_dialed: bool,
    pub listening_all_interfaces: bool,
    pub learned_observed_addr: bool,
    pub told_relay_observed_addr: bool,
    pub punch_established: bool,
    pub reservation_accepted: bool,
    pub error: Option<EstablishError>,
    pub history: Ghost<Seq<Event>>,
}

impl View for Orchestrator {
    type V = StateModel;

    open spec fn view(&self) -> StateModel {
        StateModel {
            mode: self.mode,
            remote_present: self.remote_present,
            phase: self.phase,
            listen_requested: self.listen_requested,
            relay_dialed: self.relay_dialed,
            listening_all_interfaces: self.listening_all_interfaces,
            learned_observed_addr: self.learned_observed_addr,
            told_relay_observed_addr: self.told_relay_observed_addr,
            punch_established: self.punch_established,
            reservation_accepted: self.reservation_accepted,
            error: self.error,
            history: self.history@,
        }
    }
}

impl Orchestrator {
    /// Validate the configuration and start in `Idle`. Dial mode without a
    /// remote peer identifier is a fatal configuration error, raised before
    /// any network action is attempted.
    pub fn new(mode: Mode, remote_present: bool) -> (r: Result<Orchestrator, EstablishError>)
        ensures
            mode == Mode::Dial && !remote_present ==> (r matches Err(err) && err
                == EstablishError::MissingRemotePeer),
            !(mode == Mode::Dial && !remote_present) ==> (r matches Ok(o) && o@.wf() && o@.phase
                == Phase::Idle && o@.mode == mode && o@.remote_present == remote_present
                && o@.history =~= Seq::<Event>::empty()),
    {
        if mode == Mode::Dial && !remote_present {
            return Err(EstablishError::MissingRemotePeer);
        }
        Ok(
            Orchestrator {
                mode,
                remote_present,
                phase: Phase::Idle,
                listen_requested: false,
                relay_dialed: false,
                listening_all_interfaces: false,
                learned_observed_addr: false,
                told_relay_observed_addr: false,
                punch_established: false,
                reservation_accepted: false,
                error: None,
                history: Ghost(Seq::empty()),
            },
        )
    }

    /// First transition: build the transport and the session behaviours.
    pub fn build_transport(&mut self) -> (a: Action)
        requires
            old(self)@.wf(),
            old(self)@.phase == Phase::Idle,
        ensures
            final(self)@ =~= (StateModel { phase: Phase::TransportReady, ..old(self)@ }),
            final(self)@.wf(),
            a == Action::BuildTransport,
    {
        self.phase = Phase::TransportReady;
        Action::BuildTransport
    }

    /// Second transition's request: listen on all local interfaces. The
    /// phase advances once the grace timer event arrives.
    pub fn request_local_listen(&mut self) -> (a: Action)
        requires
            old(self)@.wf(),
            old(self)@.phase == Phase::TransportReady,
            !old(self)@.listen_requested,
        ensures
            final(self)@ =~= (StateModel { listen_requested: true, ..old(self)@ }),
            final(self)@.wf(),
            a == Action::ListenLocalAll,
    {
        self.listen_requested = true;
        Action::ListenLocalAll
    }

    /// Third transition's request: dial the relay, so that the relay learns
    /// this peer's address and reports the address it observes.
    pub fn dial_relay(&mut self) -> (a: Action)
        requires
            old(self)@.wf(),
            old(self)@.phase == Phase::ListeningLocal,
            !old(self)@.relay_dialed,
        ensures
            final(self)@ =~= (StateModel { relay_dialed: true, ..old(self)@ }),
            final(self)@.wf(),
            a == Action::DialRelay,
    {
        self.relay_dialed = true;
        Action::DialRelay
    }

    /// Fourth transition: issue the mode action. Reaching this call at all
    /// requires the observed-address exchange to have completed, so the
    /// mode action is never issued before both address flags are true.
    pub fn issue_mode_action(&mut self) -> (a: Action)
        requires
            old(self)@.wf(),
            old(self)@.phase == Phase::ObservedAddressExchanged,
        ensures
            final(self)@ =~= (StateModel { phase: Phase::ModeActionIssued, ..old(self)@ }),
            final(self)@.wf(),
            old(self)@.mode == Mode::Dial ==> a == Action::DialRemoteViaRelay,
            old(self)@.mode == Mode::Listen ==> a == Action::ListenOnRelayCircuit,
    {
        self.phase = Phase::ModeActionIssued;
        if self.mode == Mode::Dial {
            Action::DialRemoteViaRelay
        } else {
            Action::ListenOnRelayCircuit
        }
    }

    /// Consume one session event during a wait loop, exactly as `spec_step`
    /// describes.
    pub fn on_event(&mut self, e: Event) -> (a: Action)
        requires
            old(self)@.wf(),
            old(self)@.phase != Phase::Aborted,
        ensures
            final(self)@ =~= spec_step(old(self)@, e).0,
            a == spec_step(old(self)@, e).1,
            final(self)@.wf(),
    {
        let ghost e0 = e;
        let ghost pre = self@;
        proof {
            lemma_step_preserves_wf(pre, e0);
        }
        self.history = Ghost(self.history@.push(e0));
        let ph = self.phase;
        match ph {
            Phase::Idle => self.abort_on(e),
            Phase::TransportReady => {
                if !self.listen_requested {
                    self.abort_on(e)
                } else {
                    match e {
                        Event::ListenAddressReady => {
                            self.listening_all_interfaces = true;
                            Action::Wait
                        },
                        Event::GraceTimerElapsed => {
                            self.phase = Phase::ListeningLocal;
                            Action::Wait
                        },
                        other => self.abort_on(other),
                    }
                }
            },
            Phase::ListeningLocal => {
                match e {
                    Event::PeerInfoSent => {
                        self.told_relay_observed_addr = true;
                        if self.learned_observed_addr {
                            self.phase = Phase::ObservedAddressExchanged;
                        }
                        Action::Wait
                    },
                    Event::PeerInfoReceived(_) => {
                        self.learned_observed_addr = true;
                        if self.told_relay_observed_addr {
                            self.phase = Phase::ObservedAddressExchanged;
                        }
                        Action::Wait
                    },
                    Event::ListenAddressReady => Action::Wait,
                    Event::Dialing => Action::Wait,
                    Event::ConnectionEstablished => Action::Wait,
                    Event::GossipMessageReceived(_) => Action::Wait,
                    Event::KeepAliveEvent => Action::Wait,
                    other => self.abort_on(other),
                }
            },
            Phase::ObservedAddressExchanged => self.abort_on(e),
            Phase::ModeActionIssued => {
                match e {
                    Event::RelayReservationAccepted => {
                        if self.mode == Mode::Listen {
                            self.reservation_accepted = true;
                            self.phase = Phase::Established;
                            Action::Wait
                        } else {
                            self.phase = Phase::Aborted;
                            self.error = Some(EstablishError::ModeInvariant);
                            Action::Fail
                        }
                    },
                    Event::HolePunchSuccess => {
                        self.punch_established = true;
                        if self.mode == Mode::Dial {
                            self.phase = Phase::Established;
                        }
                        Action::Wait
                    },
                    _ => Action::Wait,
                }
            },
            Phase::Established => Action::Wait,
            Phase::Aborted => Action::Fail,
        }
    }

    /// Record an unexpected event for the current phase and abort.
    fn abort_on(&mut self, e: Event) -> (a: Action)
        ensures
            final(self)@ =~= (StateModel {
                phase: Phase::Aborted,
                error: Some(
                    EstablishError::UnexpectedEvent { phase: old(self)@.phase, event: e },
                ),
                ..old(self)@
            }),
            a == Action::Fail,
    {
        let ph = self.phase;
        self.phase = Phase::Aborted;
        self.error = Some(EstablishError::UnexpectedEvent { phase: ph, event: e });
        Action::Fail
    }
}

/// The phases are linear, with no backtracking: consuming an event never
/// moves the orchestrator to an earlier phase, and the only departure from
/// the forward order is the terminal failure phase.
pub proof fn lemma_phases_never_back_up(s: StateModel, e: Event)
    requires
        s.wf(),
        s.phase != Phase::Aborted,
    ensures
        spec_step(s, e).0.phase == Phase::Aborted || phase_rank(spec_step(s, e).0.phase)
            >= phase_rank(s.phase),
{
}

/// The mode action is issued only after the observed-address exchange: in
/// every well-formed state at or past `ObservedAddressExchanged`, both
/// `learned_observed_addr` and `told_relay_observed_addr` hold.
pub proof fn lemma_mode_action_needs_address_exchange(s: StateModel)
    requires
        s.wf(),
        s.phase != Phase::Aborted,
        phase_rank(s.phase) >= 3,
    ensures
        s.learned_observed_addr,
        s.told_relay_observed_addr,
{
}

/// The order in which the two address flags become true does not matter:
/// from any well-formed state in the address-exchange wait, consuming
/// `PeerInfoSent` and `PeerInfoReceived` in either order yields the same
/// flags and reaches `ObservedAddressExchanged`.
pub proof fn lemma_flag_order_immaterial(s: StateModel, addr: MultiAddr)
    requires
        s.wf(),
        s.phase == Phase::ListeningLocal,
        !s.learned_observed_addr,
        !s.told_relay_observed_addr,
    ensures
        ({
            let first = spec_step(spec_step(s, Event::PeerInfoSent).0, Event::PeerInfoReceived(addr)).0;
            let second = spec_step(spec_step(s, Event::PeerInfoReceived(addr)).0, Event::PeerInfoSent).0;
            first.phase == Phase::ObservedAddressExchanged && second.phase
                == Phase::ObservedAddressExchanged && first.learned_observed_addr
                && first.told_relay_observed_addr && second.learned_observed_addr
                && second.told_relay_observed_addr
        }),
{
}

/// The mode action and everything past it rest on a completed address
/// exchange: at or past `ObservedAddressExchanged`, the event history holds
/// both a `PeerInfoSent` and a `PeerInfoReceived`.
pub proof fn lemma_address_exchange_is_in_the_history(s: StateModel)
    requires
        s.wf(),
        s.phase != Phase::Aborted,
        phase_rank(s.phase) >= 3,
    ensures
        s.history.contains(Event::PeerInfoSent),
        history_has_peer_info_received(s.history),
{
}

/// In Listen mode, `Established` is never reached without the relay's
/// reservation acceptance: the event history of every such well-formed
/// state contains `RelayReservationAccepted`.
pub proof fn lemma_listen_established_saw_reservation(s: StateModel)
    requires
        s.wf(),
        s.mode == Mode::Listen,
        s.phase == Phase::Established,
    ensures
        s.reservation_accepted,
        s.history.contains(Event::RelayReservationAccepted),
{
}

} // verus!
