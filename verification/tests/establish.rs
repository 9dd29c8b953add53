use tochat::establish::{
    dial_target, listen_target, Action, EstablishError, Event, Hop, Mode, MultiAddr, Orchestrator,
    PeerId, Phase,
};

fn relay_addr() -> MultiAddr {
    MultiAddr::empty()
        .with_plain(String::from("/ip4/192.0.2.7"))
        .with_plain(String::from("/tcp/4001"))
}

#[test]
fn dial_without_remote_peer_is_fatal_before_any_action() {
    let r = Orchestrator::new(Mode::Dial, false);
    match r {
        Err(EstablishError::MissingRemotePeer) => {}
        _ => panic!("expected a missing-remote-peer configuration error"),
    }
}

#[test]
fn dial_with_remote_peer_starts_idle() {
    let o = Orchestrator::new(Mode::Dial, true).unwrap();
    assert_eq!(o.phase, Phase::Idle);
    assert_eq!(o.mode, Mode::Dial);
}

#[test]
fn listen_scenario_reaches_established_in_order() {
    let mut o = Orchestrator::new(Mode::Listen, false).unwrap();
    assert_eq!(o.phase, Phase::Idle);

    assert_eq!(o.build_transport(), Action::BuildTransport);
    assert_eq!(o.phase, Phase::TransportReady);

    assert_eq!(o.request_local_listen(), Action::ListenLocalAll);
    assert_eq!(o.on_event(Event::ListenAddressReady), Action::Wait);
    assert!(o.listening_all_interfaces);
    assert_eq!(o.on_event(Event::GraceTimerElapsed), Action::Wait);
    assert_eq!(o.phase, Phase::ListeningLocal);

    assert_eq!(o.dial_relay(), Action::DialRelay);
    // Benign events interleave with the address exchange.
    assert_eq!(o.on_event(Event::Dialing), Action::Wait);
    assert_eq!(o.on_event(Event::ConnectionEstablished), Action::Wait);
    assert_eq!(o.on_event(Event::PeerInfoSent), Action::Wait);
    assert!(o.told_relay_observed_addr);
    assert_eq!(o.phase, Phase::ListeningLocal);
    assert_eq!(o.on_event(Event::PeerInfoReceived(relay_addr())), Action::Wait);
    assert!(o.learned_observed_addr);
    assert_eq!(o.phase, Phase::ObservedAddressExchanged);

    assert_eq!(o.issue_mode_action(), Action::ListenOnRelayCircuit);
    assert_eq!(o.phase, Phase::ModeActionIssued);

    assert_eq!(o.on_event(Event::ConnectionEstablished), Action::Wait);
    assert_eq!(o.phase, Phase::ModeActionIssued);
    assert_eq!(o.on_event(Event::RelayReservationAccepted), Action::Wait);
    assert_eq!(o.phase, Phase::Established);
    assert!(o.reservation_accepted);
}

#[test]
fn dial_scenario_establishes_on_hole_punch() {
    let mut o = Orchestrator::new(Mode::Dial, true).unwrap();
    o.build_transport();
    o.request_local_listen();
    o.on_event(Event::GraceTimerElapsed);
    o.dial_relay();
    o.on_event(Event::PeerInfoReceived(relay_addr()));
    assert_eq!(o.phase, Phase::ListeningLocal);
    o.on_event(Event::PeerInfoSent);
    assert_eq!(o.phase, Phase::ObservedAddressExchanged);
    assert_eq!(o.issue_mode_action(), Action::DialRemoteViaRelay);

    // An outgoing-connection error is logged but not fatal while waiting.
    assert_eq!(o.on_event(Event::OutgoingConnectionError), Action::Wait);
    assert_eq!(o.phase, Phase::ModeActionIssued);
    assert_eq!(o.on_event(Event::RelayOtherEvent), Action::Wait);
    assert_eq!(o.on_event(Event::HolePunchSuccess), Action::Wait);
    assert_eq!(o.phase, Phase::Established);
    assert!(o.punch_established);
}

#[test]
fn address_flags_complete_in_either_order() {
    for first_sent in [true, false] {
        let mut o = Orchestrator::new(Mode::Listen, false).unwrap();
        o.build_transport();
        o.request_local_listen();
        o.on_event(Event::GraceTimerElapsed);
        o.dial_relay();
        if first_sent {
            o.on_event(Event::PeerInfoSent);
            assert_eq!(o.phase, Phase::ListeningLocal);
            o.on_event(Event::PeerInfoReceived(relay_addr()));
        } else {
            o.on_event(Event::PeerInfoReceived(relay_addr()));
            assert_eq!(o.phase, Phase::ListeningLocal);
            o.on_event(Event::PeerInfoSent);
        }
        assert_eq!(o.phase, Phase::ObservedAddressExchanged);
        assert!(o.learned_observed_addr && o.told_relay_observed_addr);
    }
}

#[test]
fn unexpected_event_during_local_listen_aborts() {
    let mut o = Orchestrator::new(Mode::Listen, false).unwrap();
    o.build_transport();
    o.request_local_listen();
    assert_eq!(o.on_event(Event::PeerInfoSent), Action::Fail);
    assert_eq!(o.phase, Phase::Aborted);
    match o.error {
        Some(EstablishError::UnexpectedEvent { phase, event }) => {
            assert_eq!(phase, Phase::TransportReady);
            assert_eq!(event, Event::PeerInfoSent);
        }
        _ => panic!("expected an unexpected-event error"),
    }
}

#[test]
fn unexpected_event_during_address_exchange_aborts() {
    let mut o = Orchestrator::new(Mode::Listen, false).unwrap();
    o.build_transport();
    o.request_local_listen();
    o.on_event(Event::GraceTimerElapsed);
    o.dial_relay();
    assert_eq!(o.on_event(Event::RelayReservationAccepted), Action::Fail);
    assert_eq!(o.phase, Phase::Aborted);
}

#[test]
fn reservation_while_dialing_is_a_mode_invariant_violation() {
    let mut o = Orchestrator::new(Mode::Dial, true).unwrap();
    o.build_transport();
    o.request_local_listen();
    o.on_event(Event::GraceTimerElapsed);
    o.dial_relay();
    o.on_event(Event::PeerInfoSent);
    o.on_event(Event::PeerInfoReceived(relay_addr()));
    o.issue_mode_action();
    assert_eq!(o.on_event(Event::RelayReservationAccepted), Action::Fail);
    assert_eq!(o.phase, Phase::Aborted);
    assert_eq!(o.error, Some(EstablishError::ModeInvariant));
}

#[test]
fn hole_punch_does_not_establish_listen_side() {
    let mut o = Orchestrator::new(Mode::Listen, false).unwrap();
    o.build_transport();
    o.request_local_listen();
    o.on_event(Event::GraceTimerElapsed);
    o.dial_relay();
    o.on_event(Event::PeerInfoSent);
    o.on_event(Event::PeerInfoReceived(relay_addr()));
    o.issue_mode_action();
    o.on_event(Event::HolePunchSuccess);
    assert_eq!(o.phase, Phase::ModeActionIssued);
    o.on_event(Event::RelayReservationAccepted);
    assert_eq!(o.phase, Phase::Established);
}

#[test]
fn dial_target_extends_relay_address() {
    let remote = PeerId { bytes: b"12D3KooWremote".to_vec() };
    let t = dial_target(relay_addr(), remote.clone());
    assert_eq!(t.hops.len(), 4);
    assert_eq!(t.hops[2], Hop::Circuit);
    assert_eq!(t.hops[3], Hop::Peer(remote));
}

#[test]
fn listen_target_extends_relay_address_with_circuit() {
    let t = listen_target(relay_addr());
    assert_eq!(t.hops.len(), 3);
    assert_eq!(t.hops[2], Hop::Circuit);
}
