use kadugu_net::{incoming_stream_action, IncomingAction, IncomingStream, ServerAction, ServerEvent, ServerLoop};

#[test]
fn new_server_loop_has_no_reservation() {
    let s = ServerLoop::new();
    assert!(!s.relay_reservation_complete);
    assert!(!s.stopped);
}

#[test]
fn identify_without_reservation_listens_on_circuit() {
    let mut s = ServerLoop::new();
    assert_eq!(s.step(ServerEvent::IdentifyReceived), ServerAction::ListenOnRelayCircuit);
    assert_eq!(s.step(ServerEvent::IdentifyReceived), ServerAction::ListenOnRelayCircuit);
}

#[test]
fn reservation_suppresses_listen_until_expiry() {
    let mut s = ServerLoop::new();
    assert_eq!(s.step(ServerEvent::RelayReservationAccepted), ServerAction::Continue);
    assert!(s.relay_reservation_complete);
    assert_eq!(s.step(ServerEvent::IdentifyReceived), ServerAction::Continue);
    assert_eq!(s.step(ServerEvent::Other), ServerAction::Continue);
    assert_eq!(s.step(ServerEvent::IdentifyReceived), ServerAction::Continue);
    assert_eq!(s.step(ServerEvent::ExternalAddrExpired), ServerAction::Continue);
    assert!(!s.relay_reservation_complete);
    assert_eq!(s.step(ServerEvent::IdentifyReceived), ServerAction::ListenOnRelayCircuit);
}

#[test]
fn swarm_end_keeps_the_loop_running() {
    let mut s = ServerLoop::new();
    assert_eq!(s.step(ServerEvent::SwarmEnded), ServerAction::Continue);
    assert!(!s.stopped);
}

#[test]
fn stop_is_final_for_server() {
    let mut s = ServerLoop::new();
    assert_eq!(s.step(ServerEvent::StopSignal), ServerAction::Shutdown);
    assert!(s.stopped);
    assert_eq!(s.step(ServerEvent::IdentifyReceived), ServerAction::Shutdown);
    assert_eq!(s.step(ServerEvent::RelayReservationAccepted), ServerAction::Shutdown);
    assert!(!s.relay_reservation_complete);
}

#[test]
fn incoming_streams_are_filtered() {
    let accepted = vec!["QmAllowed".to_string()];
    let ok = IncomingStream::Opened { peer: "QmAllowed".to_string() };
    let bad = IncomingStream::Opened { peer: "QmStranger".to_string() };
    assert_eq!(incoming_stream_action(&accepted, &ok), IncomingAction::Forward);
    assert_eq!(incoming_stream_action(&accepted, &bad), IncomingAction::Reject);
    assert_eq!(incoming_stream_action(&accepted, &IncomingStream::StopSignal), IncomingAction::Finish);
    assert_eq!(incoming_stream_action(&accepted, &IncomingStream::Ended), IncomingAction::Finish);
    let open: Vec<String> = Vec::new();
    assert_eq!(incoming_stream_action(&open, &bad), IncomingAction::Forward);
}
