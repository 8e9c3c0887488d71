use fluxy::commands::{
    accept_pair_request, pair_request_sent, pair_response_sent, respond_pair_request,
    send_pair_request,
};
use fluxy::discovery::broadcaster::{BroadcastStep, Broadcaster};
use fluxy::error::FluxyError;
use fluxy::network::protocol::{Message, MessageType};
use fluxy::network::tcp_server::TcpServer;
use fluxy::os::{OsInformation, OsType};
use fluxy::state::app_state::{AppState, Notification};
use fluxy::state::peer::{PairStatus, PeerInfo, PeerStatus};

fn pairing_os() -> OsInformation {
    OsInformation::from_parts("macos".to_string(), OsType::Macos, "14.1".to_string())
}

fn pairing_node(id: &str) -> AppState {
    AppState::with_id(id.to_string(), pairing_os())
}

fn pairing_peer(id: &str) -> PeerInfo {
    PeerInfo {
        id: id.to_string(),
        hostname: "host".to_string(),
        ip: "192.168.1.7".to_string(),
        last_seen: 1,
        protocol_version: "1.0".to_string(),
        status: PeerStatus::Online,
        port: 5000,
        os_info: pairing_os(),
    }
}

fn pair_request(from: &str, to: &str) -> Message {
    Message {
        id: "m1".to_string(),
        source_id: from.to_string(),
        target_id: to.to_string(),
        message_type: MessageType::PairRequest { hostname: "host-a".to_string() },
    }
}

fn pair_response(from: &str, to: &str, accepted: bool) -> Message {
    Message {
        id: "m2".to_string(),
        source_id: from.to_string(),
        target_id: to.to_string(),
        message_type: MessageType::PairResponse { accepted, hostname: "host-b".to_string() },
    }
}

#[test]
fn a_peer_never_dealt_with_has_no_pair_status() {
    let state = pairing_node("a");
    assert_eq!(state.get_pair_status("b"), None);
    match state.notify_pair_update("b") {
        Err(FluxyError::Other(text)) => assert_eq!(text, "Pair state not found for peer: b"),
        other => panic!("unexpected: {:?}", other),
    }
}

#[test]
fn pair_request_makes_the_receiver_wait_for_the_user() {
    let mut b = pairing_node("b");
    let notes = TcpServer::handle_message(&pair_request("a", "b"), &mut b);
    assert_eq!(
        notes,
        vec![
            Notification::PairUpdate("a".to_string(), PairStatus::RequestReceived),
            Notification::PairRequestReceived("a".to_string()),
        ]
    );
    assert_eq!(b.get_pair_status("a"), Some(PairStatus::RequestReceived));
    assert!(!b.is_paired());
    assert_eq!(
        b.notify_pair_update("a").unwrap(),
        Notification::PairUpdate("a".to_string(), PairStatus::RequestReceived)
    );
}

#[test]
fn accepted_handshake_pairs_both_sides() {
    let mut a = pairing_node("a");
    let mut b = pairing_node("b");
    let note = pair_request_sent(&mut a, "b".to_string());
    assert_eq!(note, Notification::PairUpdate("b".to_string(), PairStatus::Requested));
    assert_eq!(a.get_pair_status("b"), Some(PairStatus::Requested));
    TcpServer::handle_message(&pair_request("a", "b"), &mut b);
    let note = pair_response_sent(&mut b, "a".to_string(), true);
    assert_eq!(note, Notification::PairUpdate("a".to_string(), PairStatus::Paired));
    let notes = TcpServer::handle_message(&pair_response("b", "a", true), &mut a);
    assert_eq!(notes, vec![Notification::PairUpdate("b".to_string(), PairStatus::Paired)]);
    assert_eq!(a.get_pair_status("b"), Some(PairStatus::Paired));
    assert_eq!(b.get_pair_status("a"), Some(PairStatus::Paired));
    assert!(a.is_paired());
    assert!(b.is_paired());
}

#[test]
fn rejected_handshake_is_rejected_on_both_sides() {
    let mut a = pairing_node("a");
    let mut b = pairing_node("b");
    pair_request_sent(&mut a, "b".to_string());
    TcpServer::handle_message(&pair_request("a", "b"), &mut b);
    pair_response_sent(&mut b, "a".to_string(), false);
    TcpServer::handle_message(&pair_response("b", "a", false), &mut a);
    assert_eq!(a.get_pair_status("b"), Some(PairStatus::Rejected));
    assert_eq!(b.get_pair_status("a"), Some(PairStatus::Rejected));
    assert!(!a.is_paired());
    assert!(!b.is_paired());
}

#[test]
fn pairing_commands_fail_for_an_unknown_peer() {
    let state = pairing_node("a");
    match send_pair_request(&state, "nobody") {
        Err(FluxyError::Other(text)) => assert_eq!(text, "Peer not found"),
        _ => panic!("an unknown peer must be refused"),
    }
    match respond_pair_request(&state, "nobody", true) {
        Err(FluxyError::Other(text)) => assert_eq!(text, "Peer not found"),
        _ => panic!("an unknown peer must be refused"),
    }
}

#[test]
fn pairing_commands_address_the_known_peer() {
    let mut state = pairing_node("a");
    state.update_peer("b".to_string(), pairing_peer("b"));
    let out = send_pair_request(&state, "b").ok().unwrap();
    assert_eq!(out.peer, pairing_peer("b"));
    assert_eq!(out.message.source_id, "a");
    assert_eq!(out.message.target_id, "b");
    assert!(matches!(out.message.message_type, MessageType::PairRequest { .. }));
    assert_eq!(out.message.id.len(), 36);
    let out = respond_pair_request(&state, "b", false).ok().unwrap();
    assert_eq!(out.peer.port, 5000);
    assert!(matches!(
        out.message.message_type,
        MessageType::PairResponse { accepted: false, .. }
    ));
}

#[test]
fn accepting_a_pairing_stops_the_broadcast() {
    let mut state = pairing_node("a");
    let mut broadcaster = Broadcaster::with_hostname("host-a".to_string());
    assert!(broadcaster.start_broadcasting());
    let note = accept_pair_request(&mut state, &mut broadcaster, "b".to_string());
    assert_eq!(note, Notification::PairUpdate("b".to_string(), PairStatus::Paired));
    assert!(state.is_paired());
    assert_eq!(state.get_pair_status("b"), Some(PairStatus::Paired));
    assert_eq!(broadcaster.next_step(&state, 9), BroadcastStep::Exit);
    assert!(!broadcaster.is_broadcasting());
}

#[test]
fn set_paired_sets_the_flag() {
    let mut state = pairing_node("a");
    state.set_paired(true);
    assert!(state.is_paired());
    state.set_paired(false);
    assert!(!state.is_paired());
}
