use fluxy::discovery::listener::Listener;
use fluxy::discovery::DiscoveryMessage;
use fluxy::os::{OsInformation, OsType};
use fluxy::state::app_state::{AppState, Notification};
use fluxy::state::peer::{PeerInfo, PeerStatus};

fn linux() -> OsInformation {
    OsInformation::from_parts("linux".to_string(), OsType::Linux, "6.1.0".to_string())
}

fn node(id: &str) -> AppState {
    AppState::with_id(id.to_string(), linux())
}

fn peer(id: &str, last_seen: u64) -> PeerInfo {
    PeerInfo {
        id: id.to_string(),
        hostname: format!("host-{}", id),
        ip: "192.168.1.20".to_string(),
        last_seen,
        protocol_version: "1.0".to_string(),
        status: PeerStatus::Online,
        port: 4000,
        os_info: linux(),
    }
}

fn announce(id: &str, timestamp: u64) -> DiscoveryMessage {
    DiscoveryMessage::Announce {
        node_id: id.to_string(),
        hostname: format!("host-{}", id),
        timestamp,
        protocol_version: "1.0".to_string(),
        server_port: 4000,
        os_info: linux(),
    }
}

#[test]
fn a_new_state_knows_nothing() {
    let state = node("me");
    assert_eq!(state.get_self_id(), "me");
    assert!(state.get_peers().is_empty());
    assert!(state.get_transfers().is_empty());
    assert!(!state.is_paired());
    assert_eq!(state.get_server_port(), 0);
    assert_eq!(state.get_os_info(), linux());
}

#[test]
fn a_new_state_gets_a_random_id() {
    let one = AppState::new(linux());
    let two = AppState::new(linux());
    assert_eq!(one.get_self_id().len(), 36);
    assert_ne!(one.get_self_id(), two.get_self_id());
}

#[test]
fn update_peer_stores_and_replaces() {
    let mut state = node("me");
    let note = state.update_peer("a".to_string(), peer("a", 10));
    assert_eq!(note, Notification::PeerUpdate(vec![peer("a", 10)]));
    state.update_peer("b".to_string(), peer("b", 11));
    let note = state.update_peer("a".to_string(), peer("a", 12));
    assert_eq!(note, Notification::PeerUpdate(vec![peer("a", 12), peer("b", 11)]));
    assert_eq!(state.get_peer("a"), Some(peer("a", 12)));
    assert_eq!(state.get_peer("c"), None);
}

#[test]
fn remove_peer_forgets_one_peer() {
    let mut state = node("me");
    state.update_peer("a".to_string(), peer("a", 10));
    state.update_peer("b".to_string(), peer("b", 11));
    let note = state.remove_peer("a");
    assert_eq!(note, Notification::PeerUpdate(vec![peer("b", 11)]));
    let note = state.remove_peer("missing");
    assert_eq!(note, Notification::PeerUpdate(vec![peer("b", 11)]));
}

#[test]
fn sweep_removes_only_stale_peers() {
    let now = 1_700_000_000u64;
    let mut state = node("me");
    state.update_peer("fresh".to_string(), peer("fresh", now - 5));
    state.update_peer("stale".to_string(), peer("stale", now - 120));
    let note = state.cleanup_stale_peers(now, 60);
    assert_eq!(note, Notification::PeerUpdate(vec![peer("fresh", now - 5)]));
    assert_eq!(state.get_peer("fresh"), Some(peer("fresh", now - 5)));
    assert_eq!(state.get_peer("stale"), None);
}

#[test]
fn sweep_keeps_a_peer_exactly_at_the_timeout() {
    let mut state = node("me");
    state.update_peer("edge".to_string(), peer("edge", 40));
    state.update_peer("over".to_string(), peer("over", 39));
    state.cleanup_stale_peers(100, 60);
    assert_eq!(state.get_peers(), vec![peer("edge", 40)]);
}

#[test]
fn sweep_keeps_a_peer_seen_after_now() {
    let mut state = node("me");
    state.update_peer("ahead".to_string(), peer("ahead", 200));
    state.cleanup_stale_peers(100, 0);
    assert_eq!(state.get_peers(), vec![peer("ahead", 200)]);
}

#[test]
fn clear_peers_forgets_all() {
    let mut state = node("me");
    state.update_peer("a".to_string(), peer("a", 10));
    state.clear_peers();
    assert!(state.get_peers().is_empty());
}

#[test]
fn announce_from_another_node_creates_the_peer() {
    let mut state = node("me");
    let listener = Listener::new();
    let note = listener.handle_message(&mut state, announce("a", 50), "192.168.1.20".to_string());
    assert_eq!(note, Some(Notification::PeerUpdate(vec![peer("a", 50)])));
    assert_eq!(state.get_peer("a"), Some(peer("a", 50)));
}

#[test]
fn announce_overwrites_what_was_known() {
    let mut state = node("me");
    let listener = Listener::new();
    let mut old = peer("a", 10);
    old.status = PeerStatus::Busy;
    old.ip = "10.0.0.9".to_string();
    state.update_peer("a".to_string(), old);
    listener.handle_message(&mut state, announce("a", 50), "192.168.1.20".to_string());
    assert_eq!(state.get_peers(), vec![peer("a", 50)]);
}

#[test]
fn announce_from_self_is_ignored() {
    let mut state = node("me");
    let listener = Listener::new();
    let note = listener.handle_message(&mut state, announce("me", 50), "192.168.1.20".to_string());
    assert_eq!(note, None);
    assert!(state.get_peers().is_empty());
}

#[test]
fn heartbeat_refreshes_a_known_peer() {
    let mut state = node("me");
    let listener = Listener::new();
    state.update_peer("a".to_string(), peer("a", 10));
    let beat = DiscoveryMessage::Heartbeat { node_id: "a".to_string(), timestamp: 77 };
    let note = listener.handle_message(&mut state, beat, "10.9.9.9".to_string());
    assert_eq!(note, None);
    assert_eq!(state.get_peers(), vec![peer("a", 77)]);
}

#[test]
fn heartbeat_for_unknown_peer_changes_nothing() {
    let mut state = node("me");
    let listener = Listener::new();
    state.update_peer("a".to_string(), peer("a", 10));
    let beat = DiscoveryMessage::Heartbeat { node_id: "ghost".to_string(), timestamp: 77 };
    let note = listener.handle_message(&mut state, beat, "10.9.9.9".to_string());
    assert_eq!(note, None);
    assert_eq!(state.get_peers(), vec![peer("a", 10)]);
    assert!(!state.update_peer_last_seen("ghost", 78));
    assert!(state.update_peer_last_seen("a", 78));
}

#[test]
fn a_malformed_datagram_is_dropped() {
    let mut state = node("me");
    let listener = Listener::new();
    let note = listener.receive_message(&mut state, None, "10.9.9.9".to_string());
    assert_eq!(note, None);
    assert!(state.get_peers().is_empty());
    let note =
        listener.receive_message(&mut state, Some(announce("a", 5)), "192.168.1.20".to_string());
    assert_eq!(note, Some(Notification::PeerUpdate(vec![peer("a", 5)])));
}

#[test]
fn notifications_are_published_under_their_names() {
    let state = node("me");
    assert_eq!(state.notify_peer_update().event_name(), "peer-update");
    assert_eq!(
        Notification::PairRequestReceived("a".to_string()).event_name(),
        "pair-request-received"
    );
}
