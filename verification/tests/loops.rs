use fluxy::commands::{
    get_self_id, start_broadcasting, start_listening, stop_broadcasting, stop_listening,
};
use fluxy::discovery::broadcaster::{BroadcastStep, Broadcaster};
use fluxy::discovery::listener::Listener;
use fluxy::discovery::{
    DiscoveryMessage, LoopControl, ANNOUNCE_INTERVAL_SECS, MAX_DATAGRAM_SIZE, MULTICAST_ADDRESS,
    MULTICAST_PORT,
};
use fluxy::error::FluxyError;
use fluxy::os::{
    hostname_from_lookup, hostname_or_unknown, local_hostname, OsInformation, OsType,
};
use fluxy::state::app_state::AppState;

fn loop_os() -> OsInformation {
    OsInformation::from_parts("android".to_string(), OsType::Android, "14".to_string())
}

fn loop_node() -> AppState {
    let mut state = AppState::with_id("me".to_string(), loop_os());
    state.set_server_port(4321);
    state
}

#[test]
fn multicast_group_and_limits() {
    assert_eq!(MULTICAST_ADDRESS, [226, 4, 55, 1]);
    assert_eq!(MULTICAST_PORT, 55412);
    assert_eq!(MAX_DATAGRAM_SIZE, 1024);
    assert_eq!(ANNOUNCE_INTERVAL_SECS, 1);
}

#[test]
fn starting_twice_starts_one_loop() {
    let mut broadcaster = Broadcaster::with_hostname("host".to_string());
    assert!(!broadcaster.is_broadcasting());
    assert!(broadcaster.start_broadcasting());
    assert!(broadcaster.is_broadcasting());
    assert!(!broadcaster.start_broadcasting());
    assert!(broadcaster.is_broadcasting());
}

#[test]
fn the_broadcaster_announces_the_node_at_each_tick() {
    let state = loop_node();
    let mut broadcaster = Broadcaster::with_hostname("host".to_string());
    broadcaster.start_broadcasting();
    let expected = DiscoveryMessage::Announce {
        node_id: "me".to_string(),
        hostname: "host".to_string(),
        timestamp: 1000,
        protocol_version: "1.0".to_string(),
        server_port: 4321,
        os_info: loop_os(),
    };
    assert_eq!(broadcaster.next_step(&state, 1000), BroadcastStep::Send(expected.clone()));
    assert_eq!(broadcaster.broadcast_message(&state, 1000), expected);
    assert!(broadcaster.is_broadcasting());
}

#[test]
fn stop_ends_the_loop_at_the_next_tick() {
    let state = loop_node();
    let mut broadcaster = Broadcaster::with_hostname("host".to_string());
    broadcaster.start_broadcasting();
    broadcaster.stop_broadcasting();
    assert!(broadcaster.is_broadcasting());
    assert_eq!(broadcaster.next_step(&state, 5), BroadcastStep::Exit);
    assert!(!broadcaster.is_broadcasting());
}

#[test]
fn a_restart_needs_a_fresh_signal() {
    let state = loop_node();
    let mut broadcaster = Broadcaster::with_hostname("host".to_string());
    broadcaster.start_broadcasting();
    broadcaster.stop_broadcasting();
    broadcaster.next_step(&state, 5);
    assert!(broadcaster.start_broadcasting());
    assert_eq!(broadcaster.next_step(&state, 6), BroadcastStep::Exit);
    broadcaster.reset_shutdown();
    assert!(broadcaster.start_broadcasting());
    assert!(matches!(broadcaster.next_step(&state, 7), BroadcastStep::Send(_)));
}

#[test]
fn the_start_command_installs_a_fresh_signal() {
    let state = loop_node();
    let mut broadcaster = Broadcaster::with_hostname("host".to_string());
    assert!(start_broadcasting(&mut broadcaster));
    assert!(!start_broadcasting(&mut broadcaster));
    stop_broadcasting(&mut broadcaster);
    assert_eq!(broadcaster.next_step(&state, 1), BroadcastStep::Exit);
    assert!(start_broadcasting(&mut broadcaster));
    assert!(matches!(broadcaster.next_step(&state, 2), BroadcastStep::Send(_)));
}

#[test]
fn a_step_of_a_loop_at_rest_is_an_exit() {
    let state = loop_node();
    let mut broadcaster = Broadcaster::with_hostname("host".to_string());
    assert_eq!(broadcaster.next_step(&state, 1), BroadcastStep::Exit);
}

#[test]
fn the_listener_mirrors_the_broadcaster() {
    let mut listener = Listener::new();
    assert!(!listener.is_listening());
    assert!(listener.start_listening());
    assert!(!listener.start_listening());
    assert!(!listener.should_exit());
    listener.stop_listening();
    assert!(listener.should_exit());
    assert!(!listener.is_listening());
    assert!(start_listening(&mut listener));
    assert!(!listener.should_exit());
    stop_listening(&mut listener);
    assert!(listener.should_exit());
    listener.reset_shutdown();
    assert!(listener.start_listening());
    assert!(!listener.should_exit());
}

#[test]
fn loop_control_steps() {
    let mut control = LoopControl::new();
    assert_eq!(control, LoopControl { running: false, stop_signalled: false });
    assert!(control.start());
    assert!(!control.start());
    control.stop();
    assert_eq!(control, LoopControl { running: true, stop_signalled: true });
    assert!(control.check_exit());
    assert_eq!(control, LoopControl { running: false, stop_signalled: true });
    control.reset();
    assert_eq!(control, LoopControl { running: false, stop_signalled: false });
}

#[test]
fn a_host_without_a_name_in_text_is_unknown() {
    assert_eq!(hostname_or_unknown(None), "unknown");
    assert_eq!(hostname_or_unknown(Some("box".to_string())), "box");
}

#[test]
fn the_broadcaster_takes_the_name_of_this_machine() {
    let state = loop_node();
    let name = local_hostname().ok().unwrap();
    let broadcaster = Broadcaster::new().ok().unwrap();
    assert!(!broadcaster.is_broadcasting());
    match broadcaster.broadcast_message(&state, 1) {
        DiscoveryMessage::Announce { hostname, .. } => assert_eq!(hostname, name),
        other => panic!("unexpected: {:?}", other),
    }
}

#[test]
fn the_self_id_command_tells_the_id() {
    assert_eq!(get_self_id(&loop_node()), "me");
}

#[test]
fn a_refused_host_name_lookup_is_an_io_error() {
    let refusal = std::io::Error::new(std::io::ErrorKind::PermissionDenied, "no name for you");
    match hostname_from_lookup(Err(refusal)) {
        Err(FluxyError::Io(e)) => {
            assert_eq!(e.kind(), std::io::ErrorKind::PermissionDenied);
            assert_eq!(e.to_string(), "no name for you");
        }
        _ => panic!("a refusal must come back as an Io error"),
    }
    assert_eq!(hostname_from_lookup(Ok(None)).ok().unwrap(), "unknown");
    assert_eq!(hostname_from_lookup(Ok(Some("box".to_string()))).ok().unwrap(), "box");
}

#[test]
fn a_broadcaster_follows_the_host_name_lookup() {
    let state = loop_node();
    let broadcaster = Broadcaster::from_hostname(Ok("box".to_string())).ok().unwrap();
    assert!(!broadcaster.is_broadcasting());
    match broadcaster.broadcast_message(&state, 3) {
        DiscoveryMessage::Announce { hostname, .. } => assert_eq!(hostname, "box"),
        other => panic!("unexpected: {:?}", other),
    }
    let refusal = std::io::Error::new(std::io::ErrorKind::Other, "refused");
    assert!(matches!(
        Broadcaster::from_hostname(Err(FluxyError::Io(refusal))),
        Err(FluxyError::Io(_))
    ));
    assert!(matches!(
        Broadcaster::from_hostname(Err(FluxyError::TimeoutElapsed)),
        Err(FluxyError::TimeoutElapsed)
    ));
}
