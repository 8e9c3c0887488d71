use fluxy::error::FluxyError;
use fluxy::network::protocol::{Message, MessageType};
use fluxy::network::tcp_server::{
    AcceptEvent, AcceptStep, ConnectionEvent, ConnectionStep, JoinEvent, TcpServer, CHUNK_BYTES,
    DRAIN_TIMEOUT_SECS,
};
use fluxy::os::{OsInformation, OsType};
use fluxy::state::app_state::{AppState, Notification};
use fluxy::state::transfer::{TransferStatus, TransferTask, TransferType};

fn server_node() -> AppState {
    let os = OsInformation::from_parts("ios".to_string(), OsType::IOS, "17".to_string());
    AppState::with_id("me".to_string(), os)
}

fn from_peer(message_type: MessageType) -> Message {
    Message {
        id: "m".to_string(),
        source_id: "peer".to_string(),
        target_id: "me".to_string(),
        message_type,
    }
}

fn received_task(id: &str, size: u64, progress: u64, status: TransferStatus) -> TransferTask {
    TransferTask {
        id: id.to_string(),
        peer_id: "peer".to_string(),
        transfer_type: TransferType::File {
            path: "notes.txt".to_string(),
            name: "notes.txt".to_string(),
            size,
            progress,
        },
        status,
    }
}

#[test]
fn a_new_server_records_its_port() {
    let mut state = server_node();
    let server = TcpServer::new(&mut state, 40123);
    assert_eq!(server.port(), 40123);
    assert_eq!(state.get_server_port(), 40123);
    assert!(!server.is_cancelled());
    assert_eq!(server.completed_tasks(), 0);
}

#[test]
fn the_accept_loop_spawns_continues_and_stops() {
    let mut state = server_node();
    let server = TcpServer::new(&mut state, 1);
    assert_eq!(server.start(AcceptEvent::Connection), AcceptStep::Spawn);
    assert_eq!(server.start(AcceptEvent::Failure), AcceptStep::Continue);
    assert_eq!(server.start(AcceptEvent::Cancelled), AcceptStep::Stop);
}

#[test]
fn shutdown_waits_for_handlers_with_a_bound() {
    assert_eq!(DRAIN_TIMEOUT_SECS, 5);
    let mut state = server_node();
    let mut server = TcpServer::new(&mut state, 1);
    server.stop();
    assert!(server.is_cancelled());
    assert!(matches!(server.drain(JoinEvent::Finished), Ok(true)));
    assert!(matches!(server.drain(JoinEvent::Failed), Ok(true)));
    assert!(matches!(server.drain(JoinEvent::Finished), Ok(true)));
    assert_eq!(server.completed_tasks(), 2);
    assert!(matches!(server.drain(JoinEvent::Empty), Ok(false)));
    assert_eq!(server.completed_tasks(), 2);
}

#[test]
fn shutdown_gives_up_when_a_wait_runs_out() {
    let mut state = server_node();
    let mut server = TcpServer::new(&mut state, 1);
    server.stop();
    assert!(matches!(server.drain(JoinEvent::TimedOut), Err(FluxyError::TimeoutElapsed)));
    assert_eq!(server.completed_tasks(), 0);
}

#[test]
fn a_handler_reads_on_after_a_message() {
    let mut state = server_node();
    let request = from_peer(MessageType::PairRequest { hostname: "h".to_string() });
    let (step, notes) = TcpServer::handle_connection(&mut state, ConnectionEvent::Received(request));
    assert_eq!(step, ConnectionStep::Continue);
    assert_eq!(notes.len(), 2);
}

#[test]
fn a_handler_ends_on_close_error_and_cancel() {
    let mut state = server_node();
    assert_eq!(
        TcpServer::handle_connection(&mut state, ConnectionEvent::Closed),
        (ConnectionStep::Close, vec![])
    );
    assert_eq!(
        TcpServer::handle_connection(&mut state, ConnectionEvent::ReadFailed),
        (ConnectionStep::Close, vec![])
    );
    assert_eq!(
        TcpServer::handle_connection(&mut state, ConnectionEvent::Cancelled),
        (ConnectionStep::ShutdownThenClose, vec![])
    );
}

#[test]
fn a_transfer_request_creates_a_pending_task() {
    let mut state = server_node();
    let request = from_peer(MessageType::TransferRequest {
        transfer_id: "theirs".to_string(),
        file_name: "notes.txt".to_string(),
        file_size: 2048,
    });
    let notes = TcpServer::handle_message(&request, &mut state);
    let tasks = state.get_transfers();
    assert_eq!(tasks.len(), 1);
    assert_eq!(tasks[0].id.len(), 36);
    assert_eq!(tasks[0], received_task(&tasks[0].id, 2048, 0, TransferStatus::Pending));
    assert_eq!(notes, vec![Notification::TransferUpdate(tasks[0].clone())]);
    assert_eq!(state.get_transfer(&tasks[0].id), Some(tasks[0].clone()));
}

#[test]
fn a_transfer_request_is_stored_under_the_given_id() {
    let mut state = server_node();
    let request = from_peer(MessageType::TransferRequest {
        transfer_id: "theirs".to_string(),
        file_name: "notes.txt".to_string(),
        file_size: 2048,
    });
    let notes = TcpServer::handle_message_with_id(&request, &mut state, "ours".to_string());
    let expected = received_task("ours", 2048, 0, TransferStatus::Pending);
    assert_eq!(notes, vec![Notification::TransferUpdate(expected.clone())]);
    assert_eq!(state.get_transfer("ours"), Some(expected));
    assert_eq!(state.get_transfer("theirs"), None);
}

#[test]
fn file_data_counts_the_chunks_before_it() {
    assert_eq!(CHUNK_BYTES, 65536);
    let mut state = server_node();
    state.insert_transfer("t".to_string(), received_task("t", 200_000, 0, TransferStatus::Pending));
    let expected: [u64; 5] = [0, 65536, 131072, 196608, 200_000];
    for index in 0..5u32 {
        let chunk = from_peer(MessageType::FileData {
            transfer_id: "t".to_string(),
            chunk_index: index,
            data: vec![0; 4],
        });
        let notes = TcpServer::handle_message(&chunk, &mut state);
        let task =
            received_task("t", 200_000, expected[index as usize], TransferStatus::Transferring);
        assert_eq!(notes, vec![Notification::TransferUpdate(task)]);
    }
}

#[test]
fn file_data_with_the_largest_index_is_capped() {
    let mut state = server_node();
    state.insert_transfer("t".to_string(), received_task("t", u64::MAX, 0, TransferStatus::Pending));
    let note = TcpServer::handle_file_data("t", u32::MAX, &mut state);
    let bytes = 4294967295u64 * 65536;
    assert_eq!(
        note,
        Some(Notification::TransferUpdate(received_task(
            "t",
            u64::MAX,
            bytes,
            TransferStatus::Transferring
        )))
    );
}

#[test]
fn file_data_for_an_unknown_transfer_is_dropped() {
    let mut state = server_node();
    let chunk = from_peer(MessageType::FileData {
        transfer_id: "ghost".to_string(),
        chunk_index: 3,
        data: vec![1],
    });
    assert_eq!(TcpServer::handle_message(&chunk, &mut state), vec![]);
    assert!(state.get_transfers().is_empty());
}

#[test]
fn file_data_after_a_cancel_changes_nothing() {
    let mut state = server_node();
    state.insert_transfer("t".to_string(), received_task("t", 100, 10, TransferStatus::Cancelled));
    let note = TcpServer::handle_file_data("t", 1, &mut state);
    assert_eq!(
        note,
        Some(Notification::TransferUpdate(received_task("t", 100, 10, TransferStatus::Cancelled)))
    );
}

#[test]
fn other_messages_are_ignored() {
    let mut state = server_node();
    state.insert_transfer("t".to_string(), received_task("t", 100, 10, TransferStatus::Pending));
    for message_type in [
        MessageType::TransferAccept { transfer_id: "t".to_string() },
        MessageType::TransferReject { transfer_id: "t".to_string() },
        MessageType::TransferCancel { transfer_id: "t".to_string() },
        MessageType::TextMessage { transfer_id: "t".to_string(), content: "hi".to_string() },
    ] {
        assert_eq!(TcpServer::handle_message(&from_peer(message_type), &mut state), vec![]);
    }
    assert_eq!(
        state.get_transfers(),
        vec![received_task("t", 100, 10, TransferStatus::Pending)]
    );
    assert_eq!(state.get_pair_status("peer"), None);
}
