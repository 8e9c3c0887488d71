//! What the presentation layer can ask of a node. Each command is split
//! where the network comes in: the part before it says whom to reach and
//! what to send, the part after it records that the message went out.

use vstd::prelude::*;
use crate::discovery::broadcaster::{Broadcaster, BroadcasterView};
use crate::discovery::listener::Listener;
use crate::error::{FluxyError, FluxyResult};
use crate::ident::fresh_id;
use crate::transfer::file_sender::{
    file_request,
    pending_file_task,
    AcceptancePolicy,
    FileSendView,
    FileSender,
    StartedSend,
};
use crate::transfer::text_sender::{pending_text_task, text_request, TextSender};
use crate::network::protocol::{Message, MessageTypeView, MessageView};
use crate::network::tcp_client::{message_of, TcpClient};
use crate::state::app_state::{
    fails_with,
    transfer_not_found,
    AppState,
    AppStateView,
    Notification,
    NotificationView,
};
use crate::state::peer::{PairStatus, PeerInfo};
use crate::state::table::{lemma_put, lookup};
use crate::state::transfer::{TransferStatus, TransferStatusView};
use crate::network::tcp_server::{after_message, answered_status};

verus! {

/// A message on its way: the peer to connect to and what to write.
pub struct Outgoing {
    pub peer: PeerInfo,
    pub message: Message,
}

/// The text of the error for a peer that the registry does not hold.
pub open spec fn peer_not_found() -> Seq<char> {
    "Peer not found"@
}

/// The text of the error for a transfer that a command does not find.
pub open spec fn no_such_transfer() -> Seq<char> {
    "Transfer not found"@
}

/// What is known of the peer `target_id`. Fails for an unknown peer.
pub fn find_peer(state: &AppState, target_id: &str) -> (result: FluxyResult<PeerInfo>)
    ensures
        match lookup(state@.peers, target_id@) {
            Some(peer) => result matches Ok(found) && found@ == peer,
            None => fails_with(result, peer_not_found()),
        },
{
    match state.get_peer(target_id) {
        Some(peer) => Ok(peer),
        None => Err(FluxyError::Other("Peer not found".to_owned())),
    }
}

/// The node's own id.
pub fn get_self_id(state: &AppState) -> (id: String)
    ensures
        id@ == state@.self_id,
{
    state.get_self_id().to_owned()
}

/// Starts the broadcaster afresh: a new signal to stop is installed, then
/// the loop is entered. Returns whether the caller has to run the loop.
pub fn start_broadcasting(broadcaster: &mut Broadcaster) -> (started: bool)
    ensures
        final(broadcaster)@ == (BroadcasterView {
            control: old(broadcaster)@.control.after_reset().after_start(),
            ..old(broadcaster)@
        }),
        started == old(broadcaster)@.control.must_start(),
{
    broadcaster.reset_shutdown();
    broadcaster.start_broadcasting()
}

/// Starts the listener afresh: a new signal to stop is installed, then
/// the loop is entered. Returns whether the caller has to run the loop.
pub fn start_listening(listener: &mut Listener) -> (started: bool)
    ensures
        final(listener)@ == old(listener)@.after_reset().after_start(),
        started == old(listener)@.must_start(),
{
    listener.reset_shutdown();
    listener.start_listening()
}

/// Tells the broadcast loop to leave.
pub fn stop_broadcasting(broadcaster: &mut Broadcaster)
    ensures
        final(broadcaster)@ == (BroadcasterView {
            control: old(broadcaster)@.control.after_stop(),
            ..old(broadcaster)@
        }),
{
    broadcaster.stop_broadcasting();
}

/// Tells the receive loop to leave.
pub fn stop_listening(listener: &mut Listener)
    ensures
        final(listener)@ == old(listener)@.after_stop(),
{
    listener.stop_listening();
}

/// Whom to ask for pairing, and with which message. Fails for an unknown
/// peer, and where the system refuses to tell the host name.
pub fn send_pair_request(state: &AppState, target_id: &str) -> (result: FluxyResult<Outgoing>)
    ensures
        match lookup(state@.peers, target_id@) {
            Some(peer) => match result {
                Ok(out) => out.peer@ == peer && out.message@.source_id == state@.self_id
                    && out.message@.target_id == target_id@ && out.message@.message_type
                    is PairRequest,
                Err(e) => e is Io,
            },
            None => fails_with(result, peer_not_found()),
        },
{
    match find_peer(state, target_id) {
        Ok(peer) => match TcpClient::new().send_pair_request(state, target_id) {
            Ok(message) => Ok(Outgoing { peer, message }),
            Err(e) => Err(e),
        },
        Err(e) => Err(e),
    }
}

/// Records that the request to pair went out to `target_id`.
pub fn pair_request_sent(state: &mut AppState, target_id: String) -> (notification: Notification)
    ensures
        final(state)@ == old(state)@.update_pair_status(target_id@, PairStatus::Requested),
        notification@ == NotificationView::PairUpdate(target_id@, PairStatus::Requested),
{
    state.update_pair_status(target_id, PairStatus::Requested)
}

/// Whom to answer, and with which message. Fails for an unknown peer, and
/// where the system refuses to tell the host name.
pub fn respond_pair_request(state: &AppState, target_id: &str, accepted: bool) -> (result:
    FluxyResult<Outgoing>)
    ensures
        match lookup(state@.peers, target_id@) {
            Some(peer) => match result {
                Ok(out) => out.peer@ == peer && out.message@.source_id == state@.self_id
                    && out.message@.target_id == target_id@ && out.message@.message_type
                    is PairResponse && out.message@.message_type->PairResponse_accepted
                    == accepted,
                Err(e) => e is Io,
            },
            None => fails_with(result, peer_not_found()),
        },
{
    match find_peer(state, target_id) {
        Ok(peer) => match TcpClient::new().send_pair_response(state, target_id, accepted) {
            Ok(message) => Ok(Outgoing { peer, message }),
            Err(e) => Err(e),
        },
        Err(e) => Err(e),
    }
}

/// Records that the answer went out to `target_id`: the pairing with it
/// is made where the answer accepted, and refused where it did not.
pub fn pair_response_sent(state: &mut AppState, target_id: String, accepted: bool) -> (
    notification: Notification)
    ensures
        final(state)@ == old(state)@.update_pair_status(target_id@, answered_status(accepted)),
        notification@ == NotificationView::PairUpdate(target_id@, answered_status(accepted)),
{
    let status = if accepted {
        PairStatus::Paired
    } else {
        PairStatus::Rejected
    };
    state.update_pair_status(target_id, status)
}

/// Accepts the pairing with `target_id`: the node stops announcing
/// itself, counts as paired, and the pairing is made.
pub fn accept_pair_request(state: &mut AppState, broadcaster: &mut Broadcaster, target_id: String)
    -> (notification: Notification)
    ensures
        final(broadcaster)@ == (BroadcasterView {
            control: old(broadcaster)@.control.after_stop(),
            ..old(broadcaster)@
        }),
        final(state)@ == old(state)@.update_pair_status(target_id@, PairStatus::Paired),
        final(state)@.is_paired,
        notification@ == NotificationView::PairUpdate(target_id@, PairStatus::Paired),
{
    broadcaster.stop_broadcasting();
    state.set_paired(true);
    state.update_pair_status(target_id, PairStatus::Paired)
}

/// Forgets every peer.
pub fn clear_peers(state: &mut AppState)
    ensures
        final(state)@ == old(state)@.clear_peers(),
{
    state.clear_peers();
}

/// A text on its way: its transfer id, the message for the peer, and the
/// news of the local task.
pub struct OutgoingText {
    pub transfer_id: String,
    pub outgoing: Outgoing,
    pub notification: Notification,
}

/// A file on its way: its transfer id, the peer to connect to, and the
/// started session with its request and the news of the local task.
pub struct OutgoingFile {
    pub transfer_id: String,
    pub peer: PeerInfo,
    pub started: StartedSend,
}

/// Opens the transfer of the text `content` to `target_id`, under a fresh
/// random id: the local task is recorded as pending. Fails for an unknown
/// peer, and then nothing changes.
pub fn send_text(state: &mut AppState, target_id: &str, content: &str) -> (result: FluxyResult<
    OutgoingText,
>)
    ensures
        match lookup(old(state)@.peers, target_id@) {
            Some(peer) => result matches Ok(out) && out.outgoing.peer@ == peer
                && out.outgoing.message@ == text_request(
                old(state)@.self_id,
                target_id@,
                out.transfer_id@,
                content@,
            ) && final(state)@ == old(state)@.insert_transfer(
                out.transfer_id@,
                pending_text_task(out.transfer_id@, target_id@, content@),
            ) && out.notification@ == NotificationView::TransferUpdate(
                pending_text_task(out.transfer_id@, target_id@, content@),
            ),
            None => fails_with(result, peer_not_found()) && final(state)@ == old(state)@,
        },
{
    match find_peer(state, target_id) {
        Ok(peer) => {
            let transfer_id = fresh_id();
            let out = TextSender::new().send_text(state, target_id, transfer_id.as_str(), content);
            Ok(
                OutgoingText {
                    transfer_id,
                    outgoing: Outgoing { peer, message: out.0 },
                    notification: out.1,
                },
            )
        },
        Err(e) => Err(e),
    }
}

/// Opens the transfer to `target_id` of the file at `path`, known to the
/// peer as `file_name` and `file_size` bytes long, under a fresh random
/// id: the local task is recorded as pending, and the session streams at
/// once. Fails for an unknown peer, and then nothing changes.
pub fn send_file(
    state: &mut AppState,
    target_id: &str,
    path: &str,
    file_name: &str,
    file_size: u64,
) -> (result: FluxyResult<OutgoingFile>)
    ensures
        match lookup(old(state)@.peers, target_id@) {
            Some(peer) => result matches Ok(out) && out.peer@ == peer && out.started.session@
                == FileSendView::begin(
                AcceptancePolicy::ImmediatePush,
                target_id@,
                out.transfer_id@,
                file_size,
            ) && out.started.request@ == file_request(
                old(state)@.self_id,
                target_id@,
                out.transfer_id@,
                file_name@,
                file_size,
            ) && final(state)@ == old(state)@.insert_transfer(
                out.transfer_id@,
                pending_file_task(out.transfer_id@, target_id@, path@, file_name@, file_size),
            ) && out.started.notification@ == NotificationView::TransferUpdate(
                pending_file_task(out.transfer_id@, target_id@, path@, file_name@, file_size),
            ),
            None => fails_with(result, peer_not_found()) && final(state)@ == old(state)@,
        },
{
    match find_peer(state, target_id) {
        Ok(peer) => {
            let transfer_id = fresh_id();
            let started = FileSender::new().send_file(
                state,
                target_id,
                transfer_id.as_str(),
                path,
                file_name,
                file_size,
            );
            Ok(OutgoingFile { transfer_id, peer, started })
        },
        Err(e) => Err(e),
    }
}

/// Whom to tell that the transfer `transfer_id` is cancelled, and with
/// which message. Fails for a transfer that the table does not hold, and
/// for one whose peer is unknown.
pub fn cancel_transfer(state: &AppState, transfer_id: &str) -> (result: FluxyResult<Outgoing>)
    ensures
        match lookup(state@.transfers, transfer_id@) {
            Some(task) => match lookup(state@.peers, task.peer_id) {
                Some(peer) => result matches Ok(out) && out.peer@ == peer && out.message@
                    == message_of(
                    out.message@.id,
                    state@.self_id,
                    task.peer_id,
                    MessageTypeView::TransferCancel { transfer_id: transfer_id@ },
                ),
                None => fails_with(result, peer_not_found()),
            },
            None => fails_with(result, no_such_transfer()),
        },
{
    match state.get_transfer(transfer_id) {
        Some(task) => match find_peer(state, task.peer_id.as_str()) {
            Ok(peer) => {
                let message = TcpClient::new().send_transfer_cancel(
                    state,
                    task.peer_id.as_str(),
                    transfer_id,
                );
                Ok(Outgoing { peer, message })
            },
            Err(e) => Err(e),
        },
        None => Err(FluxyError::Other("Transfer not found".to_owned())),
    }
}

/// Records that the peer was told of the cancellation: the transfer is
/// cancelled, unless it had reached a final status before. Fails for a
/// transfer that the table does not hold.
pub fn transfer_cancelled(state: &mut AppState, transfer_id: &str) -> (result: FluxyResult<
    Notification,
>)
    ensures
        final(state)@ == old(state)@.update_transfer_status(
            transfer_id@,
            TransferStatusView::Cancelled,
        ),
        match lookup(old(state)@.transfers, transfer_id@) {
            Some(task) => result matches Ok(notification) && notification@
                == NotificationView::TransferUpdate(
                task.with_status(TransferStatusView::Cancelled),
            ),
            None => fails_with(result, transfer_not_found(transfer_id@)),
        },
{
    state.update_transfer_status(transfer_id, TransferStatus::Cancelled)
}

/// The pairing handshake between a node `a` that asks and a node `b` that
/// answers. Once `a` has sent its request, `a` holds `Requested` for `b`;
/// once `b` has handled it, `b` holds `RequestReceived` for `a`. After the
/// answer both hold the same outcome for each other: `Paired`, and both
/// nodes count as paired, or `Rejected`. The node that answers records
/// its own answer.
pub proof fn lemma_pairing_handshake(
    a: AppStateView,
    b: AppStateView,
    request: MessageView,
    response: MessageView,
    accepted: bool,
    fresh: Seq<char>,
)
    requires
        a.wf(),
        b.wf(),
        request.source_id == a.self_id,
        request.message_type is PairRequest,
        response.source_id == b.self_id,
        response.message_type is PairResponse,
        response.message_type->PairResponse_accepted == accepted,
    ensures
        ({
            let a_asked = a.update_pair_status(b.self_id, PairStatus::Requested);
            let b_asked = after_message(b, request, fresh);
            let b_answered = b_asked.update_pair_status(a.self_id, answered_status(accepted));
            let a_answered = after_message(a_asked, response, fresh);
            &&& lookup(a_asked.pair_states, b.self_id) == Some(PairStatus::Requested)
            &&& lookup(b_asked.pair_states, a.self_id) == Some(PairStatus::RequestReceived)
            &&& lookup(a_answered.pair_states, b.self_id) == Some(answered_status(accepted))
            &&& lookup(b_answered.pair_states, a.self_id) == Some(answered_status(accepted))
            &&& accepted ==> a_answered.is_paired && b_answered.is_paired
            &&& !accepted ==> a_answered.is_paired == a.is_paired && b_answered.is_paired
                == b.is_paired
        }),
{
    let a_asked = a.update_pair_status(b.self_id, PairStatus::Requested);
    let b_asked = after_message(b, request, fresh);
    lemma_put(a.pair_states, b.self_id, PairStatus::Requested);
    lemma_put(b.pair_states, a.self_id, PairStatus::RequestReceived);
    lemma_put(a_asked.pair_states, b.self_id, answered_status(accepted));
    lemma_put(b_asked.pair_states, a.self_id, answered_status(accepted));
}

} // verus!
