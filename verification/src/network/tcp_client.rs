//! The client side of a connection: the messages that a node sends to a
//! peer. Connecting and writing are the caller's; every message built
//! here goes out as one frame.

use vstd::prelude::*;
use crate::error::FluxyResult;
use crate::ident::fresh_id;
use crate::network::protocol::{Message, MessageType, MessageTypeView, MessageView};
use crate::os::local_hostname;
use crate::state::app_state::{AppState};
use crate::transfer::file_sender::{
    file_request,
    pending_file_task,
    AcceptancePolicy,
    FileSendView,
    FileSender,
    StartedSend,
};
use crate::state::app_state::NotificationView;

verus! {

/// A message from `source_id` to `target_id` under the id `id`.
pub open spec fn message_of(
    id: Seq<char>,
    source_id: Seq<char>,
    target_id: Seq<char>,
    message_type: MessageTypeView,
) -> MessageView {
    MessageView { id, source_id, target_id, message_type }
}

/// Builds the messages that a node sends.
pub struct TcpClient {}

impl TcpClient {
    /// A client.
    pub fn new() -> (client: Self)
        ensures
            client == (TcpClient {  }),
    {
        TcpClient {  }
    }

    /// The message `message_type` from this node to `target_id`, under the
    /// id `id`.
    pub fn message(&self, state: &AppState, id: String, target_id: &str, message_type: MessageType)
        -> (message: Message)
        ensures
            message@ == message_of(id@, state@.self_id, target_id@, message_type@),
    {
        Message {
            id,
            source_id: state.get_self_id().to_owned(),
            target_id: target_id.to_owned(),
            message_type,
        }
    }

    /// The request to pair with `target_id`, under a fresh id. It names
    /// this machine's host, so that the peer's user knows who asks. Fails
    /// where the system refuses to tell the host name.
    pub fn send_pair_request(&self, state: &AppState, target_id: &str) -> (result: FluxyResult<
        Message,
    >)
        ensures
            match result {
                Ok(message) => message@.source_id == state@.self_id && message@.target_id
                    == target_id@ && message@.message_type is PairRequest,
                Err(e) => e is Io,
            },
    {
        match local_hostname() {
            Ok(hostname) => Ok(
                self.message(state, fresh_id(), target_id, MessageType::PairRequest { hostname }),
            ),
            Err(e) => Err(e),
        }
    }

    /// The answer to the pairing request of `target_id`, under a fresh id.
    /// Fails where the system refuses to tell the host name.
    pub fn send_pair_response(&self, state: &AppState, target_id: &str, accepted: bool) -> (result:
        FluxyResult<Message>)
        ensures
            match result {
                Ok(message) => message@.source_id == state@.self_id && message@.target_id
                    == target_id@ && message@.message_type is PairResponse
                    && message@.message_type->PairResponse_accepted == accepted,
                Err(e) => e is Io,
            },
    {
        match local_hostname() {
            Ok(hostname) => Ok(
                self.message(
                    state,
                    fresh_id(),
                    target_id,
                    MessageType::PairResponse { accepted, hostname },
                ),
            ),
            Err(e) => Err(e),
        }
    }

    /// Opens the transfer `transfer_id` of the file at `path`, which is
    /// `total_size` bytes long, and streams at once: the peer is told the
    /// path as the file's name. The session that comes back takes the
    /// chunks.
    pub fn send_file(
        &self,
        state: &mut AppState,
        target_id: &str,
        transfer_id: &str,
        path: &str,
        total_size: u64,
    ) -> (started: StartedSend)
        ensures
            started.session@ == FileSendView::begin(
                AcceptancePolicy::ImmediatePush,
                target_id@,
                transfer_id@,
                total_size,
            ),
            started.request@ == file_request(
                old(state)@.self_id,
                target_id@,
                transfer_id@,
                path@,
                total_size,
            ),
            final(state)@ == old(state)@.insert_transfer(
                transfer_id@,
                pending_file_task(transfer_id@, target_id@, path@, path@, total_size),
            ),
            started.notification@ == NotificationView::TransferUpdate(
                pending_file_task(transfer_id@, target_id@, path@, path@, total_size),
            ),
    {
        let sender = FileSender::with_policy(AcceptancePolicy::ImmediatePush);
        sender.send_file(state, target_id, transfer_id, path, path, total_size)
    }

    /// The message that carries the text `content` of the transfer
    /// `transfer_id`, under a fresh id.
    pub fn send_text(&self, state: &AppState, target_id: &str, transfer_id: &str, content: &str)
        -> (message: Message)
        ensures
            message@ == message_of(
                message@.id,
                state@.self_id,
                target_id@,
                MessageTypeView::TextMessage { transfer_id: transfer_id@, content: content@ },
            ),
    {
        self.message(
            state,
            fresh_id(),
            target_id,
            MessageType::TextMessage {
                transfer_id: transfer_id.to_owned(),
                content: content.to_owned(),
            },
        )
    }

    /// The message that cancels the transfer `transfer_id`, under a fresh
    /// id.
    pub fn send_transfer_cancel(&self, state: &AppState, target_id: &str, transfer_id: &str) -> (
        message: Message)
        ensures
            message@ == message_of(
                message@.id,
                state@.self_id,
                target_id@,
                MessageTypeView::TransferCancel { transfer_id: transfer_id@ },
            ),
    {
        self.message(
            state,
            fresh_id(),
            target_id,
            MessageType::TransferCancel { transfer_id: transfer_id.to_owned() },
        )
    }
}

} // verus!
