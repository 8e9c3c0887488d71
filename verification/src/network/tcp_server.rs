//! The server side: what a node does with each message that a peer sends,
//! and the decisions of its accept loop, its connection handlers and its
//! shutdown.

use vstd::prelude::*;
use crate::error::{FluxyError, FluxyResult};
use crate::ident::fresh_id;
use crate::network::protocol::{Message, MessageType, MessageTypeView, MessageView};
use crate::state::app_state::{
    notification_views,
    AppState,
    AppStateView,
    Notification,
    NotificationView,
};
use crate::state::peer::PairStatus;
use crate::state::table::lookup;
use crate::transfer::file_sender::progress_after;
use crate::state::transfer::{
    TransferStatus,
    TransferStatusView,
    TransferTask,
    TransferTaskView,
    TransferType,
    TransferTypeView,
};

verus! {

/// The seconds that a shutdown waits for one handler to finish.
pub const DRAIN_TIMEOUT_SECS: u64 = 5;

/// The bytes that one chunk stands for when progress is counted.
pub const CHUNK_BYTES: u64 = 65536;

/// The pairing state that an answer leads to.
pub open spec fn answered_status(accepted: bool) -> PairStatus {
    if accepted {
        PairStatus::Paired
    } else {
        PairStatus::Rejected
    }
}

/// The task that a node records for a file that `source_id` asks to send.
pub open spec fn received_file_task(
    task_id: Seq<char>,
    source_id: Seq<char>,
    file_name: Seq<char>,
    file_size: u64,
) -> TransferTaskView {
    TransferTaskView {
        id: task_id,
        peer_id: source_id,
        transfer_type: TransferTypeView::File {
            path: file_name,
            name: file_name,
            size: file_size,
            progress: 0,
        },
        status: TransferStatusView::Pending,
    }
}

/// The bytes that have moved when the chunk `chunk_index` arrives: the
/// chunks before it.
pub open spec fn received_bytes(chunk_index: u32) -> u64 {
    (chunk_index * CHUNK_BYTES) as u64
}

/// The state after the node has handled `message`, where `fresh` is the id
/// that a new transfer gets.
pub open spec fn after_message(state: AppStateView, message: MessageView, fresh: Seq<char>)
    -> AppStateView {
    match message.message_type {
        MessageTypeView::PairRequest { .. } => state.update_pair_status(
            message.source_id,
            PairStatus::RequestReceived,
        ),
        MessageTypeView::PairResponse { accepted, .. } => state.update_pair_status(
            message.source_id,
            answered_status(accepted),
        ),
        MessageTypeView::TransferRequest { file_name, file_size, .. } => state.insert_transfer(
            fresh,
            received_file_task(fresh, message.source_id, file_name, file_size),
        ),
        MessageTypeView::FileData { transfer_id, chunk_index, .. } => {
            state.update_file_transfer_progress(transfer_id, received_bytes(chunk_index))
        },
        _ => state,
    }
}

/// What the node publishes after it has handled `message`.
pub open spec fn message_notifications(
    state: AppStateView,
    message: MessageView,
    fresh: Seq<char>,
) -> Seq<NotificationView> {
    match message.message_type {
        MessageTypeView::PairRequest { .. } => seq![
            NotificationView::PairUpdate(message.source_id, PairStatus::RequestReceived),
            NotificationView::PairRequestReceived(message.source_id),
        ],
        MessageTypeView::PairResponse { accepted, .. } => seq![
            NotificationView::PairUpdate(message.source_id, answered_status(accepted)),
        ],
        MessageTypeView::TransferRequest { file_name, file_size, .. } => seq![
            NotificationView::TransferUpdate(
                received_file_task(fresh, message.source_id, file_name, file_size),
            ),
        ],
        MessageTypeView::FileData { transfer_id, chunk_index, .. } => match lookup(
            state.transfers,
            transfer_id,
        ) {
            Some(task) => seq![
                NotificationView::TransferUpdate(task.with_progress(received_bytes(chunk_index))),
            ],
            None => Seq::empty(),
        },
        _ => Seq::empty(),
    }
}

/// When the chunk `chunk_index` of a running file transfer arrives, the
/// task's progress is `chunk_index` chunks, capped at the size of the
/// file, and the task counts as transferring.
pub proof fn lemma_received_progress(task: TransferTaskView, chunk_index: u32)
    requires
        task.transfer_type is File,
        !task.status.is_terminal(),
    ensures
        task.with_progress(received_bytes(chunk_index)).progress() == progress_after(
            chunk_index as nat,
            CHUNK_BYTES as nat,
            task.transfer_type->File_size,
        ),
        task.with_progress(received_bytes(chunk_index)).status is Transferring,
{
    assert(chunk_index * CHUNK_BYTES <= u64::MAX) by (nonlinear_arith)
        requires
            chunk_index <= u32::MAX,
            CHUNK_BYTES == 65536,
    ;
}

/// What the accept loop saw.
#[derive(Debug, Clone, Copy, PartialEq, Eq, Structural)]
pub enum AcceptEvent {
    /// A peer connected.
    Connection,
    /// Accepting failed.
    Failure,
    /// The server was told to stop.
    Cancelled,
}

/// What the accept loop does next.
#[derive(Debug, Clone, Copy, PartialEq, Eq, Structural)]
pub enum AcceptStep {
    /// Start a handler for the connection, then accept again.
    Spawn,
    /// Log, then accept again.
    Continue,
    /// Leave the loop.
    Stop,
}

/// What a connection handler saw.
#[derive(Debug, PartialEq, Eq)]
pub enum ConnectionEvent {
    /// A whole message arrived.
    Received(Message),
    /// The peer closed the connection in good order.
    Closed,
    /// Reading failed, or the bytes were no message.
    ReadFailed,
    /// The server was told to stop.
    Cancelled,
}

/// What a connection handler does next.
#[derive(Debug, Clone, Copy, PartialEq, Eq, Structural)]
pub enum ConnectionStep {
    /// Read the next message.
    Continue,
    /// Leave the loop.
    Close,
    /// Shut the writing side down in good order, then leave the loop.
    ShutdownThenClose,
}

/// What the shutdown saw while it waited for a handler.
#[derive(Debug, Clone, Copy, PartialEq, Eq, Structural)]
pub enum JoinEvent {
    /// A handler finished.
    Finished,
    /// A handler broke off.
    Failed,
    /// No handler is left.
    Empty,
    /// The wait ran out.
    TimedOut,
}

/// The model of a `TcpServer`.
pub struct TcpServerView {
    pub port: u16,
    pub cancelled: bool,
    pub completed_tasks: nat,
}

impl TcpServerView {
    /// Whether the shutdown goes on waiting after `event`.
    pub open spec fn keeps_waiting(event: JoinEvent) -> bool {
        event == JoinEvent::Finished || event == JoinEvent::Failed
    }

    /// The server after the shutdown saw `event`: a handler that finished
    /// is counted, as far as the counter reaches.
    pub open spec fn after_join(self, event: JoinEvent) -> TcpServerView {
        if event == JoinEvent::Finished && self.completed_tasks < usize::MAX {
            TcpServerView { completed_tasks: self.completed_tasks + 1, ..self }
        } else {
            self
        }
    }
}

/// The step of the accept loop after `event`.
pub open spec fn accept_step(event: AcceptEvent) -> AcceptStep {
    match event {
        AcceptEvent::Connection => AcceptStep::Spawn,
        AcceptEvent::Failure => AcceptStep::Continue,
        AcceptEvent::Cancelled => AcceptStep::Stop,
    }
}

/// The step of a connection handler after an event of the given kind.
pub open spec fn connection_step(event: ConnectionEvent) -> ConnectionStep {
    match event {
        ConnectionEvent::Received(_) => ConnectionStep::Continue,
        ConnectionEvent::Closed => ConnectionStep::Close,
        ConnectionEvent::ReadFailed => ConnectionStep::Close,
        ConnectionEvent::Cancelled => ConnectionStep::ShutdownThenClose,
    }
}

/// The server of one node.
pub struct TcpServer {
    port: u16,
    cancelled: bool,
    completed_tasks: usize,
}

impl View for TcpServer {
    type V = TcpServerView;

    closed spec fn view(&self) -> TcpServerView {
        TcpServerView {
            port: self.port,
            cancelled: self.cancelled,
            completed_tasks: self.completed_tasks as nat,
        }
    }
}

impl TcpServer {
    /// A server bound to `local_port`. The port is recorded in the shared
    /// state, from where it is announced.
    pub fn new(state: &mut AppState, local_port: u16) -> (server: Self)
        ensures
            server@ == (TcpServerView { port: local_port, cancelled: false, completed_tasks: 0 }),
            final(state)@ == (AppStateView { server_port: local_port, ..old(state)@ }),
    {
        state.set_server_port(local_port);
        TcpServer { port: local_port, cancelled: false, completed_tasks: 0 }
    }

    /// The port that the server is bound to.
    pub fn port(&self) -> (port: u16)
        ensures
            port == self@.port,
    {
        self.port
    }

    /// Whether the server was told to stop.
    pub fn is_cancelled(&self) -> (cancelled: bool)
        ensures
            cancelled == self@.cancelled,
    {
        self.cancelled
    }

    /// The handlers that the shutdown has seen finish.
    pub fn completed_tasks(&self) -> (n: usize)
        ensures
            n == self@.completed_tasks,
    {
        self.completed_tasks
    }

    /// What the accept loop does after `event`: each connection gets a
    /// handler of its own, a failure is passed over, and the loop leaves
    /// when the server is told to stop.
    pub fn start(&self, event: AcceptEvent) -> (step: AcceptStep)
        ensures
            step == accept_step(event),
    {
        match event {
            AcceptEvent::Connection => AcceptStep::Spawn,
            AcceptEvent::Failure => AcceptStep::Continue,
            AcceptEvent::Cancelled => AcceptStep::Stop,
        }
    }

    /// Tells the server to stop: the accept loop and every handler see
    /// the signal. The caller then waits for the handlers, each wait
    /// bounded by `DRAIN_TIMEOUT_SECS`, and reports to `drain`.
    pub fn stop(&mut self)
        ensures
            final(self)@ == (TcpServerView { cancelled: true, ..old(self)@ }),
    {
        self.cancelled = true;
    }

    /// Takes in what a bounded wait for a handler brought. `Ok(true)`:
    /// wait for the next one. `Ok(false)`: all handlers are through. A
    /// wait that ran out ends the shutdown with `TimeoutElapsed`; the
    /// handlers still running are left behind.
    pub fn drain(&mut self, event: JoinEvent) -> (result: FluxyResult<bool>)
        ensures
            final(self)@ == old(self)@.after_join(event),
            match event {
                JoinEvent::TimedOut => result matches Err(e) && e is TimeoutElapsed,
                _ => result matches Ok(more) && more == TcpServerView::keeps_waiting(event),
            },
    {
        match event {
            JoinEvent::Finished => {
                if self.completed_tasks < usize::MAX {
                    self.completed_tasks = self.completed_tasks + 1;
                }
                Ok(true)
            },
            JoinEvent::Failed => Ok(true),
            JoinEvent::Empty => Ok(false),
            JoinEvent::TimedOut => Err(FluxyError::TimeoutElapsed),
        }
    }

    /// What a connection handler does after `event`. A message is
    /// handled, and reading goes on whatever came of it; the end of the
    /// stream and a failed read end the handler; the signal to stop ends
    /// it after an orderly shutdown of the writing side.
    pub fn handle_connection(state: &mut AppState, event: ConnectionEvent) -> (out: (
        ConnectionStep,
        Vec<Notification>,
    ))
        ensures
            out.0 == connection_step(event),
            match event {
                ConnectionEvent::Received(message) => exists|fresh: Seq<char>|
                    final(state)@ == after_message(old(state)@, message@, fresh)
                        && notification_views(out.1@) == message_notifications(
                        old(state)@,
                        message@,
                        fresh,
                    ),
                _ => final(state)@ == old(state)@ && out.1@.len() == 0,
            },
    {
        match event {
            ConnectionEvent::Received(message) => {
                let notifications = Self::handle_message(&message, state);
                (ConnectionStep::Continue, notifications)
            },
            ConnectionEvent::Closed => (ConnectionStep::Close, Vec::new()),
            ConnectionEvent::ReadFailed => (ConnectionStep::Close, Vec::new()),
            ConnectionEvent::Cancelled => (ConnectionStep::ShutdownThenClose, Vec::new()),
        }
    }

    /// Handles one message of a peer. A request for a transfer is
    /// recorded under a fresh random id.
    pub fn handle_message(message: &Message, state: &mut AppState) -> (notifications: Vec<
        Notification,
    >)
        ensures
            exists|fresh: Seq<char>|
                final(state)@ == after_message(old(state)@, message@, fresh)
                    && notification_views(notifications@) == message_notifications(
                    old(state)@,
                    message@,
                    fresh,
                ),
    {
        let fresh = match message.message_type {
            MessageType::TransferRequest { .. } => fresh_id(),
            _ => String::new(),
        };
        let ghost id = fresh@;
        let notifications = Self::handle_message_with_id(message, state, fresh);
        assert(notification_views(notifications@) == message_notifications(
            old(state)@,
            message@,
            id,
        ));
        notifications
    }

    /// Handles one message of a peer, where a new transfer is recorded
    /// under the id `fresh`.
    pub fn handle_message_with_id(message: &Message, state: &mut AppState, fresh: String) -> (
        notifications: Vec<Notification>)
        ensures
            final(state)@ == after_message(old(state)@, message@, fresh@),
            notification_views(notifications@) == message_notifications(
                old(state)@,
                message@,
                fresh@,
            ),
    {
        let mut notifications: Vec<Notification> = Vec::new();
        match &message.message_type {
            MessageType::PairRequest { .. } => {
                let out = Self::handle_pair_request(message, state);
                notifications.push(out.0);
                notifications.push(out.1);
            },
            MessageType::PairResponse { accepted, .. } => {
                notifications.push(Self::handle_pair_response(message, *accepted, state));
            },
            MessageType::TransferRequest { transfer_id, file_name, file_size } => {
                notifications.push(
                    Self::handle_transfer_request(
                        message,
                        fresh,
                        file_name.as_str(),
                        *file_size,
                        state,
                    ),
                );
            },
            MessageType::FileData { transfer_id, chunk_index, data } => {
                match Self::handle_file_data(transfer_id.as_str(), *chunk_index, state) {
                    Some(notification) => {
                        notifications.push(notification);
                    },
                    None => {},
                }
            },
            _ => {},
        }
        assert(notification_views(notifications@) =~= message_notifications(
            old(state)@,
            message@,
            fresh@,
        ));
        notifications
    }

    /// A peer asks to pair: the pairing with it now waits for the user's
    /// decision, and the user is told who asks.
    pub fn handle_pair_request(message: &Message, state: &mut AppState) -> (out: (
        Notification,
        Notification,
    ))
        ensures
            final(state)@ == old(state)@.update_pair_status(
                message@.source_id,
                PairStatus::RequestReceived,
            ),
            out.0@ == NotificationView::PairUpdate(message@.source_id, PairStatus::RequestReceived),
            out.1@ == NotificationView::PairRequestReceived(message@.source_id),
    {
        let update = state.update_pair_status(
            message.source_id.clone(),
            PairStatus::RequestReceived,
        );
        (update, Notification::PairRequestReceived(message.source_id.clone()))
    }

    /// A peer answers this node's request: the pairing with it is now
    /// made or refused.
    pub fn handle_pair_response(message: &Message, accepted: bool, state: &mut AppState) -> (
        notification: Notification)
        ensures
            final(state)@ == old(state)@.update_pair_status(
                message@.source_id,
                answered_status(accepted),
            ),
            notification@ == NotificationView::PairUpdate(
                message@.source_id,
                answered_status(accepted),
            ),
    {
        let status = if accepted {
            PairStatus::Paired
        } else {
            PairStatus::Rejected
        };
        state.update_pair_status(message.source_id.clone(), status)
    }

    /// A peer asks to send a file: a pending task is recorded under
    /// `task_id`, owned by the peer.
    pub fn handle_transfer_request(
        message: &Message,
        task_id: String,
        file_name: &str,
        file_size: u64,
        state: &mut AppState,
    ) -> (notification: Notification)
        ensures
            final(state)@ == old(state)@.insert_transfer(
                task_id@,
                received_file_task(task_id@, message@.source_id, file_name@, file_size),
            ),
            notification@ == NotificationView::TransferUpdate(
                received_file_task(task_id@, message@.source_id, file_name@, file_size),
            ),
    {
        let task = TransferTask {
            id: task_id.clone(),
            peer_id: message.source_id.clone(),
            transfer_type: TransferType::File {
                path: file_name.to_owned(),
                name: file_name.to_owned(),
                size: file_size,
                progress: 0,
            },
            status: TransferStatus::Pending,
        };
        state.insert_transfer(task_id, task)
    }

    /// A chunk of the transfer `transfer_id` arrived: the progress of a
    /// known transfer now counts the chunks before it. A chunk of an
    /// unknown transfer is dropped.
    pub fn handle_file_data(transfer_id: &str, chunk_index: u32, state: &mut AppState) -> (
        notification: Option<Notification>)
        ensures
            final(state)@ == old(state)@.update_file_transfer_progress(
                transfer_id@,
                received_bytes(chunk_index),
            ),
            match lookup(old(state)@.transfers, transfer_id@) {
                Some(task) => notification matches Some(n) && n@
                    == NotificationView::TransferUpdate(
                    task.with_progress(received_bytes(chunk_index)),
                ),
                None => notification is None,
            },
    {
        let bytes: u64 = chunk_index as u64 * CHUNK_BYTES;
        match state.update_file_transfer_progress(transfer_id, bytes) {
            Ok(notification) => Some(notification),
            Err(_) => None,
        }
    }
}

} // verus!
