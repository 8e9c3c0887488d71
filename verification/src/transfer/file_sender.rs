//! Sending a file: a request, then the file in chunks of a fixed size.
//!
//! The caller reads the file and writes to the socket. The session here
//! says which message goes out for each chunk read and keeps the local
//! transfer task in step.

use vstd::prelude::*;
use vstd::slice::{slice_subrange, slice_to_vec};
use crate::network::protocol::{Message, MessageType, MessageTypeView, MessageView};
use crate::state::app_state::{
    lemma_progress_overwrites,
    notification_view,
    AppState,
    AppStateView,
    Notification,
    NotificationView,
};
use crate::state::table::lookup;
use crate::state::transfer::{
    clamp_progress,
    TransferStatus,
    TransferStatusView,
    TransferTask,
    TransferTaskView,
    TransferType,
    TransferTypeView,
};

verus! {

/// The number of bytes that one chunk of a file carries, the last one
/// excepted.
pub const CHUNK_SIZE: usize = 65536;

/// When the sender starts to stream after its request.
#[derive(Debug, Clone, Copy, PartialEq, Eq, Structural)]
pub enum AcceptancePolicy {
    /// At once. This is the policy that the engine follows unless told
    /// otherwise: the server answers no request.
    ImmediatePush,
    /// Once the peer has accepted; a peer that answers anything else has
    /// refused, and the transfer is cancelled.
    AcceptThenPush,
}

/// How far a send session has come.
#[derive(Debug, Clone, Copy, PartialEq, Eq, Structural)]
pub enum SendPhase {
    AwaitingAccept,
    Streaming,
    Completed,
    Cancelled,
}

/// The model of a `FileSend`.
pub struct FileSendView {
    pub target_id: Seq<char>,
    pub transfer_id: Seq<char>,
    pub file_size: u64,
    pub bytes_sent: u64,
    pub chunk_index: u32,
    pub phase: SendPhase,
}

/// The bytes moved once `len` more bytes are sent after `sent`, of a file
/// of `size` bytes: never more than the file holds.
pub open spec fn advance(sent: u64, len: nat, size: u64) -> u64 {
    if sent + len <= size {
        (sent + len) as u64
    } else {
        size
    }
}

/// The bytes moved after `k` chunks of `chunk` bytes each, of a file of
/// `size` bytes. Over `size` this is the fraction done.
pub open spec fn progress_after(k: nat, chunk: nat, size: u64) -> u64 {
    if k * chunk <= size {
        (k * chunk) as u64
    } else {
        size
    }
}

impl FileSendView {
    /// A session that has sent its request and nothing else.
    pub open spec fn begin(
        policy: AcceptancePolicy,
        target_id: Seq<char>,
        transfer_id: Seq<char>,
        file_size: u64,
    ) -> FileSendView {
        FileSendView {
            target_id,
            transfer_id,
            file_size,
            bytes_sent: 0,
            chunk_index: 0,
            phase: match policy {
                AcceptancePolicy::ImmediatePush => SendPhase::Streaming,
                AcceptancePolicy::AcceptThenPush => SendPhase::AwaitingAccept,
            },
        }
    }

    /// The session after the peer's answer: it streams if the peer
    /// accepted and is cancelled otherwise. A session that waits for no
    /// answer stays as it is.
    pub open spec fn after_response(self, accepted: bool) -> FileSendView {
        if self.phase == SendPhase::AwaitingAccept {
            FileSendView {
                phase: if accepted {
                    SendPhase::Streaming
                } else {
                    SendPhase::Cancelled
                },
                ..self
            }
        } else {
            self
        }
    }

    /// The session after a chunk of `len` bytes went out.
    pub open spec fn after_chunk(self, len: nat) -> FileSendView {
        if self.phase == SendPhase::Streaming {
            FileSendView {
                bytes_sent: advance(self.bytes_sent, len, self.file_size),
                chunk_index: (self.chunk_index + 1) as u32,
                ..self
            }
        } else {
            self
        }
    }

    /// The session after the file came to its end.
    pub open spec fn after_end(self) -> FileSendView {
        if self.phase == SendPhase::Streaming {
            FileSendView { phase: SendPhase::Completed, ..self }
        } else {
            self
        }
    }

    /// The message that carries the next chunk, `data`, for the node
    /// `self_id`.
    pub open spec fn chunk_message(self, self_id: Seq<char>, data: Seq<u8>) -> MessageView {
        MessageView {
            id: self.transfer_id,
            source_id: self_id,
            target_id: self.target_id,
            message_type: MessageTypeView::FileData {
                transfer_id: self.transfer_id,
                chunk_index: self.chunk_index,
                data,
            },
        }
    }
}

/// The bytes moved after `k` chunks of `chunk` bytes each went out one by
/// one, of a file of `size` bytes.
pub open spec fn sent_after(k: nat, chunk: nat, size: u64) -> u64
    decreases k,
{
    if k == 0 {
        0
    } else {
        advance(sent_after((k - 1) as nat, chunk, size), chunk, size)
    }
}

/// Chunk by chunk the progress is `k * chunk` bytes, capped at the size
/// of the file.
pub proof fn lemma_progress_after_chunks(k: nat, chunk: nat, size: u64)
    ensures
        sent_after(k, chunk, size) == progress_after(k, chunk, size),
        progress_after(k, chunk, size) <= size,
    decreases k,
{
    if k == 0 {
        assert(k * chunk == 0) by (nonlinear_arith)
            requires
                k == 0,
        ;
    } else {
        let j = (k - 1) as nat;
        lemma_progress_after_chunks(j, chunk, size);
        assert(k * chunk == j * chunk + chunk) by (nonlinear_arith)
            requires
                k == j + 1,
        ;
        assert(j * chunk >= 0) by (nonlinear_arith);
    }
}

/// The progress never falls from one chunk to a later one.
pub proof fn lemma_progress_is_monotonic(j: nat, k: nat, chunk: nat, size: u64)
    requires
        j <= k,
    ensures
        progress_after(j, chunk, size) <= progress_after(k, chunk, size),
{
    assert(j * chunk <= k * chunk) by (nonlinear_arith)
        requires
            j <= k,
            chunk >= 0,
    ;
}

/// The session after `k` chunks of `chunk` bytes each went out.
pub open spec fn after_chunks(session: FileSendView, k: nat, chunk: nat) -> FileSendView
    decreases k,
{
    if k == 0 {
        session
    } else {
        after_chunks(session, (k - 1) as nat, chunk).after_chunk(chunk)
    }
}

/// A session that streams at once has sent, after `k` chunks of `chunk`
/// bytes, `k * chunk` bytes capped at the size of the file; it still
/// streams then, and is completed once the file has come to its end.
pub proof fn lemma_session_progress(
    target_id: Seq<char>,
    transfer_id: Seq<char>,
    file_size: u64,
    k: nat,
    chunk: nat,
)
    ensures
        ({
            let start = FileSendView::begin(
                AcceptancePolicy::ImmediatePush,
                target_id,
                transfer_id,
                file_size,
            );
            let session = after_chunks(start, k, chunk);
            &&& session.phase == SendPhase::Streaming
            &&& session.file_size == file_size
            &&& session.bytes_sent == progress_after(k, chunk, file_size)
            &&& session.after_end().phase == SendPhase::Completed
        }),
    decreases k,
{
    lemma_progress_after_chunks(k, chunk, file_size);
    if k > 0 {
        lemma_session_progress(target_id, transfer_id, file_size, (k - 1) as nat, chunk);
        lemma_progress_after_chunks((k - 1) as nat, chunk, file_size);
    }
}

/// One more chunk never lowers what a session has sent, and never takes
/// it over the size of the file.
pub proof fn lemma_chunk_advances(session: FileSendView, len: nat)
    requires
        session.bytes_sent <= session.file_size,
    ensures
        session.bytes_sent <= session.after_chunk(len).bytes_sent <= session.file_size,
{
}

/// A file that is streamed at once and comes to its end is completed:
/// so says the session, and so says the local task, whatever number of
/// chunks went out before.
pub proof fn lemma_stream_ends_completed(task: TransferTaskView, bytes: u64)
    requires
        task.transfer_type is File,
        task.status is Pending || task.status is Transferring,
    ensures
        task.with_progress(bytes).status is Transferring,
        task.with_progress(bytes).progress() == clamp_progress(
            bytes,
            task.transfer_type->File_size,
        ),
        task.with_progress(bytes).with_status(TransferStatusView::Completed).status is Completed,
        task.with_status(TransferStatusView::Completed).status is Completed,
{
}

/// The number of chunks that `len` bytes go out in.
pub open spec fn chunk_count(len: nat) -> nat {
    if len == 0 {
        0
    } else {
        ((len - 1) / (CHUNK_SIZE as int) + 1) as nat
    }
}

/// The bytes of the chunk `k` of `content`: `CHUNK_SIZE` bytes from
/// `k * CHUNK_SIZE` on, or what is left of the content.
pub open spec fn chunk_data(content: Seq<u8>, k: int) -> Seq<u8> {
    content.subrange(
        k * CHUNK_SIZE,
        if (k + 1) * CHUNK_SIZE <= content.len() {
            (k + 1) * CHUNK_SIZE
        } else {
            content.len() as int
        },
    )
}

/// Sending `a` bytes and then `b` more moves as much as sending `a + b`
/// at once.
pub proof fn lemma_advance_adds(sent: u64, a: nat, b: nat, size: u64)
    ensures
        advance(advance(sent, a, size), b, size) == advance(sent, a + b, size),
{
}

/// The request that opens the transfer `transfer_id` of a file.
pub open spec fn file_request(
    self_id: Seq<char>,
    target_id: Seq<char>,
    transfer_id: Seq<char>,
    file_name: Seq<char>,
    file_size: u64,
) -> MessageView {
    MessageView {
        id: transfer_id,
        source_id: self_id,
        target_id,
        message_type: MessageTypeView::TransferRequest { transfer_id, file_name, file_size },
    }
}

/// The local task of a file transfer that has just been requested.
pub open spec fn pending_file_task(
    transfer_id: Seq<char>,
    peer_id: Seq<char>,
    path: Seq<char>,
    name: Seq<char>,
    size: u64,
) -> TransferTaskView {
    TransferTaskView {
        id: transfer_id,
        peer_id,
        transfer_type: TransferTypeView::File { path, name, size, progress: 0 },
        status: TransferStatusView::Pending,
    }
}

/// What is published after a request to set the status of `transfer_id`
/// in `state`: the task as it then stands, or nothing for a transfer that
/// the table does not hold.
pub open spec fn status_news(
    state: AppStateView,
    transfer_id: Seq<char>,
    status: TransferStatusView,
) -> Option<NotificationView> {
    match lookup(state.transfers, transfer_id) {
        Some(task) => Some(NotificationView::TransferUpdate(task.with_status(status))),
        None => None,
    }
}

/// What is published after `bytes` are reported as moved for
/// `transfer_id` in `state`: the task as it then stands, or nothing for a
/// transfer that the table does not hold.
pub open spec fn progress_news(state: AppStateView, transfer_id: Seq<char>, bytes: u64) -> Option<
    NotificationView,
> {
    match lookup(state.transfers, transfer_id) {
        Some(task) => Some(NotificationView::TransferUpdate(task.with_progress(bytes))),
        None => None,
    }
}

/// Whether a message accepts a transfer.
pub open spec fn is_accept(response: Option<MessageView>) -> bool {
    response matches Some(message) && message.message_type is TransferAccept
}

/// The view of an optional message.
pub open spec fn message_view(message: Option<Message>) -> Option<MessageView> {
    match message {
        Some(m) => Some(m@),
        None => None,
    }
}

/// One file on its way to a peer.
pub struct FileSend {
    target_id: String,
    transfer_id: String,
    file_size: u64,
    bytes_sent: u64,
    chunk_index: u32,
    phase: SendPhase,
}

impl View for FileSend {
    type V = FileSendView;

    closed spec fn view(&self) -> FileSendView {
        FileSendView {
            target_id: self.target_id@,
            transfer_id: self.transfer_id@,
            file_size: self.file_size,
            bytes_sent: self.bytes_sent,
            chunk_index: self.chunk_index,
            phase: self.phase,
        }
    }
}

/// What a started send session hands to the caller.
pub struct StartedSend {
    /// The session to feed the file's chunks to.
    pub session: FileSend,
    /// The request to write to the peer first.
    pub request: Message,
    /// The news of the local task, to publish.
    pub notification: Notification,
}

/// Starts file transfers under one acceptance policy.
pub struct FileSender {
    policy: AcceptancePolicy,
}

impl FileSender {
    /// A sender that streams at once.
    pub fn new() -> (sender: Self)
        ensures
            sender.policy() == AcceptancePolicy::ImmediatePush,
    {
        FileSender { policy: AcceptancePolicy::ImmediatePush }
    }

    /// A sender under the given policy.
    pub fn with_policy(policy: AcceptancePolicy) -> (sender: Self)
        ensures
            sender.policy() == policy,
    {
        FileSender { policy }
    }

    /// The sender's policy.
    pub closed spec fn policy(&self) -> AcceptancePolicy {
        self.policy
    }

    /// The sender's policy.
    pub fn acceptance_policy(&self) -> (policy: AcceptancePolicy)
        ensures
            policy == self.policy(),
    {
        self.policy
    }

    /// Opens the transfer `transfer_id` of the file at `path`, known to
    /// the peer as `file_name` and `file_size` bytes long: records the
    /// local task as pending and hands out the request for the peer.
    pub fn send_file(
        &self,
        state: &mut AppState,
        target_id: &str,
        transfer_id: &str,
        path: &str,
        file_name: &str,
        file_size: u64,
    ) -> (started: StartedSend)
        ensures
            started.session@ == FileSendView::begin(
                self.policy(),
                target_id@,
                transfer_id@,
                file_size,
            ),
            started.request@ == file_request(
                old(state)@.self_id,
                target_id@,
                transfer_id@,
                file_name@,
                file_size,
            ),
            final(state)@ == old(state)@.insert_transfer(
                transfer_id@,
                pending_file_task(transfer_id@, target_id@, path@, file_name@, file_size),
            ),
            started.notification@ == NotificationView::TransferUpdate(
                pending_file_task(transfer_id@, target_id@, path@, file_name@, file_size),
            ),
    {
        let request = Message {
            id: transfer_id.to_owned(),
            source_id: state.get_self_id().to_owned(),
            target_id: target_id.to_owned(),
            message_type: MessageType::TransferRequest {
                transfer_id: transfer_id.to_owned(),
                file_name: file_name.to_owned(),
                file_size,
            },
        };
        let task = TransferTask {
            id: transfer_id.to_owned(),
            peer_id: target_id.to_owned(),
            transfer_type: TransferType::File {
                path: path.to_owned(),
                name: file_name.to_owned(),
                size: file_size,
                progress: 0,
            },
            status: TransferStatus::Pending,
        };
        let notification = state.insert_transfer(transfer_id.to_owned(), task);
        let session = FileSend {
            target_id: target_id.to_owned(),
            transfer_id: transfer_id.to_owned(),
            file_size,
            bytes_sent: 0,
            chunk_index: 0,
            phase: match self.policy {
                AcceptancePolicy::ImmediatePush => SendPhase::Streaming,
                AcceptancePolicy::AcceptThenPush => SendPhase::AwaitingAccept,
            },
        };
        StartedSend { session, request, notification }
    }
}

impl FileSend {
    /// What holds of every session: it has sent no more than the file
    /// holds.
    #[verifier::type_invariant]
    pub open spec fn within_size(&self) -> bool {
        self@.bytes_sent <= self@.file_size
    }

    /// How far the session has come.
    pub fn phase(&self) -> (phase: SendPhase)
        ensures
            phase == self@.phase,
    {
        self.phase
    }

    /// The bytes sent so far, out of the file's size.
    pub fn bytes_sent(&self) -> (sent: u64)
        ensures
            sent == self@.bytes_sent,
            sent <= self@.file_size,
    {
        proof {
            use_type_invariant(self);
        }
        self.bytes_sent
    }

    /// The index that the next chunk will carry.
    pub fn chunk_index(&self) -> (index: u32)
        ensures
            index == self@.chunk_index,
    {
        self.chunk_index
    }

    /// Takes in the peer's answer to the request, or the end of the
    /// stream in its place. A session that waits for an answer streams
    /// from now on if the peer accepted; else it is cancelled, and so is
    /// the local task.
    pub fn on_response(&mut self, state: &mut AppState, response: Option<&Message>) -> (
        notification: Option<Notification>)
        ensures
            final(self)@ == old(self)@.after_response(
                response matches Some(m) && m@.message_type is TransferAccept,
            ),
            final(self)@.phase == SendPhase::Cancelled && old(self)@.phase
                == SendPhase::AwaitingAccept ==> final(state)@
                == old(state)@.update_transfer_status(
                old(self)@.transfer_id,
                TransferStatusView::Cancelled,
            ) && notification_view(notification) == status_news(
                old(state)@,
                old(self)@.transfer_id,
                TransferStatusView::Cancelled,
            ),
            !(final(self)@.phase == SendPhase::Cancelled && old(self)@.phase
                == SendPhase::AwaitingAccept) ==> final(state)@ == old(state)@
                && notification is None,
    {
        proof {
            use_type_invariant(&*self);
        }
        match self.phase {
            SendPhase::AwaitingAccept => {
                let accepted = match response {
                    Some(message) => match message.message_type {
                        MessageType::TransferAccept { .. } => true,
                        _ => false,
                    },
                    None => false,
                };
                if accepted {
                    self.phase = SendPhase::Streaming;
                    None
                } else {
                    self.phase = SendPhase::Cancelled;
                    match state.update_transfer_status(
                        self.transfer_id.as_str(),
                        TransferStatus::Cancelled,
                    ) {
                        Ok(notification) => Some(notification),
                        Err(_) => None,
                    }
                }
            },
            _ => None,
        }
    }

    /// Takes the next chunk read from the file and hands out the message
    /// that carries it, with the news of the local task, whose progress
    /// now counts the chunk. Nothing goes out, and nothing changes,
    /// unless the session is streaming.
    pub fn next_chunk(&mut self, state: &mut AppState, data: Vec<u8>) -> (out: (
        Option<Message>,
        Option<Notification>,
    ))
        requires
            old(self)@.chunk_index < u32::MAX,
        ensures
            final(self)@ == old(self)@.after_chunk(data@.len()),
            old(self)@.phase == SendPhase::Streaming ==> message_view(out.0) == Some(
                old(self)@.chunk_message(old(state)@.self_id, data@),
            ) && final(state)@ == old(state)@.update_file_transfer_progress(
                old(self)@.transfer_id,
                final(self)@.bytes_sent,
            ) && notification_view(out.1) == progress_news(
                old(state)@,
                old(self)@.transfer_id,
                final(self)@.bytes_sent,
            ),
            old(self)@.phase != SendPhase::Streaming ==> out.0 is None && out.1 is None
                && final(state)@ == old(state)@,
    {
        match self.phase {
            SendPhase::Streaming => {
                proof {
                    use_type_invariant(&*self);
                }
                let len: usize = data.len();
                let room: u64 = self.file_size - self.bytes_sent;
                let message = Message {
                    id: self.transfer_id.clone(),
                    source_id: state.get_self_id().to_owned(),
                    target_id: self.target_id.clone(),
                    message_type: MessageType::FileData {
                        transfer_id: self.transfer_id.clone(),
                        chunk_index: self.chunk_index,
                        data,
                    },
                };
                if len as u64 <= room {
                    self.bytes_sent = self.bytes_sent + len as u64;
                } else {
                    self.bytes_sent = self.file_size;
                }
                self.chunk_index = self.chunk_index + 1;
                let notification = match state.update_file_transfer_progress(
                    self.transfer_id.as_str(),
                    self.bytes_sent,
                ) {
                    Ok(notification) => Some(notification),
                    Err(_) => None,
                };
                (Some(message), notification)
            },
            _ => (None, None),
        }
    }

    /// Sends `content`, the next bytes of the file, cut into chunks of
    /// `CHUNK_SIZE` bytes; the last chunk holds what is left. Hands out
    /// the messages in the order in which they go out, and the news of
    /// the local task after the last of them. Nothing goes out, and
    /// nothing changes, unless the session is streaming.
    pub fn send_bytes(&mut self, state: &mut AppState, content: &[u8]) -> (out: (
        Vec<Message>,
        Option<Notification>,
    ))
        requires
            old(self)@.chunk_index + chunk_count(content@.len()) <= u32::MAX,
        ensures
            old(self)@.phase != SendPhase::Streaming ==> final(self)@ == old(self)@
                && final(state)@ == old(state)@ && out.0@.len() == 0 && out.1 is None,
            old(self)@.phase == SendPhase::Streaming ==> final(self)@ == (FileSendView {
                bytes_sent: advance(old(self)@.bytes_sent, content@.len(), old(self)@.file_size),
                chunk_index: (old(self)@.chunk_index + chunk_count(content@.len())) as u32,
                ..old(self)@
            }) && out.0@.len() == chunk_count(content@.len()) && (forall|k: int|
                0 <= k < out.0@.len() ==> (#[trigger] out.0@[k])@ == (FileSendView {
                    chunk_index: (old(self)@.chunk_index + k) as u32,
                    ..old(self)@
                }).chunk_message(old(state)@.self_id, chunk_data(content@, k))),
            old(self)@.phase == SendPhase::Streaming && content@.len() == 0 ==> final(state)@
                == old(state)@ && out.1 is None,
            old(self)@.phase == SendPhase::Streaming && content@.len() > 0 ==> final(state)@
                == old(state)@.update_file_transfer_progress(
                old(self)@.transfer_id,
                final(self)@.bytes_sent,
            ) && notification_view(out.1) == progress_news(
                old(state)@,
                old(self)@.transfer_id,
                final(self)@.bytes_sent,
            ),
    {
        let mut messages: Vec<Message> = Vec::new();
        let mut news: Option<Notification> = None;
        match self.phase {
            SendPhase::Streaming => {},
            _ => {
                return (messages, news);
            },
        }
        state.note_well_formed();
        proof {
            use_type_invariant(&*self);
        }
        let ghost start = self@;
        let ghost before = state@;
        let ghost id = self@.transfer_id;
        let len: usize = content.len();
        let mut offset: usize = 0;
        let mut sent: usize = 0;
        while offset < len
            invariant
                len == content@.len(),
                offset <= len,
                sent == messages@.len(),
                offset < len ==> offset == sent * CHUNK_SIZE,
                offset == len ==> sent == chunk_count(len as nat),
                sent <= chunk_count(len as nat),
                start.phase == SendPhase::Streaming,
                start.chunk_index + chunk_count(len as nat) <= u32::MAX,
                before.wf(),
                id == start.transfer_id,
                self@ == (FileSendView {
                    bytes_sent: advance(start.bytes_sent, offset as nat, start.file_size),
                    chunk_index: (start.chunk_index + sent) as u32,
                    ..start
                }),
                state@.self_id == before.self_id,
                forall|k: int|
                    0 <= k < sent ==> (#[trigger] messages@[k])@ == (FileSendView {
                        chunk_index: (start.chunk_index + k) as u32,
                        ..start
                    }).chunk_message(before.self_id, chunk_data(content@, k)),
                sent == 0 ==> state@ == before && news is None,
                sent > 0 ==> state@ == before.update_file_transfer_progress(id, self@.bytes_sent)
                    && notification_view(news) == progress_news(before, id, self@.bytes_sent),
            decreases len - offset,
        {
            let end: usize = if len - offset > CHUNK_SIZE {
                offset + CHUNK_SIZE
            } else {
                len
            };
            let data = slice_to_vec(slice_subrange(content, offset, end));
            assert(data@ == chunk_data(content@, sent as int));
            let ghost reported = self@.bytes_sent;
            let ghost middle = state@;
            proof {
                lemma_advance_adds(
                    start.bytes_sent,
                    offset as nat,
                    (end - offset) as nat,
                    start.file_size,
                );
                lemma_progress_overwrites(
                    before,
                    id,
                    reported,
                    advance(start.bytes_sent, end as nat, start.file_size),
                );
            }
            let step = self.next_chunk(state, data);
            match step.0 {
                Some(message) => {
                    messages.push(message);
                },
                None => {},
            }
            news = step.1;
            offset = end;
            sent = sent + 1;
        }
        (messages, news)
    }

    /// Takes in the end of the file: a streaming session is complete, and
    /// so is the local task.
    pub fn finish(&mut self, state: &mut AppState) -> (notification: Option<Notification>)
        ensures
            final(self)@ == old(self)@.after_end(),
            old(self)@.phase == SendPhase::Streaming ==> final(state)@
                == old(state)@.update_transfer_status(
                old(self)@.transfer_id,
                TransferStatusView::Completed,
            ) && notification_view(notification) == status_news(
                old(state)@,
                old(self)@.transfer_id,
                TransferStatusView::Completed,
            ),
            old(self)@.phase != SendPhase::Streaming ==> final(state)@ == old(state)@
                && notification is None,
    {
        proof {
            use_type_invariant(&*self);
        }
        match self.phase {
            SendPhase::Streaming => {
                self.phase = SendPhase::Completed;
                match state.update_transfer_status(
                    self.transfer_id.as_str(),
                    TransferStatus::Completed,
                ) {
                    Ok(notification) => Some(notification),
                    Err(_) => None,
                }
            },
            _ => None,
        }
    }
}

} // verus!
