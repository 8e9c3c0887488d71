//! Receiving a file: the payloads of the chunks, in the order in which
//! they arrive.

use vstd::prelude::*;
use crate::error::FluxyResult;
use crate::network::protocol::{Message, MessageType, MessageTypeView, MessageView};
use crate::state::app_state::{
    fails_with,
    transfer_not_found,
    AppState,
    Notification,
    NotificationView,
};
use crate::state::table::lookup;
use crate::state::transfer::{TransferStatus, TransferStatusView};

verus! {

/// What the receiver does with what the stream brought.
#[derive(Debug, PartialEq, Eq)]
pub enum ReceiveStep {
    /// Write these bytes to the end of the file and read on.
    Write(Vec<u8>),
    /// Flush the file: the transfer is over.
    Finish,
}

/// The view of a `ReceiveStep`: the bytes to write, or nothing at the end.
pub open spec fn step_view(step: ReceiveStep) -> Option<Seq<u8>> {
    match step {
        ReceiveStep::Write(data) => Some(data@),
        ReceiveStep::Finish => None,
    }
}

/// What a message adds to the file: the payload of a chunk, or nothing
/// for the end of the stream and for any other message, which ends the
/// transfer.
pub open spec fn chunk_payload(incoming: Option<MessageView>) -> Option<Seq<u8>> {
    match incoming {
        Some(message) => match message.message_type {
            MessageTypeView::FileData { data, .. } => Some(data),
            _ => None,
        },
        None => None,
    }
}

/// The receiving side of one file transfer.
pub struct FileReceiver {
    bytes_written: u64,
}

impl View for FileReceiver {
    type V = u64;

    /// The bytes handed out for writing so far, counted up to the largest
    /// number that fits.
    closed spec fn view(&self) -> u64 {
        self.bytes_written
    }
}

/// `written` and `len` more, as far as the counter reaches.
pub open spec fn count_written(written: u64, len: nat) -> u64 {
    if written + len <= u64::MAX {
        (written + len) as u64
    } else {
        u64::MAX
    }
}

impl FileReceiver {
    /// A receiver that has written nothing.
    pub fn new() -> (receiver: Self)
        ensures
            receiver@ == 0,
    {
        FileReceiver { bytes_written: 0 }
    }

    /// The bytes handed out for writing so far.
    pub fn bytes_written(&self) -> (written: u64)
        ensures
            written == self@,
    {
        self.bytes_written
    }

    /// Takes in the next message of the stream, or its end. The payload of
    /// a chunk is handed out for writing; anything else ends the
    /// transfer.
    pub fn receive_file(&mut self, incoming: Option<Message>) -> (step: ReceiveStep)
        ensures
            step_view(step) == chunk_payload(
                match incoming {
                    Some(m) => Some(m@),
                    None => None,
                },
            ),
            final(self)@ == (match step_view(step) {
                Some(data) => count_written(old(self)@, data.len()),
                None => old(self)@,
            }),
    {
        match incoming {
            Some(message) => match message.message_type {
                MessageType::FileData { data, .. } => {
                    let len: u64 = data.len() as u64;
                    if len <= u64::MAX - self.bytes_written {
                        self.bytes_written = self.bytes_written + len;
                    } else {
                        self.bytes_written = u64::MAX;
                    }
                    ReceiveStep::Write(data)
                },
                _ => ReceiveStep::Finish,
            },
            None => ReceiveStep::Finish,
        }
    }

    /// Marks the transfer `transfer_id` as completed, once the file is
    /// flushed. Fails for a transfer that the table does not hold.
    pub fn finish(&self, state: &mut AppState, transfer_id: &str) -> (result: FluxyResult<
        Notification,
    >)
        ensures
            final(state)@ == old(state)@.update_transfer_status(
                transfer_id@,
                TransferStatusView::Completed,
            ),
            match lookup(old(state)@.transfers, transfer_id@) {
                Some(task) => result matches Ok(notification) && notification@
                    == NotificationView::TransferUpdate(
                    task.with_status(TransferStatusView::Completed),
                ),
                None => fails_with(result, transfer_not_found(transfer_id@)),
            },
    {
        state.update_transfer_status(transfer_id, TransferStatus::Completed)
    }
}

} // verus!
