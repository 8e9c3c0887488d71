//! Sending a text: one request that carries it. No answer is awaited.

use vstd::prelude::*;
use vstd::utf8::encode_utf8;
use crate::error::FluxyResult;
use crate::network::protocol::{Message, MessageType, MessageTypeView, MessageView};
use crate::state::app_state::{
    fails_with,
    transfer_not_found,
    AppState,
    Notification,
    NotificationView,
};
use crate::state::table::lookup;
use crate::state::transfer::{
    TransferStatus,
    TransferStatusView,
    TransferTask,
    TransferTaskView,
    TransferType,
    TransferTypeView,
};

verus! {

/// The number of bytes that `content` takes as UTF-8, as the machine
/// counts it.
pub open spec fn text_len(content: Seq<char>) -> usize {
    encode_utf8(content).len() as usize
}

/// The request that carries the text `content` as the transfer
/// `transfer_id`: the text stands where a file's name would, and the size
/// counts its bytes.
pub open spec fn text_request(
    self_id: Seq<char>,
    target_id: Seq<char>,
    transfer_id: Seq<char>,
    content: Seq<char>,
) -> MessageView {
    MessageView {
        id: transfer_id,
        source_id: self_id,
        target_id,
        message_type: MessageTypeView::TransferRequest {
            transfer_id,
            file_name: content,
            file_size: text_len(content) as u64,
        },
    }
}

/// The local task of a text that is about to be sent.
pub open spec fn pending_text_task(transfer_id: Seq<char>, peer_id: Seq<char>, content: Seq<char>)
    -> TransferTaskView {
    TransferTaskView {
        id: transfer_id,
        peer_id,
        transfer_type: TransferTypeView::Text { content },
        status: TransferStatusView::Pending,
    }
}

/// Sends texts.
pub struct TextSender {}

impl TextSender {
    /// A sender of texts.
    pub fn new() -> (sender: Self)
        ensures
            sender == (TextSender {  }),
    {
        TextSender {  }
    }

    /// Opens the transfer `transfer_id` of the text `content`: records the
    /// local task as pending and hands out the request for the peer.
    pub fn send_text(
        &self,
        state: &mut AppState,
        target_id: &str,
        transfer_id: &str,
        content: &str,
    ) -> (out: (Message, Notification))
        ensures
            out.0@ == text_request(old(state)@.self_id, target_id@, transfer_id@, content@),
            final(state)@ == old(state)@.insert_transfer(
                transfer_id@,
                pending_text_task(transfer_id@, target_id@, content@),
            ),
            out.1@ == NotificationView::TransferUpdate(
                pending_text_task(transfer_id@, target_id@, content@),
            ),
    {
        let request = Message {
            id: transfer_id.to_owned(),
            source_id: state.get_self_id().to_owned(),
            target_id: target_id.to_owned(),
            message_type: MessageType::TransferRequest {
                transfer_id: transfer_id.to_owned(),
                file_name: content.to_owned(),
                file_size: content.len() as u64,
            },
        };
        let task = TransferTask {
            id: transfer_id.to_owned(),
            peer_id: target_id.to_owned(),
            transfer_type: TransferType::Text { content: content.to_owned() },
            status: TransferStatus::Pending,
        };
        let notification = state.insert_transfer(transfer_id.to_owned(), task);
        (request, notification)
    }

    /// Marks the text transfer `transfer_id` as completed, once its
    /// request is written: a text needs no answer. Fails for a transfer
    /// that the table does not hold.
    pub fn complete(&self, state: &mut AppState, transfer_id: &str) -> (result: FluxyResult<
        Notification,
    >)
        ensures
            final(state)@ == old(state)@.update_transfer_status(
                transfer_id@,
                TransferStatusView::Completed,
            ),
            match lookup(old(state)@.transfers, transfer_id@) {
                Some(task) => result matches Ok(notification) && notification@
                    == NotificationView::TransferUpdate(
                    task.with_status(TransferStatusView::Completed),
                ),
                None => fails_with(result, transfer_not_found(transfer_id@)),
            },
    {
        state.update_transfer_status(transfer_id, TransferStatus::Completed)
    }
}

} // verus!
