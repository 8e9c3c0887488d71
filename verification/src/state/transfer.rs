//! Transfer tasks: one file or text exchange each, with its status and how
//! far it has come.

use vstd::prelude::*;

verus! {

/// Where a transfer stands. `Completed`, `Failed` and `Cancelled` are
/// final: a task that has reached one of them changes no more.
#[derive(Debug, PartialEq, Eq)]
pub enum TransferStatus {
    Pending,
    Transferring,
    Completed,
    Failed(String),
    Cancelled,
}

/// The model of a `TransferStatus`.
pub enum TransferStatusView {
    Pending,
    Transferring,
    Completed,
    Failed(Seq<char>),
    Cancelled,
}

impl TransferStatusView {
    /// Whether the status is final.
    pub open spec fn is_terminal(self) -> bool {
        self is Completed || self is Failed || self is Cancelled
    }
}

impl View for TransferStatus {
    type V = TransferStatusView;

    open spec fn view(&self) -> TransferStatusView {
        match self {
            TransferStatus::Pending => TransferStatusView::Pending,
            TransferStatus::Transferring => TransferStatusView::Transferring,
            TransferStatus::Completed => TransferStatusView::Completed,
            TransferStatus::Failed(reason) => TransferStatusView::Failed(reason@),
            TransferStatus::Cancelled => TransferStatusView::Cancelled,
        }
    }
}

impl Clone for TransferStatus {
    fn clone(&self) -> (copy: Self)
        ensures
            copy@ == self@,
    {
        match self {
            TransferStatus::Pending => TransferStatus::Pending,
            TransferStatus::Transferring => TransferStatus::Transferring,
            TransferStatus::Completed => TransferStatus::Completed,
            TransferStatus::Failed(reason) => TransferStatus::Failed(reason.clone()),
            TransferStatus::Cancelled => TransferStatus::Cancelled,
        }
    }
}

impl TransferStatus {
    /// Whether the status is final.
    pub fn is_terminal(&self) -> (terminal: bool)
        ensures
            terminal == self@.is_terminal(),
    {
        match self {
            TransferStatus::Pending => false,
            TransferStatus::Transferring => false,
            TransferStatus::Completed => true,
            TransferStatus::Failed(_) => true,
            TransferStatus::Cancelled => true,
        }
    }
}

/// What is transferred. For a file, `progress` counts the bytes that have
/// moved, out of `size`; the fraction done is `progress / size`.
#[derive(Debug, PartialEq, Eq)]
pub enum TransferType {
    File { path: String, name: String, size: u64, progress: u64 },
    Directory { path: String, total_files: u32 },
    Text { content: String },
}

/// The model of a `TransferType`.
pub enum TransferTypeView {
    File { path: Seq<char>, name: Seq<char>, size: u64, progress: u64 },
    Directory { path: Seq<char>, total_files: u32 },
    Text { content: Seq<char> },
}

/// `bytes`, but no more than `size`.
pub open spec fn clamp_progress(bytes: u64, size: u64) -> u64 {
    if bytes <= size {
        bytes
    } else {
        size
    }
}

impl TransferTypeView {
    /// The same payload with the progress of a file set to `bytes`, capped
    /// at the file's size. Other payloads have no progress and stay.
    pub open spec fn with_progress(self, bytes: u64) -> TransferTypeView {
        match self {
            TransferTypeView::File { path, name, size, progress } => TransferTypeView::File {
                path,
                name,
                size,
                progress: clamp_progress(bytes, size),
            },
            _ => self,
        }
    }
}

impl View for TransferType {
    type V = TransferTypeView;

    open spec fn view(&self) -> TransferTypeView {
        match self {
            TransferType::File { path, name, size, progress } => TransferTypeView::File {
                path: path@,
                name: name@,
                size: *size,
                progress: *progress,
            },
            TransferType::Directory { path, total_files } => TransferTypeView::Directory {
                path: path@,
                total_files: *total_files,
            },
            TransferType::Text { content } => TransferTypeView::Text { content: content@ },
        }
    }
}

impl Clone for TransferType {
    fn clone(&self) -> (copy: Self)
        ensures
            copy@ == self@,
    {
        match self {
            TransferType::File { path, name, size, progress } => TransferType::File {
                path: path.clone(),
                name: name.clone(),
                size: *size,
                progress: *progress,
            },
            TransferType::Directory { path, total_files } => TransferType::Directory {
                path: path.clone(),
                total_files: *total_files,
            },
            TransferType::Text { content } => TransferType::Text { content: content.clone() },
        }
    }
}

impl TransferType {
    /// Sets the progress of a file to `new_progress` bytes, capped at its
    /// size. Directories and texts have no progress.
    pub fn update_progress(&mut self, new_progress: u64)
        ensures
            final(self)@ == old(self)@.with_progress(new_progress),
    {
        match self {
            TransferType::File { size, progress, .. } => {
                if new_progress <= *size {
                    *progress = new_progress;
                } else {
                    *progress = *size;
                }
            },
            _ => {},
        }
    }
}

/// One file or text exchange with a peer.
#[derive(Debug, PartialEq, Eq)]
pub struct TransferTask {
    pub id: String,
    pub peer_id: String,
    pub transfer_type: TransferType,
    pub status: TransferStatus,
}

/// The model of a `TransferTask`.
pub struct TransferTaskView {
    pub id: Seq<char>,
    pub peer_id: Seq<char>,
    pub transfer_type: TransferTypeView,
    pub status: TransferStatusView,
}

impl TransferTaskView {
    /// The task after a request to set its status: a task in a final
    /// status stays as it is.
    pub open spec fn with_status(self, status: TransferStatusView) -> TransferTaskView {
        if self.status.is_terminal() {
            self
        } else {
            TransferTaskView { status, ..self }
        }
    }

    /// The task after `bytes` of its file are reported as moved: the
    /// progress is set and the task counts as transferring. A task in a
    /// final status stays as it is, and so does one that carries no file.
    pub open spec fn with_progress(self, bytes: u64) -> TransferTaskView {
        if self.status.is_terminal() || !(self.transfer_type is File) {
            self
        } else {
            TransferTaskView {
                transfer_type: self.transfer_type.with_progress(bytes),
                status: TransferStatusView::Transferring,
                ..self
            }
        }
    }

    /// The bytes of the task's file that have moved; none for a task
    /// without a file.
    pub open spec fn progress(self) -> u64 {
        match self.transfer_type {
            TransferTypeView::File { progress, .. } => progress,
            _ => 0,
        }
    }
}

impl View for TransferTask {
    type V = TransferTaskView;

    open spec fn view(&self) -> TransferTaskView {
        TransferTaskView {
            id: self.id@,
            peer_id: self.peer_id@,
            transfer_type: self.transfer_type@,
            status: self.status@,
        }
    }
}

impl Clone for TransferTask {
    fn clone(&self) -> (copy: Self)
        ensures
            copy@ == self@,
    {
        TransferTask {
            id: self.id.clone(),
            peer_id: self.peer_id.clone(),
            transfer_type: self.transfer_type.clone(),
            status: self.status.clone(),
        }
    }
}

impl TransferTask {
    /// Sets the status, unless the task has reached a final one.
    pub fn update_status(&mut self, new_status: TransferStatus)
        ensures
            final(self)@ == old(self)@.with_status(new_status@),
    {
        if !self.status.is_terminal() {
            self.status = new_status;
        }
    }

    /// Records that `bytes` of the file have moved, unless the task has
    /// reached a final status or carries no file.
    pub fn update_progress(&mut self, bytes: u64)
        ensures
            final(self)@ == old(self)@.with_progress(bytes),
    {
        if !self.status.is_terminal() {
            match self.transfer_type {
                TransferType::File { .. } => {
                    self.transfer_type.update_progress(bytes);
                    self.status = TransferStatus::Transferring;
                },
                _ => {},
            }
        }
    }
}

} // verus!
