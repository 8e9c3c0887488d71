//! The state that every part of a node shares: who the node is, which
//! peers it knows, where each pairing stands and which transfers run.
//!
//! The state sits behind one lock of the caller's. Each change hands back
//! the notification that the caller then publishes.

use vstd::prelude::*;
use crate::error::{FluxyError, FluxyResult};
use crate::ident::fresh_id;
use crate::os::{OsInformation, OsInformationView};
use crate::state::peer::{PairStatus, PeerInfo, PeerInfoView};
use crate::state::table::{
    delete,
    distinct_keys,
    has_key,
    lemma_filter,
    lemma_filter_has_no_new_key,
    lemma_put,
    lemma_put_same,
    lemma_put_twice,
    lookup,
    put,
    values_of,
    Rows,
    Table,
};
use crate::state::transfer::{TransferStatus, TransferStatusView, TransferTask, TransferTaskView};

verus! {

/// What the presentation layer is told.
#[derive(Debug, PartialEq, Eq)]
pub enum Notification {
    /// The peers now known, after the registry changed.
    PeerUpdate(Vec<PeerInfo>),
    /// The pairing with a peer changed.
    PairUpdate(String, PairStatus),
    /// A transfer was created or changed.
    TransferUpdate(TransferTask),
    /// A peer asks to pair, and the user has to decide.
    PairRequestReceived(String),
}

/// The model of a `Notification`.
pub enum NotificationView {
    PeerUpdate(Seq<PeerInfoView>),
    PairUpdate(Seq<char>, PairStatus),
    TransferUpdate(TransferTaskView),
    PairRequestReceived(Seq<char>),
}

/// The models of a list of peers.
pub open spec fn peer_views(list: Seq<PeerInfo>) -> Seq<PeerInfoView> {
    Seq::new(list.len(), |i: int| list[i]@)
}

/// The models of a list of transfers.
pub open spec fn transfer_views(list: Seq<TransferTask>) -> Seq<TransferTaskView> {
    Seq::new(list.len(), |i: int| list[i]@)
}

impl View for Notification {
    type V = NotificationView;

    open spec fn view(&self) -> NotificationView {
        match self {
            Notification::PeerUpdate(list) => NotificationView::PeerUpdate(peer_views(list@)),
            Notification::PairUpdate(peer_id, status) => NotificationView::PairUpdate(
                peer_id@,
                *status,
            ),
            Notification::TransferUpdate(task) => NotificationView::TransferUpdate(task@),
            Notification::PairRequestReceived(peer_id) => NotificationView::PairRequestReceived(
                peer_id@,
            ),
        }
    }
}

/// The view of an optional notification.
pub open spec fn notification_view(notification: Option<Notification>) -> Option<
    NotificationView,
> {
    match notification {
        Some(n) => Some(n@),
        None => None,
    }
}

/// The views of a list of notifications.
pub open spec fn notification_views(list: Seq<Notification>) -> Seq<NotificationView> {
    Seq::new(list.len(), |i: int| list[i]@)
}

/// The name under which a notification is published.
pub open spec fn event_name_of(notification: NotificationView) -> Seq<char> {
    match notification {
        NotificationView::PeerUpdate(_) => "peer-update"@,
        NotificationView::PairUpdate(_, _) => "pair-update"@,
        NotificationView::TransferUpdate(_) => "transfer-update"@,
        NotificationView::PairRequestReceived(_) => "pair-request-received"@,
    }
}

impl Notification {
    /// The name under which the notification is published.
    pub fn event_name(&self) -> (name: String)
        ensures
            name@ == event_name_of(self@),
    {
        match self {
            Notification::PeerUpdate(_) => "peer-update".to_owned(),
            Notification::PairUpdate(_, _) => "pair-update".to_owned(),
            Notification::TransferUpdate(_) => "transfer-update".to_owned(),
            Notification::PairRequestReceived(_) => "pair-request-received".to_owned(),
        }
    }
}

/// Whether a peer last seen at `last_seen` is stale at `now`: more than
/// `timeout_secs` seconds have passed since.
pub open spec fn is_stale(now: u64, last_seen: u64, timeout_secs: u64) -> bool {
    now - last_seen > timeout_secs
}

/// The test that a registry row passes when its peer is not stale.
pub open spec fn is_active(now: u64, timeout_secs: u64) -> spec_fn((Seq<char>, PeerInfoView)) -> bool {
    |row: (Seq<char>, PeerInfoView)| !is_stale(now, row.1.last_seen, timeout_secs)
}

/// The text of the error for a transfer that the table does not hold.
pub open spec fn transfer_not_found(task_id: Seq<char>) -> Seq<char> {
    "Transfer task not found: "@ + task_id
}

/// The text of the error for a peer without a pairing state.
pub open spec fn pair_state_not_found(peer_id: Seq<char>) -> Seq<char> {
    "Pair state not found for peer: "@ + peer_id
}

/// Whether `result` is the error `Other` with the text `text`.
pub open spec fn fails_with<T>(result: FluxyResult<T>, text: Seq<char>) -> bool {
    result matches Err(FluxyError::Other(message)) && message@ == text
}

/// The model of an `AppState`.
pub struct AppStateView {
    pub self_id: Seq<char>,
    pub peers: Rows<PeerInfoView>,
    pub transfers: Rows<TransferTaskView>,
    pub pair_states: Rows<PairStatus>,
    pub is_paired: bool,
    pub server_port: u16,
    pub os_info: OsInformationView,
}

impl AppStateView {
    /// A fresh state: nothing known, nothing paired, no port yet.
    pub open spec fn initial(self_id: Seq<char>, os_info: OsInformationView) -> AppStateView {
        AppStateView {
            self_id,
            peers: Seq::empty(),
            transfers: Seq::empty(),
            pair_states: Seq::empty(),
            is_paired: false,
            server_port: 0,
            os_info,
        }
    }

    /// Every table holds each key once.
    pub open spec fn wf(self) -> bool {
        distinct_keys(self.peers) && distinct_keys(self.transfers) && distinct_keys(
            self.pair_states,
        )
    }

    /// The state with `info` stored for the peer `peer_id`.
    pub open spec fn update_peer(self, peer_id: Seq<char>, info: PeerInfoView) -> AppStateView {
        AppStateView { peers: put(self.peers, peer_id, info), ..self }
    }

    /// The state without the peer `peer_id`.
    pub open spec fn remove_peer(self, peer_id: Seq<char>) -> AppStateView {
        AppStateView { peers: delete(self.peers, peer_id), ..self }
    }

    /// The state without the peers that are stale at `now`.
    pub open spec fn cleanup_stale_peers(self, now: u64, timeout_secs: u64) -> AppStateView {
        AppStateView { peers: self.peers.filter(is_active(now, timeout_secs)), ..self }
    }

    /// The state without any peer.
    pub open spec fn clear_peers(self) -> AppStateView {
        AppStateView { peers: Seq::empty(), ..self }
    }

    /// The state after a sign of life from `peer_id` at `timestamp`: a
    /// known peer is seen at that time, an unknown one changes nothing.
    pub open spec fn touch_peer(self, peer_id: Seq<char>, timestamp: u64) -> AppStateView {
        match lookup(self.peers, peer_id) {
            Some(info) => AppStateView {
                peers: put(self.peers, peer_id, PeerInfoView { last_seen: timestamp, ..info }),
                ..self
            },
            None => self,
        }
    }

    /// The state with the pairing of `peer_id` at `status`. Once a peer is
    /// paired, the node counts as paired.
    pub open spec fn update_pair_status(self, peer_id: Seq<char>, status: PairStatus)
        -> AppStateView {
        AppStateView {
            pair_states: put(self.pair_states, peer_id, status),
            is_paired: self.is_paired || status == PairStatus::Paired,
            ..self
        }
    }

    /// The state with `task` stored under `task_id`.
    pub open spec fn insert_transfer(self, task_id: Seq<char>, task: TransferTaskView)
        -> AppStateView {
        AppStateView { transfers: put(self.transfers, task_id, task), ..self }
    }

    /// The state after a request to set the status of `task_id`.
    pub open spec fn update_transfer_status(self, task_id: Seq<char>, status: TransferStatusView)
        -> AppStateView {
        match lookup(self.transfers, task_id) {
            Some(task) => AppStateView {
                transfers: put(self.transfers, task_id, task.with_status(status)),
                ..self
            },
            None => self,
        }
    }

    /// The state after `bytes` of the file of `task_id` are reported as
    /// moved.
    pub open spec fn update_file_transfer_progress(self, task_id: Seq<char>, bytes: u64)
        -> AppStateView {
        match lookup(self.transfers, task_id) {
            Some(task) => AppStateView {
                transfers: put(self.transfers, task_id, task.with_progress(bytes)),
                ..self
            },
            None => self,
        }
    }

    /// The peers in registry order.
    pub open spec fn peer_list(self) -> Seq<PeerInfoView> {
        values_of(self.peers)
    }

    /// The transfers in table order.
    pub open spec fn transfer_list(self) -> Seq<TransferTaskView> {
        values_of(self.transfers)
    }

    /// The notification that tells of the peers now known.
    pub open spec fn peer_update(self) -> NotificationView {
        NotificationView::PeerUpdate(self.peer_list())
    }
}

/// After a sweep the registry holds exactly the peers that are not stale,
/// each as it was.
pub proof fn lemma_sweep_keeps_the_active(state: AppStateView, now: u64, timeout_secs: u64)
    requires
        state.wf(),
    ensures
        state.cleanup_stale_peers(now, timeout_secs).wf(),
        forall|id: Seq<char>| #[trigger]
            lookup(state.cleanup_stale_peers(now, timeout_secs).peers, id) == (match lookup(
                state.peers,
                id,
            ) {
                Some(peer) => if is_stale(now, peer.last_seen, timeout_secs) {
                    None
                } else {
                    Some(peer)
                },
                None => None,
            }),
{
    lemma_filter(state.peers, is_active(now, timeout_secs));
}

/// A transfer that has reached a final status stays as it is, whatever
/// status or progress is reported for it afterwards.
pub proof fn lemma_final_status_is_sticky(
    state: AppStateView,
    task_id: Seq<char>,
    status: TransferStatusView,
    bytes: u64,
)
    requires
        state.wf(),
        lookup(state.transfers, task_id) matches Some(task) && task.status.is_terminal(),
    ensures
        state.update_transfer_status(task_id, status) == state,
        state.update_file_transfer_progress(task_id, bytes) == state,
{
    let task = lookup(state.transfers, task_id).unwrap();
    lemma_put_same(state.transfers, task_id, task);
}

/// Of two reports of progress for one transfer, one after the other, the
/// second is the one that counts: the state and the news are as if the
/// first had never been made.
pub proof fn lemma_progress_overwrites(
    state: AppStateView,
    task_id: Seq<char>,
    first: u64,
    second: u64,
)
    requires
        state.wf(),
    ensures
        state.update_file_transfer_progress(task_id, first).wf(),
        state.update_file_transfer_progress(task_id, first).update_file_transfer_progress(
            task_id,
            second,
        ) == state.update_file_transfer_progress(task_id, second),
        (match lookup(state.update_file_transfer_progress(task_id, first).transfers, task_id) {
            Some(task) => Some(task.with_progress(second)),
            None => None,
        }) == (match lookup(state.transfers, task_id) {
            Some(task) => Some(task.with_progress(second)),
            None => None,
        }),
{
    match lookup(state.transfers, task_id) {
        Some(task) => {
            lemma_put(state.transfers, task_id, task.with_progress(first));
            lemma_put_twice(
                state.transfers,
                task_id,
                task.with_progress(first),
                task.with_progress(second),
            );
        },
        None => {},
    }
}

/// Cancelling a transfer that is pending or under way makes it cancelled
/// and changes nothing else of it; no progress and no status reported
/// afterwards is applied.
pub proof fn lemma_cancel_is_final(
    state: AppStateView,
    task_id: Seq<char>,
    status: TransferStatusView,
    bytes: u64,
)
    requires
        state.wf(),
        lookup(state.transfers, task_id) matches Some(task) && (task.status is Pending
            || task.status is Transferring),
    ensures
        ({
            let task = lookup(state.transfers, task_id).unwrap();
            let cancelled = state.update_transfer_status(task_id, TransferStatusView::Cancelled);
            &&& cancelled.wf()
            &&& lookup(cancelled.transfers, task_id) == Some(
                TransferTaskView { status: TransferStatusView::Cancelled, ..task },
            )
            &&& cancelled.update_file_transfer_progress(task_id, bytes) == cancelled
            &&& cancelled.update_transfer_status(task_id, status) == cancelled
        }),
{
    let task = lookup(state.transfers, task_id).unwrap();
    let after = TransferTaskView { status: TransferStatusView::Cancelled, ..task };
    lemma_put(state.transfers, task_id, after);
    let cancelled = state.update_transfer_status(task_id, TransferStatusView::Cancelled);
    lemma_final_status_is_sticky(cancelled, task_id, status, bytes);
}

/// The shared state of a node.
pub struct AppState {
    self_id: String,
    peers: Table<PeerInfo>,
    transfers: Table<TransferTask>,
    pair_states: Table<PairStatus>,
    is_paired: bool,
    server_port: u16,
    os_info: OsInformation,
}

impl View for AppState {
    type V = AppStateView;

    closed spec fn view(&self) -> AppStateView {
        AppStateView {
            self_id: self.self_id@,
            peers: self.peers@,
            transfers: self.transfers@,
            pair_states: self.pair_states@,
            is_paired: self.is_paired,
            server_port: self.server_port,
            os_info: self.os_info@,
        }
    }
}

impl AppState {
    /// The state of a node that starts up, under a fresh random id.
    pub fn new(os_info: OsInformation) -> (state: Self)
        ensures
            state@ == AppStateView::initial(state@.self_id, os_info@),
            state@.wf(),
    {
        Self::with_id(fresh_id(), os_info)
    }

    /// The state of a node that starts up under the id `self_id`.
    pub fn with_id(self_id: String, os_info: OsInformation) -> (state: Self)
        ensures
            state@ == AppStateView::initial(self_id@, os_info@),
            state@.wf(),
    {
        let state = AppState {
            self_id,
            peers: Table::new(),
            transfers: Table::new(),
            pair_states: Table::new(),
            is_paired: false,
            server_port: 0,
            os_info,
        };
        state.note_well_formed();
        state
    }

    /// Every state is well formed: no key stands twice in any of its
    /// tables. A verified caller calls this to learn the fact for the
    /// state at hand; when run it does nothing.
    pub fn note_well_formed(&self)
        ensures
            self@.wf(),
    {
        proof {
            use_type_invariant(&self.peers);
            use_type_invariant(&self.transfers);
            use_type_invariant(&self.pair_states);
        }
    }

    /// The port that the node's TCP server listens on; 0 before it is
    /// bound.
    pub fn get_server_port(&self) -> (port: u16)
        ensures
            port == self@.server_port,
    {
        self.server_port
    }

    /// Records the port that the node's TCP server was bound to.
    pub fn set_server_port(&mut self, port: u16)
        ensures
            final(self)@ == (AppStateView { server_port: port, ..old(self)@ }),
    {
        self.server_port = port;
    }

    /// What the node tells about its operating system.
    pub fn get_os_info(&self) -> (info: OsInformation)
        ensures
            info@ == self@.os_info,
    {
        self.os_info.clone()
    }

    /// Whether the node is paired.
    pub fn is_paired(&self) -> (paired: bool)
        ensures
            paired == self@.is_paired,
    {
        self.is_paired
    }

    /// The node's own id.
    pub fn get_self_id(&self) -> (id: &str)
        ensures
            id@ == self@.self_id,
    {
        self.self_id.as_str()
    }

    /// Sets whether the node is paired.
    pub fn set_paired(&mut self, paired: bool)
        ensures
            final(self)@ == (AppStateView { is_paired: paired, ..old(self)@ }),
    {
        self.is_paired = paired;
    }

    /// The peers now known, in registry order.
    pub fn get_peers(&self) -> (list: Vec<PeerInfo>)
        ensures
            peer_views(list@) == self@.peer_list(),
    {
        let mut list: Vec<PeerInfo> = Vec::new();
        let n = self.peers.len();
        let mut i: usize = 0;
        while i < n
            invariant
                n == self.peers@.len(),
                i <= n,
                list@.len() == i,
                forall|j: int| 0 <= j < i ==> (#[trigger] list@[j])@ == self.peers@[j].1,
            decreases n - i,
        {
            list.push(self.peers.value_at(i).clone());
            i += 1;
        }
        assert(peer_views(list@) =~= self@.peer_list());
        list
    }

    /// The transfers now known, in table order.
    pub fn get_transfers(&self) -> (list: Vec<TransferTask>)
        ensures
            transfer_views(list@) == self@.transfer_list(),
    {
        let mut list: Vec<TransferTask> = Vec::new();
        let n = self.transfers.len();
        let mut i: usize = 0;
        while i < n
            invariant
                n == self.transfers@.len(),
                i <= n,
                list@.len() == i,
                forall|j: int| 0 <= j < i ==> (#[trigger] list@[j])@ == self.transfers@[j].1,
            decreases n - i,
        {
            list.push(self.transfers.value_at(i).clone());
            i += 1;
        }
        assert(transfer_views(list@) =~= self@.transfer_list());
        list
    }

    /// What is known of the peer `peer_id`.
    pub fn get_peer(&self, peer_id: &str) -> (info: Option<PeerInfo>)
        ensures
            match info {
                Some(found) => lookup(self@.peers, peer_id@) == Some(found@),
                None => lookup(self@.peers, peer_id@) is None,
            },
    {
        let key = peer_id.to_owned();
        match self.peers.get(&key) {
            Some(found) => Some(found.clone()),
            None => None,
        }
    }

    /// Where the pairing with `peer_id` stands; nothing for a peer never
    /// dealt with.
    pub fn get_pair_status(&self, peer_id: &str) -> (status: Option<PairStatus>)
        ensures
            status == lookup(self@.pair_states, peer_id@),
    {
        let key = peer_id.to_owned();
        match self.pair_states.get(&key) {
            Some(found) => Some(*found),
            None => None,
        }
    }

    /// The transfer stored under `task_id`.
    pub fn get_transfer(&self, task_id: &str) -> (task: Option<TransferTask>)
        ensures
            match task {
                Some(found) => lookup(self@.transfers, task_id@) == Some(found@),
                None => lookup(self@.transfers, task_id@) is None,
            },
    {
        let key = task_id.to_owned();
        match self.transfers.get(&key) {
            Some(found) => Some(found.clone()),
            None => None,
        }
    }

    /// Stores `peer_info` for the peer `peer_id`, in place of what was
    /// known of it.
    pub fn update_peer(&mut self, peer_id: String, peer_info: PeerInfo) -> (notification:
        Notification)
        ensures
            final(self)@ == old(self)@.update_peer(peer_id@, peer_info@),
            notification@ == final(self)@.peer_update(),
    {
        self.peers.insert(peer_id, peer_info);
        self.notify_peer_update()
    }

    /// Forgets the peer `peer_id`.
    pub fn remove_peer(&mut self, peer_id: &str) -> (notification: Notification)
        ensures
            final(self)@ == old(self)@.remove_peer(peer_id@),
            notification@ == final(self)@.peer_update(),
    {
        let key = peer_id.to_owned();
        let _ = self.peers.remove(&key);
        self.notify_peer_update()
    }

    /// Forgets every peer that, at the time `now`, was last seen more than
    /// `timeout_secs` seconds ago.
    pub fn cleanup_stale_peers(&mut self, now: u64, timeout_secs: u64) -> (notification:
        Notification)
        ensures
            final(self)@ == old(self)@.cleanup_stale_peers(now, timeout_secs),
            notification@ == final(self)@.peer_update(),
    {
        let mut kept: Table<PeerInfo> = Table::new();
        let n = self.peers.len();
        let ghost rows = self.peers@;
        let ghost keep = is_active(now, timeout_secs);
        let mut i: usize = 0;
        proof {
            reveal(Seq::filter);
            assert(rows.subrange(0, 0) =~= Seq::empty());
        }
        while i < n
            invariant
                rows == self.peers@,
                keep == is_active(now, timeout_secs),
                distinct_keys(rows),
                n == rows.len(),
                i <= n,
                kept@ == rows.subrange(0, i as int).filter(keep),
            decreases n - i,
        {
            let peer = self.peers.value_at(i);
            let ghost prefix = rows.subrange(0, i as int);
            let ghost next = rows.subrange(0, i + 1);
            proof {
                reveal(Seq::filter);
                assert(next.drop_last() =~= prefix);
                assert(next.last() == rows[i as int]);
                assert(!has_key(prefix, rows[i as int].0)) by {
                    if has_key(prefix, rows[i as int].0) {
                        let j = choose|j: int|
                            0 <= j < prefix.len() && #[trigger] prefix[j].0 == rows[i as int].0;
                        assert(rows[j].0 == rows[i as int].0);
                    }
                }
                lemma_filter_has_no_new_key(prefix, keep, rows[i as int].0);
            }
            let active = peer.last_seen >= now || now - peer.last_seen <= timeout_secs;
            if active {
                kept.insert(self.peers.key_at(i).clone(), peer.clone());
                assert(kept@ =~= next.filter(keep));
            }
            i += 1;
        }
        assert(rows.subrange(0, n as int) =~= rows);
        self.peers = kept;
        self.notify_peer_update()
    }

    /// Forgets every peer.
    pub fn clear_peers(&mut self)
        ensures
            final(self)@ == old(self)@.clear_peers(),
    {
        self.peers.clear();
    }

    /// Records a sign of life from `node_id` at `timestamp`. Returns
    /// whether the peer is known; an unknown one is not taken in.
    pub fn update_peer_last_seen(&mut self, node_id: &str, timestamp: u64) -> (known: bool)
        ensures
            final(self)@ == old(self)@.touch_peer(node_id@, timestamp),
            known == has_key(old(self)@.peers, node_id@),
    {
        let key = node_id.to_owned();
        let found = match self.peers.get(&key) {
            Some(info) => Some(info.clone()),
            None => None,
        };
        match found {
            Some(info) => {
                let mut seen = info;
                seen.last_seen = timestamp;
                self.peers.insert(key, seen);
                true
            },
            None => false,
        }
    }

    /// Sets the pairing with `peer_id` to `status`. A peer that becomes
    /// paired makes the node count as paired.
    pub fn update_pair_status(&mut self, peer_id: String, status: PairStatus) -> (notification:
        Notification)
        ensures
            final(self)@ == old(self)@.update_pair_status(peer_id@, status),
            notification@ == NotificationView::PairUpdate(peer_id@, status),
    {
        self.pair_states.insert(peer_id.clone(), status);
        match status {
            PairStatus::Paired => {
                self.is_paired = true;
            },
            _ => {},
        }
        Notification::PairUpdate(peer_id, status)
    }

    /// Stores `task` under a fresh random id and hands the id back.
    pub fn create_transfer(&mut self, task: TransferTask) -> (created: (String, Notification))
        ensures
            final(self)@ == old(self)@.insert_transfer(created.0@, task@),
            created.1@ == NotificationView::TransferUpdate(task@),
    {
        let task_id = fresh_id();
        let notification = self.insert_transfer(task_id.clone(), task);
        (task_id, notification)
    }

    /// Stores `task` under `task_id`, in place of what was there.
    pub fn insert_transfer(&mut self, task_id: String, task: TransferTask) -> (notification:
        Notification)
        ensures
            final(self)@ == old(self)@.insert_transfer(task_id@, task@),
            notification@ == NotificationView::TransferUpdate(task@),
    {
        let copy = task.clone();
        self.transfers.insert(task_id, task);
        Notification::TransferUpdate(copy)
    }

    /// Sets the status of the transfer `task_id`, unless it has reached a
    /// final one. Fails for a transfer that the table does not hold.
    pub fn update_transfer_status(&mut self, task_id: &str, status: TransferStatus) -> (result:
        FluxyResult<Notification>)
        ensures
            final(self)@ == old(self)@.update_transfer_status(task_id@, status@),
            match lookup(old(self)@.transfers, task_id@) {
                Some(task) => result matches Ok(notification) && notification@
                    == NotificationView::TransferUpdate(task.with_status(status@)),
                None => fails_with(result, transfer_not_found(task_id@)),
            },
    {
        let key = task_id.to_owned();
        let found = match self.transfers.get(&key) {
            Some(task) => Some(task.clone()),
            None => None,
        };
        match found {
            Some(task) => {
                let mut changed = task;
                changed.update_status(status);
                Ok(self.insert_transfer(key, changed))
            },
            None => Err(FluxyError::Other("Transfer task not found: ".to_owned().concat(task_id))),
        }
    }

    /// Records that `bytes` of the file of the transfer `task_id` have
    /// moved, unless the transfer has reached a final status. Fails for a
    /// transfer that the table does not hold.
    pub fn update_file_transfer_progress(&mut self, task_id: &str, bytes: u64) -> (result:
        FluxyResult<Notification>)
        ensures
            final(self)@ == old(self)@.update_file_transfer_progress(task_id@, bytes),
            match lookup(old(self)@.transfers, task_id@) {
                Some(task) => result matches Ok(notification) && notification@
                    == NotificationView::TransferUpdate(task.with_progress(bytes)),
                None => fails_with(result, transfer_not_found(task_id@)),
            },
    {
        let key = task_id.to_owned();
        let found = match self.transfers.get(&key) {
            Some(task) => Some(task.clone()),
            None => None,
        };
        match found {
            Some(task) => {
                let mut changed = task;
                changed.update_progress(bytes);
                Ok(self.insert_transfer(key, changed))
            },
            None => Err(FluxyError::Other("Transfer task not found: ".to_owned().concat(task_id))),
        }
    }

    /// The notification that tells of the peers now known.
    pub fn notify_peer_update(&self) -> (notification: Notification)
        ensures
            notification@ == self@.peer_update(),
    {
        Notification::PeerUpdate(self.get_peers())
    }

    /// The notification that tells where the pairing with `peer_id`
    /// stands. Fails for a peer without a pairing state.
    pub fn notify_pair_update(&self, peer_id: &str) -> (result: FluxyResult<Notification>)
        ensures
            match lookup(self@.pair_states, peer_id@) {
                Some(status) => result matches Ok(notification) && notification@
                    == NotificationView::PairUpdate(peer_id@, status),
                None => fails_with(result, pair_state_not_found(peer_id@)),
            },
    {
        match self.get_pair_status(peer_id) {
            Some(status) => Ok(Notification::PairUpdate(peer_id.to_owned(), status)),
            None => Err(
                FluxyError::Other("Pair state not found for peer: ".to_owned().concat(peer_id)),
            ),
        }
    }

    /// The notification that tells of the transfer `task_id` as it
    /// stands. Fails for a transfer that the table does not hold.
    pub fn notify_transfer_update(&self, task_id: &str) -> (result: FluxyResult<Notification>)
        ensures
            match lookup(self@.transfers, task_id@) {
                Some(task) => result matches Ok(notification) && notification@
                    == NotificationView::TransferUpdate(task),
                None => fails_with(result, transfer_not_found(task_id@)),
            },
    {
        match self.get_transfer(task_id) {
            Some(task) => Ok(Notification::TransferUpdate(task)),
            None => Err(FluxyError::Other("Transfer task not found: ".to_owned().concat(task_id))),
        }
    }
}

} // verus!
