//! The listener: takes in what other nodes announce and keeps the peer
//! registry up to date.

use vstd::prelude::*;
use crate::discovery::{DiscoveryMessage, DiscoveryMessageView, LoopControl};
use crate::state::app_state::{
    notification_view,
    AppState,
    AppStateView,
    Notification,
    NotificationView,
};
use crate::state::peer::{PeerInfo, PeerInfoView, PeerStatus};
use crate::state::table::{has_key, lemma_put, lookup};

verus! {

/// The peer that an announcement describes, as seen from the address `ip`.
pub open spec fn announced_peer(message: DiscoveryMessageView, ip: Seq<char>) -> PeerInfoView
    recommends
        message is Announce,
{
    PeerInfoView {
        id: message->Announce_node_id,
        hostname: message->Announce_hostname,
        ip,
        last_seen: message->Announce_timestamp,
        protocol_version: message->Announce_protocol_version,
        status: PeerStatus::Online,
        port: message->Announce_server_port,
        os_info: message->Announce_os_info,
    }
}

/// The state after the node has taken in `message`, received from the
/// address `ip`. The node's own announcements change nothing; another
/// node's announcement replaces all that was known of it; a heartbeat
/// refreshes a known peer and is lost on an unknown one.
pub open spec fn after_discovery(state: AppStateView, message: DiscoveryMessageView, ip: Seq<char>)
    -> AppStateView {
    match message {
        DiscoveryMessageView::Announce { node_id, .. } => if node_id == state.self_id {
            state
        } else {
            state.update_peer(node_id, announced_peer(message, ip))
        },
        DiscoveryMessageView::Heartbeat { node_id, timestamp } => state.touch_peer(
            node_id,
            timestamp,
        ),
    }
}

/// What the node publishes after it has taken in `message`: the peer
/// list after another node's announcement, and nothing else.
pub open spec fn discovery_notification(
    state: AppStateView,
    message: DiscoveryMessageView,
    ip: Seq<char>,
) -> Option<NotificationView> {
    match message {
        DiscoveryMessageView::Announce { node_id, .. } => if node_id == state.self_id {
            None
        } else {
            Some(after_discovery(state, message, ip).peer_update())
        },
        DiscoveryMessageView::Heartbeat { .. } => None,
    }
}

/// A node's own announcement never reaches its registry: the state stays
/// as it is and nothing is published.
pub proof fn lemma_own_announce_is_ignored(
    state: AppStateView,
    message: DiscoveryMessageView,
    ip: Seq<char>,
)
    requires
        message is Announce,
        message->Announce_node_id == state.self_id,
    ensures
        after_discovery(state, message, ip) == state,
        discovery_notification(state, message, ip) is None,
{
}

/// A heartbeat of a node that the registry does not hold changes nothing
/// and is not published.
pub proof fn lemma_unknown_heartbeat_is_dropped(
    state: AppStateView,
    message: DiscoveryMessageView,
    ip: Seq<char>,
)
    requires
        message is Heartbeat,
        !has_key(state.peers, message->Heartbeat_node_id),
    ensures
        after_discovery(state, message, ip) == state,
        discovery_notification(state, message, ip) is None,
{
}

/// A heartbeat of a known peer changes the time it was last seen and
/// nothing else of it; every other peer stays as it was.
pub proof fn lemma_heartbeat_refreshes(
    state: AppStateView,
    node_id: Seq<char>,
    timestamp: u64,
)
    requires
        state.wf(),
        has_key(state.peers, node_id),
    ensures
        lookup(state.touch_peer(node_id, timestamp).peers, node_id) == Some(
            PeerInfoView { last_seen: timestamp, ..lookup(state.peers, node_id).unwrap() },
        ),
        forall|other: Seq<char>|
            other != node_id ==> #[trigger] lookup(
                state.touch_peer(node_id, timestamp).peers,
                other,
            ) == lookup(state.peers, other),
{
    let info = lookup(state.peers, node_id).unwrap();
    lemma_put(state.peers, node_id, PeerInfoView { last_seen: timestamp, ..info });
}

/// The state of the receive loop of one node.
pub struct Listener {
    control: LoopControl,
}

impl View for Listener {
    type V = LoopControl;

    closed spec fn view(&self) -> LoopControl {
        self.control
    }
}

impl Listener {
    /// A listener at rest.
    pub fn new() -> (listener: Self)
        ensures
            listener@ == (LoopControl { running: false, stop_signalled: false }),
    {
        Listener { control: LoopControl::new() }
    }

    /// Whether the receive loop runs.
    pub fn is_listening(&self) -> (running: bool)
        ensures
            running == self@.running,
    {
        self.control.running
    }

    /// Enters listening. Returns whether the caller has to run the loop:
    /// a second start while the loop runs starts nothing.
    pub fn start_listening(&mut self) -> (started: bool)
        ensures
            final(self)@ == old(self)@.after_start(),
            started == old(self)@.must_start(),
    {
        self.control.start()
    }

    /// Looks, between two datagrams, whether the loop has to leave.
    pub fn should_exit(&mut self) -> (exit: bool)
        ensures
            final(self)@ == old(self)@.after_check(),
            exit == old(self)@.must_exit(),
    {
        self.control.check_exit()
    }

    /// Installs a fresh signal to stop, before the loop is started again.
    pub fn reset_shutdown(&mut self)
        ensures
            final(self)@ == old(self)@.after_reset(),
    {
        self.control.reset();
    }

    /// Signals the loop to leave.
    pub fn stop_listening(&mut self)
        ensures
            final(self)@ == old(self)@.after_stop(),
    {
        self.control.stop();
    }

    /// Takes in one datagram from the address `ip`: `decoded` is the
    /// message it holds, or nothing where its bytes are no message. Such
    /// a datagram is dropped without a trace.
    pub fn receive_message(
        &self,
        state: &mut AppState,
        decoded: Option<DiscoveryMessage>,
        ip: String,
    ) -> (notification: Option<Notification>)
        ensures
            match decoded {
                Some(message) => final(state)@ == after_discovery(old(state)@, message@, ip@)
                    && notification_view(notification) == discovery_notification(
                    old(state)@,
                    message@,
                    ip@,
                ),
                None => final(state)@ == old(state)@ && notification is None,
            },
    {
        match decoded {
            Some(message) => self.handle_message(state, message, ip),
            None => None,
        }
    }

    /// Takes in one discovery message, received from the address `ip`.
    pub fn handle_message(&self, state: &mut AppState, message: DiscoveryMessage, ip: String) -> (
        notification: Option<Notification>)
        ensures
            final(state)@ == after_discovery(old(state)@, message@, ip@),
            notification_view(notification) == discovery_notification(old(state)@, message@, ip@),
    {
        match message {
            DiscoveryMessage::Announce {
                node_id,
                hostname,
                timestamp,
                protocol_version,
                server_port,
                os_info,
            } => {
                if node_id == state.get_self_id().to_owned() {
                    return None;
                }
                let peer_info = PeerInfo {
                    id: node_id,
                    hostname,
                    ip,
                    port: server_port,
                    last_seen: timestamp,
                    protocol_version,
                    status: PeerStatus::Online,
                    os_info,
                };
                self.update_peer_info(state, peer_info);
                Some(state.notify_peer_update())
            },
            DiscoveryMessage::Heartbeat { node_id, timestamp } => {
                self.update_peer_last_seen(state, node_id, timestamp);
                None
            },
        }
    }

    /// Stores an announced peer under its id, in place of what was known
    /// of it.
    pub fn update_peer_info(&self, state: &mut AppState, peer_info: PeerInfo)
        ensures
            final(state)@ == old(state)@.update_peer(peer_info@.id, peer_info@),
    {
        let node_id = peer_info.id.clone();
        let _ = state.update_peer(node_id, peer_info);
    }

    /// Refreshes the time at which a known peer was last seen. A
    /// heartbeat of an unknown peer is lost.
    pub fn update_peer_last_seen(&self, state: &mut AppState, node_id: String, timestamp: u64)
        ensures
            final(state)@ == old(state)@.touch_peer(node_id@, timestamp),
    {
        let _ = state.update_peer_last_seen(node_id.as_str(), timestamp);
    }
}

} // verus!
