//! Discovery over UDP multicast: what nodes announce, and the run state
//! that the broadcaster and the listener share in kind.

use vstd::prelude::*;
use crate::os::{OsInformation, OsInformationView};

pub mod broadcaster;
pub mod listener;

verus! {

/// The multicast group that nodes announce themselves to.
pub const MULTICAST_ADDRESS: [u8; 4] = [226, 4, 55, 1];

/// The UDP port of the multicast group.
pub const MULTICAST_PORT: u16 = 55412;

/// The largest datagram that the listener takes in.
pub const MAX_DATAGRAM_SIZE: usize = 1024;

/// The seconds between two announcements.
pub const ANNOUNCE_INTERVAL_SECS: u64 = 1;

/// The version of the discovery protocol, as announced.
pub open spec fn protocol_version() -> Seq<char> {
    "1.0"@
}

/// A datagram of the discovery protocol.
#[derive(Debug, PartialEq, Eq)]
pub enum DiscoveryMessage {
    /// A node tells that it is there and how to reach it.
    Announce {
        node_id: String,
        hostname: String,
        timestamp: u64,
        protocol_version: String,
        server_port: u16,
        os_info: OsInformation,
    },
    /// A node tells that it is still there.
    Heartbeat { node_id: String, timestamp: u64 },
}

/// The model of a `DiscoveryMessage`.
pub enum DiscoveryMessageView {
    Announce {
        node_id: Seq<char>,
        hostname: Seq<char>,
        timestamp: u64,
        protocol_version: Seq<char>,
        server_port: u16,
        os_info: OsInformationView,
    },
    Heartbeat { node_id: Seq<char>, timestamp: u64 },
}

impl View for DiscoveryMessage {
    type V = DiscoveryMessageView;

    open spec fn view(&self) -> DiscoveryMessageView {
        match self {
            DiscoveryMessage::Announce {
                node_id,
                hostname,
                timestamp,
                protocol_version,
                server_port,
                os_info,
            } => DiscoveryMessageView::Announce {
                node_id: node_id@,
                hostname: hostname@,
                timestamp: *timestamp,
                protocol_version: protocol_version@,
                server_port: *server_port,
                os_info: os_info@,
            },
            DiscoveryMessage::Heartbeat { node_id, timestamp } => DiscoveryMessageView::Heartbeat {
                node_id: node_id@,
                timestamp: *timestamp,
            },
        }
    }
}

impl Clone for DiscoveryMessage {
    fn clone(&self) -> (copy: Self)
        ensures
            copy@ == self@,
    {
        match self {
            DiscoveryMessage::Announce {
                node_id,
                hostname,
                timestamp,
                protocol_version,
                server_port,
                os_info,
            } => DiscoveryMessage::Announce {
                node_id: node_id.clone(),
                hostname: hostname.clone(),
                timestamp: *timestamp,
                protocol_version: protocol_version.clone(),
                server_port: *server_port,
                os_info: os_info.clone(),
            },
            DiscoveryMessage::Heartbeat { node_id, timestamp } => DiscoveryMessage::Heartbeat {
                node_id: node_id.clone(),
                timestamp: *timestamp,
            },
        }
    }
}

/// The run state of a discovery loop: whether it runs, and whether the
/// signal to stop has been given. The signal is good for one use: once
/// given it stays given until a fresh one is installed.
#[derive(Debug, Clone, Copy, PartialEq, Eq, Structural)]
pub struct LoopControl {
    pub running: bool,
    pub stop_signalled: bool,
}

impl LoopControl {
    /// The control after a call to start: the loop runs.
    pub open spec fn after_start(self) -> LoopControl {
        LoopControl { running: true, ..self }
    }

    /// Whether a call to start has to start a loop: only where none runs.
    pub open spec fn must_start(self) -> bool {
        !self.running
    }

    /// The control after the signal to stop is given.
    pub open spec fn after_stop(self) -> LoopControl {
        LoopControl { stop_signalled: true, ..self }
    }

    /// The control with a fresh signal installed.
    pub open spec fn after_reset(self) -> LoopControl {
        LoopControl { stop_signalled: false, ..self }
    }

    /// Whether the loop has to end where it now stands.
    pub open spec fn must_exit(self) -> bool {
        self.stop_signalled || !self.running
    }

    /// The control after the loop has looked at it: a loop that has to end
    /// runs no more.
    pub open spec fn after_check(self) -> LoopControl {
        if self.must_exit() {
            LoopControl { running: false, ..self }
        } else {
            self
        }
    }

    /// The control of a loop that has not run yet.
    pub fn new() -> (control: Self)
        ensures
            control == (LoopControl { running: false, stop_signalled: false }),
    {
        LoopControl { running: false, stop_signalled: false }
    }

    /// Marks the loop as running. Returns whether the caller has to start
    /// it: not where it runs already.
    pub fn start(&mut self) -> (started: bool)
        ensures
            *final(self) == old(self).after_start(),
            started == old(self).must_start(),
    {
        let started = !self.running;
        self.running = true;
        started
    }

    /// Gives the signal to stop.
    pub fn stop(&mut self)
        ensures
            *final(self) == old(self).after_stop(),
    {
        self.stop_signalled = true;
    }

    /// Installs a fresh signal.
    pub fn reset(&mut self)
        ensures
            *final(self) == old(self).after_reset(),
    {
        self.stop_signalled = false;
    }

    /// Looks whether the loop has to end, and if so marks it as ended.
    pub fn check_exit(&mut self) -> (exit: bool)
        ensures
            *final(self) == old(self).after_check(),
            exit == old(self).must_exit(),
    {
        if self.stop_signalled || !self.running {
            self.running = false;
            true
        } else {
            false
        }
    }
}

/// Starting twice in a row is starting once: the first call leaves a
/// running loop behind, the second starts none and changes nothing.
pub proof fn lemma_start_is_idempotent(control: LoopControl)
    ensures
        control.after_start().running,
        !control.after_start().must_start(),
        control.after_start().after_start() == control.after_start(),
{
}

/// A loop that was stopped leaves at its next look, and starts again only
/// after a fresh signal is installed: without one, the restarted loop
/// leaves at once.
pub proof fn lemma_stop_then_restart(control: LoopControl)
    requires
        control.running,
    ensures
        control.after_stop().must_exit(),
        !control.after_stop().after_check().running,
        control.after_stop().after_check().must_start(),
        control.after_stop().after_check().after_start().must_exit(),
        !control.after_stop().after_check().after_reset().after_start().must_exit(),
{
}

} // verus!
