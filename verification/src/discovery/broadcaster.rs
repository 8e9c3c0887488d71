//! The broadcaster: while it runs, the node announces itself once per
//! tick.

use vstd::prelude::*;
use crate::discovery::{protocol_version, DiscoveryMessage, DiscoveryMessageView, LoopControl};
use crate::error::FluxyResult;
use crate::os::local_hostname;
use crate::state::app_state::{AppState, AppStateView};

verus! {

/// What the broadcast loop does next.
#[derive(Debug, PartialEq, Eq)]
pub enum BroadcastStep {
    /// Send this announcement to the multicast group, then wait for the
    /// next tick. A send that fails is logged and changes nothing.
    Send(DiscoveryMessage),
    /// Leave the loop.
    Exit,
}

/// The announcement of the node `state` under `hostname` at `timestamp`.
pub open spec fn announcement(hostname: Seq<char>, state: AppStateView, timestamp: u64)
    -> DiscoveryMessageView {
    DiscoveryMessageView::Announce {
        node_id: state.self_id,
        hostname,
        timestamp,
        protocol_version: protocol_version(),
        server_port: state.server_port,
        os_info: state.os_info,
    }
}

/// The state of the broadcast loop of one node.
pub struct Broadcaster {
    hostname: String,
    control: LoopControl,
}

/// The model of a `Broadcaster`.
pub struct BroadcasterView {
    pub hostname: Seq<char>,
    pub control: LoopControl,
}

impl View for Broadcaster {
    type V = BroadcasterView;

    closed spec fn view(&self) -> BroadcasterView {
        BroadcasterView { hostname: self.hostname@, control: self.control }
    }
}

impl Broadcaster {
    /// A broadcaster at rest, under the host name of this machine. Fails
    /// where the system refuses to tell the name.
    pub fn new() -> (result: FluxyResult<Self>)
        ensures
            match result {
                Ok(broadcaster) => broadcaster@.control == (LoopControl {
                    running: false,
                    stop_signalled: false,
                }),
                Err(e) => e is Io,
            },
    {
        Self::from_hostname(local_hostname())
    }

    /// The broadcaster that the lookup of the host name leads to: one at
    /// rest that announces the node under the name found, or the error of
    /// the lookup, unchanged.
    pub fn from_hostname(hostname: FluxyResult<String>) -> (result: FluxyResult<Self>)
        ensures
            match hostname {
                Ok(name) => result matches Ok(broadcaster) && broadcaster@ == (BroadcasterView {
                    hostname: name@,
                    control: LoopControl { running: false, stop_signalled: false },
                }),
                Err(e) => result matches Err(same) && same == e,
            },
    {
        match hostname {
            Ok(name) => Ok(Self::with_hostname(name)),
            Err(e) => Err(e),
        }
    }

    /// A broadcaster at rest that announces the node as `hostname`.
    pub fn with_hostname(hostname: String) -> (broadcaster: Self)
        ensures
            broadcaster@ == (BroadcasterView {
                hostname: hostname@,
                control: LoopControl { running: false, stop_signalled: false },
            }),
    {
        Broadcaster { hostname, control: LoopControl::new() }
    }

    /// Whether the broadcast loop runs.
    pub fn is_broadcasting(&self) -> (running: bool)
        ensures
            running == self@.control.running,
    {
        self.control.running
    }

    /// The announcement to send at `timestamp`.
    pub fn broadcast_message(&self, state: &AppState, timestamp: u64) -> (message:
        DiscoveryMessage)
        ensures
            message@ == announcement(self@.hostname, state@, timestamp),
    {
        DiscoveryMessage::Announce {
            node_id: state.get_self_id().to_owned(),
            hostname: self.hostname.clone(),
            timestamp,
            protocol_version: "1.0".to_owned(),
            server_port: state.get_server_port(),
            os_info: state.get_os_info(),
        }
    }

    /// Enters broadcasting. Returns whether the caller has to run the
    /// loop: a second start while the loop runs starts nothing.
    pub fn start_broadcasting(&mut self) -> (started: bool)
        ensures
            final(self)@ == (BroadcasterView {
                control: old(self)@.control.after_start(),
                ..old(self)@
            }),
            started == old(self)@.control.must_start(),
    {
        self.control.start()
    }

    /// What the loop does at a tick at the time `timestamp`: it leaves
    /// where the signal to stop was given, and announces the node
    /// otherwise.
    pub fn next_step(&mut self, state: &AppState, timestamp: u64) -> (step: BroadcastStep)
        ensures
            final(self)@ == (BroadcasterView {
                control: old(self)@.control.after_check(),
                ..old(self)@
            }),
            match step {
                BroadcastStep::Exit => old(self)@.control.must_exit(),
                BroadcastStep::Send(message) => !old(self)@.control.must_exit() && message@
                    == announcement(old(self)@.hostname, state@, timestamp),
            },
    {
        if self.control.check_exit() {
            BroadcastStep::Exit
        } else {
            BroadcastStep::Send(self.broadcast_message(state, timestamp))
        }
    }

    /// Installs a fresh signal to stop, before the loop is started again.
    pub fn reset_shutdown(&mut self)
        ensures
            final(self)@ == (BroadcasterView {
                control: old(self)@.control.after_reset(),
                ..old(self)@
            }),
    {
        self.control.reset();
    }

    /// Signals the loop to leave at its next tick.
    pub fn stop_broadcasting(&mut self)
        ensures
            final(self)@ == (BroadcasterView {
                control: old(self)@.control.after_stop(),
                ..old(self)@
            }),
    {
        self.control.stop();
    }
}

} // verus!
