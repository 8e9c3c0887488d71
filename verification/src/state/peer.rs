//! Peers as discovery reports them, and the state of a pairing handshake.

use vstd::prelude::*;
use crate::os::{OsInformation, OsInformationView};

verus! {

/// Whether a peer can be reached.
#[derive(Debug, Clone, Copy, PartialEq, Eq, Structural)]
pub enum PeerStatus {
    Online,
    Offline,
    Busy,
}

/// Where the pairing handshake with one peer stands. A peer without an
/// entry was never dealt with.
#[derive(Debug, Clone, Copy, PartialEq, Eq, Structural)]
pub enum PairStatus {
    Unpaired,
    Requested,
    RequestReceived,
    Paired,
    Rejected,
}

impl View for PairStatus {
    type V = PairStatus;

    open spec fn view(&self) -> PairStatus {
        *self
    }
}

/// Identity and reachability of a remote node.
#[derive(Debug, PartialEq, Eq)]
pub struct PeerInfo {
    pub id: String,
    pub hostname: String,
    pub ip: String,
    pub last_seen: u64,
    pub protocol_version: String,
    pub status: PeerStatus,
    pub port: u16,
    pub os_info: OsInformation,
}

/// The model of a `PeerInfo`.
pub struct PeerInfoView {
    pub id: Seq<char>,
    pub hostname: Seq<char>,
    pub ip: Seq<char>,
    pub last_seen: u64,
    pub protocol_version: Seq<char>,
    pub status: PeerStatus,
    pub port: u16,
    pub os_info: OsInformationView,
}

impl View for PeerInfo {
    type V = PeerInfoView;

    open spec fn view(&self) -> PeerInfoView {
        PeerInfoView {
            id: self.id@,
            hostname: self.hostname@,
            ip: self.ip@,
            last_seen: self.last_seen,
            protocol_version: self.protocol_version@,
            status: self.status,
            port: self.port,
            os_info: self.os_info@,
        }
    }
}

impl Clone for PeerInfo {
    fn clone(&self) -> (copy: Self)
        ensures
            copy@ == self@,
    {
        PeerInfo {
            id: self.id.clone(),
            hostname: self.hostname.clone(),
            ip: self.ip.clone(),
            last_seen: self.last_seen,
            protocol_version: self.protocol_version.clone(),
            status: self.status,
            port: self.port,
            os_info: self.os_info.clone(),
        }
    }
}

} // verus!
