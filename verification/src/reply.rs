//! The daemon's answer to a request, as this library reads it.
use vstd::prelude::*;

use dsf_core::page::Page;
use dsf_core::prelude::DsfError as DaemonError;
use dsf_core::types::Array32;
use dsf_rpc::data::{DataInfo, PublishInfo};
use dsf_rpc::peer::{ConnectInfo, PeerInfo};
use dsf_rpc::service::{LocateInfo, RegisterInfo, ServiceInfo, SubscriptionInfo};
use dsf_rpc::StatusInfo;

verus! {

/// One response kind of the daemon. Each variant carries the daemon's payload
/// unchanged; a service reply also carries the service's id, read from the
/// service information, because the client hands it out as a handle.
pub enum Reply {
    /// An empty answer.
    Nothing,
    /// Daemon status.
    Status(StatusInfo),
    /// A connection to a peer was made.
    Connected(ConnectInfo),
    /// One peer.
    Peer(PeerInfo),
    /// Peers with their ids.
    Peers(Vec<(Array32, PeerInfo)>),
    /// One service, and that service's id.
    Service { id: Array32, info: ServiceInfo },
    /// A list of services.
    Services(Vec<ServiceInfo>),
    /// A service was registered.
    Registered(RegisterInfo),
    /// A service was located.
    Located(LocateInfo),
    /// Subscriptions that were made.
    Subscribed(Vec<SubscriptionInfo>),
    /// Data was published.
    Published(PublishInfo),
    /// Raw datastore contents.
    Datastore(Vec<(Array32, Vec<Vec<u8>>)>),
    /// Published data objects.
    Data(Vec<DataInfo>),
    /// Pages.
    Pages(Vec<Page>),
    /// The daemon did not recognise the request.
    Unrecognised,
    /// The daemon failed the request.
    Error(DaemonError),
}

} // verus!
