//! Types that the DSF daemon protocol defines and that this library carries
//! through unchanged. Verus sees none of their fields: the library moves them
//! from a reply to its caller and never looks inside.
use vstd::prelude::*;

verus! {

/// A 32 byte identifier (services, peers and public keys share it).
#[verifier::external_type_specification]
#[verifier::external_body]
pub struct ExArray32(dsf_core::types::Array32);

/// An error that the daemon reports.
#[verifier::external_type_specification]
#[verifier::external_body]
pub struct ExDaemonError(dsf_core::prelude::DsfError);

/// A signed DSF page.
#[verifier::external_type_specification]
#[verifier::external_body]
pub struct ExPage(dsf_core::page::Page);

/// A request to the daemon, with its request id.
#[verifier::external_type_specification]
#[verifier::external_body]
pub struct ExRequest(dsf_rpc::Request);

/// Daemon status.
#[verifier::external_type_specification]
#[verifier::external_body]
pub struct ExStatusInfo(dsf_rpc::StatusInfo);

/// Outcome of a connection to a peer.
#[verifier::external_type_specification]
#[verifier::external_body]
pub struct ExConnectInfo(dsf_rpc::peer::ConnectInfo);

/// What the daemon knows of a peer.
#[verifier::external_type_specification]
#[verifier::external_body]
pub struct ExPeerInfo(dsf_rpc::peer::PeerInfo);

/// What the daemon knows of a service.
#[verifier::external_type_specification]
#[verifier::external_body]
pub struct ExServiceInfo(dsf_rpc::service::ServiceInfo);

/// Outcome of a service registration.
#[verifier::external_type_specification]
#[verifier::external_body]
pub struct ExRegisterInfo(dsf_rpc::service::RegisterInfo);

/// Outcome of a service lookup.
#[verifier::external_type_specification]
#[verifier::external_body]
pub struct ExLocateInfo(dsf_rpc::service::LocateInfo);

/// A subscription held by the daemon.
#[verifier::external_type_specification]
#[verifier::external_body]
pub struct ExSubscriptionInfo(dsf_rpc::service::SubscriptionInfo);

/// Outcome of a data publication.
#[verifier::external_type_specification]
#[verifier::external_body]
pub struct ExPublishInfo(dsf_rpc::data::PublishInfo);

/// A published data object.
#[verifier::external_type_specification]
#[verifier::external_body]
pub struct ExDataInfo(dsf_rpc::data::DataInfo);

/// The error that a receive with a deadline gives when the deadline passes.
#[verifier::external_type_specification]
#[verifier::external_body]
pub struct ExTimeoutError(async_std::future::TimeoutError);

/// An I/O error.
#[verifier::external_type_specification]
#[verifier::external_body]
pub struct ExIoError(std::io::Error);

/// The kind of an I/O error.
#[verifier::external_type_specification]
#[verifier::external_body]
pub struct ExIoErrorKind(std::io::ErrorKind);

/// An error of the JSON framing on the daemon socket.
#[verifier::external_type_specification]
#[verifier::external_body]
pub struct ExCodecError(futures_codec::JsonCodecError);

} // verus!
