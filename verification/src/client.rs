//! The client's bookkeeping of requests in flight, and what each client
//! operation makes of the daemon's answer.
//!
//! A request goes through three steps. The caller picks an id, registers the
//! channel on which that request's responses are to be delivered
//! ([`Client::track`]), sends the request and waits, with a deadline, for the
//! first response. A response that comes in on the socket is delivered to the
//! channel registered under its id ([`Client::handle`]). What the wait gave is
//! then settled ([`Client::request`] and the operations built on it): a
//! response is the result; no response is an error, and the request stops
//! being tracked.
use vstd::prelude::*;
use vstd::std_specs::hash::group_hash_axioms;

use std::collections::HashMap;
use std::io::Error as IoError;
use std::time::Duration;

use async_std::future::TimeoutError;
use dsf_core::types::Array32;
use dsf_rpc::data::PublishInfo;
use dsf_rpc::peer::{ConnectInfo, PeerInfo};
use dsf_rpc::service::{LocateInfo, RegisterInfo, ServiceInfo};
use dsf_rpc::StatusInfo;

use crate::error::Error;
use crate::reply::Reply;

verus! {

broadcast use group_hash_axioms;

/// A handle on a service, by its id.
pub struct ServiceHandle {
    pub id: Array32,
}

impl ServiceHandle {
    /// The handle of the service with this id.
    pub fn new(id: Array32) -> (h: Self)
        ensures
            h.id == id,
    {
        ServiceHandle { id }
    }
}

/// Where a response for request `id` goes: the channel registered under `id`,
/// or `Error::Unknown` where none is.
pub open spec fn route<S>(pending: Map<u64, S>, id: u64) -> Result<S, Error> {
    if pending.contains_key(id) {
        Ok(pending[id])
    } else {
        Err(Error::Unknown)
    }
}

/// The result of a wait for the first response: the response; `NoResponse`
/// where the channel closed first; `Timeout` where the deadline passed first.
pub open spec fn settled<R>(waited: Result<Option<R>, TimeoutError>) -> Result<R, Error> {
    match waited {
        Ok(Some(v)) => Ok(v),
        Ok(None) => Err(Error::NoResponse(())),
        Err(_) => Err(Error::Timeout),
    }
}

/// The requests in flight once the wait for request `id` is settled: a request
/// that got its response stays (further responses may follow), a failed one
/// is dropped.
pub open spec fn pending_after<S, R>(
    pending: Map<u64, S>,
    id: u64,
    waited: Result<Option<R>, TimeoutError>,
) -> Map<u64, S> {
    match waited {
        Ok(Some(_)) => pending,
        _ => pending.remove(id),
    }
}

/// What an operation answers once its request is settled: a request error as
/// it is, a response as `expect` reads it.
pub open spec fn answer<T>(
    settled: Result<Reply, Error>,
    expect: spec_fn(Reply) -> Result<T, Error>,
) -> Result<T, Error> {
    match settled {
        Ok(reply) => expect(reply),
        Err(e) => Err(e),
    }
}

/// `status` expects daemon status.
pub open spec fn expect_status(reply: Reply) -> Result<StatusInfo, Error> {
    match reply {
        Reply::Status(info) => Ok(info),
        _ => Err(Error::UnrecognizedResult),
    }
}

/// `connect` expects a connection report.
pub open spec fn expect_connected(reply: Reply) -> Result<ConnectInfo, Error> {
    match reply {
        Reply::Connected(info) => Ok(info),
        _ => Err(Error::UnrecognizedResult),
    }
}

/// `find` expects peers and answers with the first one's information.
pub open spec fn expect_peer_found(reply: Reply) -> Result<PeerInfo, Error> {
    match reply {
        Reply::Peers(peers) => Ok(peers[0].1),
        _ => Err(Error::UnrecognizedResult),
    }
}

/// `list` expects a list of services.
pub open spec fn expect_services(reply: Reply) -> Result<Vec<ServiceInfo>, Error> {
    match reply {
        Reply::Services(services) => Ok(services),
        _ => Err(Error::UnrecognizedResult),
    }
}

/// `info` expects one service, and answers with its handle and information.
pub open spec fn expect_service_info(reply: Reply) -> Result<(ServiceHandle, ServiceInfo), Error> {
    match reply {
        Reply::Service { id, info } => Ok((ServiceHandle { id }, info)),
        _ => Err(Error::UnrecognizedResult),
    }
}

/// `create` expects one service, and answers with its handle.
pub open spec fn expect_created(reply: Reply) -> Result<ServiceHandle, Error> {
    match reply {
        Reply::Service { id, info: _ } => Ok(ServiceHandle { id }),
        _ => Err(Error::UnrecognizedResult),
    }
}

/// `register` expects a registration report.
pub open spec fn expect_registered(reply: Reply) -> Result<RegisterInfo, Error> {
    match reply {
        Reply::Registered(info) => Ok(info),
        _ => Err(Error::UnrecognizedResult),
    }
}

/// `locate` expects a location report, and answers with it and the handle of
/// the service that was looked for (`target`).
pub open spec fn expect_located(target: Array32, reply: Reply) -> Result<
    (ServiceHandle, LocateInfo),
    Error,
> {
    match reply {
        Reply::Located(info) => Ok((ServiceHandle { id: target }, info)),
        _ => Err(Error::UnrecognizedResult),
    }
}

/// `publish` expects a publication report.
pub open spec fn expect_published(reply: Reply) -> Result<PublishInfo, Error> {
    match reply {
        Reply::Published(info) => Ok(info),
        _ => Err(Error::UnrecognizedResult),
    }
}

/// `subscribe` expects subscriptions; the responses that follow are the
/// subscription's data.
pub open spec fn expect_subscribed(reply: Reply) -> Result<(), Error> {
    match reply {
        Reply::Subscribed(_) => Ok(()),
        _ => Err(Error::UnrecognizedResult),
    }
}

/// The client: its daemon address, its response deadline and the requests in
/// flight, each with the channel `S` on which its responses are delivered.
pub struct Client<S> {
    addr: String,
    requests: HashMap<u64, S>,
    timeout: Duration,
}

impl<S> View for Client<S> {
    type V = Map<u64, S>;

    /// The requests in flight, by id.
    closed spec fn view(&self) -> Map<u64, S> {
        self.requests@
    }
}

impl<S> Client<S> {
    /// The daemon socket address.
    pub closed spec fn spec_addr(&self) -> Seq<char> {
        self.addr@
    }

    /// How long a request waits for its first response.
    pub closed spec fn spec_timeout(&self) -> Duration {
        self.timeout
    }

    /// A client for the daemon at `addr` once the daemon socket is connected:
    /// `connected` is the outcome of connecting to `addr`. Where connecting
    /// failed, the client fails with `Error::Io`; else the client starts with
    /// no request in flight, and the connection is handed back with it.
    pub fn new<T>(addr: &str, timeout: Duration, connected: Result<T, IoError>) -> (r: Result<
        (Self, T),
        Error,
    >)
        ensures
            r is Err <==> connected is Err,
            r matches Err(e) ==> e is Io,
            r matches Ok((c, conn)) ==> {
                &&& connected == Ok::<T, IoError>(conn)
                &&& c@ == Map::<u64, S>::empty()
                &&& c.spec_addr() == addr@
                &&& c.spec_timeout() == timeout
            },
    {
        match connected {
            Ok(conn) => Ok((Client { addr: addr.to_owned(), requests: HashMap::new(), timeout }, conn)),
            Err(e) => Err(Error::from(e)),
        }
    }

    /// The daemon socket address.
    pub fn addr(&self) -> (a: &str)
        ensures
            a@ == self.spec_addr(),
    {
        self.addr.as_str()
    }

    /// How long a request waits for its first response.
    pub fn timeout(&self) -> (t: Duration)
        ensures
            t == self.spec_timeout(),
    {
        self.timeout
    }

    /// Registers request `id`: its responses go to `tx` from now on (a request
    /// registered earlier under the same id is replaced).
    pub fn track(&mut self, id: u64, tx: S)
        ensures
            final(self)@ == old(self)@.insert(id, tx),
            final(self).spec_addr() == old(self).spec_addr(),
            final(self).spec_timeout() == old(self).spec_timeout(),
    {
        self.requests.insert(id, tx);
    }

    /// The channel that a response carrying request id `id` is delivered to;
    /// `Error::Unknown` where no request with that id is in flight.
    pub fn handle(&self, id: u64) -> (r: Result<&S, Error>)
        ensures
            r is Ok <==> self@.contains_key(id),
            r matches Ok(tx) ==> route(self@, id) == Ok::<S, Error>(*tx),
            r matches Err(e) ==> route(self@, id) == Err::<S, Error>(e),
    {
        match self.requests.get(&id) {
            Some(tx) => Ok(tx),
            None => Err(Error::Unknown),
        }
    }

    /// A response was handed on to its request's channel, and `sent` is how
    /// that went. The response is dealt with either way: a request that no
    /// longer listens is no failure of the client.
    pub fn delivered<E>(&self, sent: Result<(), E>) -> (r: Result<(), Error>)
        ensures
            r == Ok::<(), Error>(()),
    {
        Ok(())
    }

    /// Settles request `id` with what the wait for its first response gave:
    /// the response, or the error; a failed request stops being tracked.
    pub fn request<R>(&mut self, id: u64, waited: Result<Option<R>, TimeoutError>) -> (r: Result<
        R,
        Error,
    >)
        ensures
            r == settled(waited),
            final(self)@ == pending_after(old(self)@, id, waited),
            final(self).spec_addr() == old(self).spec_addr(),
            final(self).spec_timeout() == old(self).spec_timeout(),
    {
        let res = match waited {
            Ok(Some(v)) => Ok(v),
            Ok(None) => Err(Error::NoResponse(())),
            Err(_e) => Err(Error::Timeout),
        };
        if res.is_err() {
            self.requests.remove(&id);
        }
        res
    }

    /// Settles a status request: the daemon's status.
    pub fn status(&mut self, id: u64, waited: Result<Option<Reply>, TimeoutError>) -> (r: Result<StatusInfo, Error>)
        ensures
            r == answer(settled(waited), |reply: Reply| expect_status(reply)),
            final(self)@ == pending_after(old(self)@, id, waited),
            final(self).spec_addr() == old(self).spec_addr(),
            final(self).spec_timeout() == old(self).spec_timeout(),
    {
        match self.request(id, waited) {
            Ok(Reply::Status(info)) => Ok(info),
            Ok(_) => Err(Error::UnrecognizedResult),
            Err(e) => Err(e),
        }
    }

    /// Settles a request to connect to a peer: the connection report.
    pub fn connect(&mut self, id: u64, waited: Result<Option<Reply>, TimeoutError>) -> (r: Result<ConnectInfo, Error>)
        ensures
            r == answer(settled(waited), |reply: Reply| expect_connected(reply)),
            final(self)@ == pending_after(old(self)@, id, waited),
            final(self).spec_addr() == old(self).spec_addr(),
            final(self).spec_timeout() == old(self).spec_timeout(),
    {
        match self.request(id, waited) {
            Ok(Reply::Connected(info)) => Ok(info),
            Ok(_) => Err(Error::UnrecognizedResult),
            Err(e) => Err(e),
        }
    }

    /// Settles a peer search: the information of the first peer found. The
    /// daemon answers a search with at least one peer.
    pub fn find(&mut self, id: u64, waited: Result<Option<Reply>, TimeoutError>) -> (r: Result<PeerInfo, Error>)
        requires
            waited matches Ok(Some(Reply::Peers(peers))) ==> peers.len() > 0,
        ensures
            r == answer(settled(waited), |reply: Reply| expect_peer_found(reply)),
            final(self)@ == pending_after(old(self)@, id, waited),
            final(self).spec_addr() == old(self).spec_addr(),
            final(self).spec_timeout() == old(self).spec_timeout(),
    {
        match self.request(id, waited) {
            Ok(Reply::Peers(peers)) => {
                let mut peers = peers;
                let (_id, info) = peers.remove(0);
                Ok(info)
            },
            Ok(_) => Err(Error::UnrecognizedResult),
            Err(e) => Err(e),
        }
    }

    /// Settles a request for the list of services.
    pub fn list(&mut self, id: u64, waited: Result<Option<Reply>, TimeoutError>) -> (r: Result<Vec<ServiceInfo>, Error>)
        ensures
            r == answer(settled(waited), |reply: Reply| expect_services(reply)),
            final(self)@ == pending_after(old(self)@, id, waited),
            final(self).spec_addr() == old(self).spec_addr(),
            final(self).spec_timeout() == old(self).spec_timeout(),
    {
        match self.request(id, waited) {
            Ok(Reply::Services(services)) => Ok(services),
            Ok(_) => Err(Error::UnrecognizedResult),
            Err(e) => Err(e),
        }
    }

    /// Settles a request for a service's information: its handle and information.
    pub fn info(&mut self, id: u64, waited: Result<Option<Reply>, TimeoutError>) -> (r: Result<(ServiceHandle, ServiceInfo), Error>)
        ensures
            r == answer(settled(waited), |reply: Reply| expect_service_info(reply)),
            final(self)@ == pending_after(old(self)@, id, waited),
            final(self).spec_addr() == old(self).spec_addr(),
            final(self).spec_timeout() == old(self).spec_timeout(),
    {
        match self.request(id, waited) {
            Ok(Reply::Service { id, info }) => Ok((ServiceHandle::new(id), info)),
            Ok(_) => Err(Error::UnrecognizedResult),
            Err(e) => Err(e),
        }
    }

    /// Settles a request to create a service: the new service's handle (to be
    /// kept by the caller for later use).
    pub fn create(&mut self, id: u64, waited: Result<Option<Reply>, TimeoutError>) -> (r: Result<ServiceHandle, Error>)
        ensures
            r == answer(settled(waited), |reply: Reply| expect_created(reply)),
            final(self)@ == pending_after(old(self)@, id, waited),
            final(self).spec_addr() == old(self).spec_addr(),
            final(self).spec_timeout() == old(self).spec_timeout(),
    {
        match self.request(id, waited) {
            Ok(Reply::Service { id, info: _ }) => Ok(ServiceHandle::new(id)),
            Ok(_) => Err(Error::UnrecognizedResult),
            Err(e) => Err(e),
        }
    }

    /// Settles a request to register a service in the distributed database.
    pub fn register(&mut self, id: u64, waited: Result<Option<Reply>, TimeoutError>) -> (r: Result<RegisterInfo, Error>)
        ensures
            r == answer(settled(waited), |reply: Reply| expect_registered(reply)),
            final(self)@ == pending_after(old(self)@, id, waited),
            final(self).spec_addr() == old(self).spec_addr(),
            final(self).spec_timeout() == old(self).spec_timeout(),
    {
        match self.request(id, waited) {
            Ok(Reply::Registered(info)) => Ok(info),
            Ok(_) => Err(Error::UnrecognizedResult),
            Err(e) => Err(e),
        }
    }

    /// Settles a request to locate service `target`: its handle and the
    /// location report.
    pub fn locate(&mut self, target: Array32, id: u64, waited: Result<Option<Reply>, TimeoutError>) -> (r: Result<(ServiceHandle, LocateInfo), Error>)
        ensures
            r == answer(settled(waited), |reply: Reply| expect_located(target, reply)),
            final(self)@ == pending_after(old(self)@, id, waited),
            final(self).spec_addr() == old(self).spec_addr(),
            final(self).spec_timeout() == old(self).spec_timeout(),
    {
        match self.request(id, waited) {
            Ok(Reply::Located(info)) => Ok((ServiceHandle::new(target), info)),
            Ok(_) => Err(Error::UnrecognizedResult),
            Err(e) => Err(e),
        }
    }

    /// Settles a request to publish data.
    pub fn publish(&mut self, id: u64, waited: Result<Option<Reply>, TimeoutError>) -> (r: Result<PublishInfo, Error>)
        ensures
            r == answer(settled(waited), |reply: Reply| expect_published(reply)),
            final(self)@ == pending_after(old(self)@, id, waited),
            final(self).spec_addr() == old(self).spec_addr(),
            final(self).spec_timeout() == old(self).spec_timeout(),
    {
        match self.request(id, waited) {
            Ok(Reply::Published(info)) => Ok(info),
            Ok(_) => Err(Error::UnrecognizedResult),
            Err(e) => Err(e),
        }
    }

    /// Settles a subscription request. On success the request stays tracked
    /// and its channel goes on receiving the subscription's data.
    pub fn subscribe(&mut self, id: u64, waited: Result<Option<Reply>, TimeoutError>) -> (r: Result<(), Error>)
        ensures
            r == answer(settled(waited), |reply: Reply| expect_subscribed(reply)),
            final(self)@ == pending_after(old(self)@, id, waited),
            final(self).spec_addr() == old(self).spec_addr(),
            final(self).spec_timeout() == old(self).spec_timeout(),
    {
        match self.request(id, waited) {
            Ok(Reply::Subscribed(_)) => Ok(()),
            Ok(_) => Err(Error::UnrecognizedResult),
            Err(e) => Err(e),
        }
    }
}

} // verus!
