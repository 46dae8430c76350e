//! The request bookkeeping of the message-driven client: a client that reacts
//! to messages (a response from the daemon, a request to issue, the end of a
//! request) one at a time.
use vstd::prelude::*;
use vstd::std_specs::hash::group_hash_axioms;

use std::collections::HashMap;
use std::io::Error as IoError;

use crate::client::route;
use crate::error::Error;

verus! {

broadcast use group_hash_axioms;

/// Says that the request with this id is over and need not be tracked.
#[derive(Debug, Clone, Copy, PartialEq, Eq, Structural)]
pub struct RequestDone(pub u64);

/// A request that expects one response, with the id that the request
/// carries (`dsf_rpc::Request::req_id`, read where the request is made).
pub struct SingleRequest {
    pub id: u64,
    pub request: dsf_rpc::Request,
}

/// A request whose first response is followed by more, with the id that the
/// request carries (`dsf_rpc::Request::req_id`, read where the request is
/// made).
pub struct StreamRequest {
    pub id: u64,
    pub request: dsf_rpc::Request,
}

/// How the exchange of an issued request went: its first response came; the
/// request could not be sent or the response could not be received; the
/// deadline passed; or the response channel closed with no response.
pub enum Exchange<R> {
    Response(R),
    SocketFailed,
    TimedOut,
    Closed,
}

/// The result of an exchange: the response, `Error::Socket` or
/// `Error::Timeout`.
pub open spec fn exchange_result<R>(e: Exchange<R>) -> Result<R, Error> {
    match e {
        Exchange::Response(r) => Ok(r),
        Exchange::SocketFailed => Err(Error::Socket),
        _ => Err(Error::Timeout),
    }
}

/// The message-driven client: the requests in flight, each with the channel
/// `S` its responses go to, and the response deadline in seconds.
pub struct ClientActor<S> {
    requests: HashMap<u64, S>,
    timeout_secs: u64,
}

impl<S> View for ClientActor<S> {
    type V = Map<u64, S>;

    /// The requests in flight, by id.
    closed spec fn view(&self) -> Map<u64, S> {
        self.requests@
    }
}

impl<S> ClientActor<S> {
    /// The response deadline, in seconds.
    pub closed spec fn spec_timeout_secs(&self) -> u64 {
        self.timeout_secs
    }

    /// A client once the daemon socket is connected: `connected` is the
    /// outcome of connecting. A failed connection is handed back as it is;
    /// else the client starts with no request in flight and a deadline of ten
    /// seconds, and the connection is handed back with it.
    pub fn new<T>(connected: Result<T, IoError>) -> (r: Result<(Self, T), IoError>)
        ensures
            r is Err <==> connected is Err,
            r matches Err(e) ==> connected == Err::<T, IoError>(e),
            r matches Ok((a, conn)) ==> {
                &&& connected == Ok::<T, IoError>(conn)
                &&& a@ == Map::<u64, S>::empty()
                &&& a.spec_timeout_secs() == 10
            },
    {
        match connected {
            Ok(conn) => Ok((ClientActor { requests: HashMap::new(), timeout_secs: 10 }, conn)),
            Err(e) => Err(e),
        }
    }

    /// The response deadline, in seconds.
    pub fn timeout_secs(&self) -> (t: u64)
        ensures
            t == self.spec_timeout_secs(),
    {
        self.timeout_secs
    }

    /// A response with request id `id` came from the daemon: the channel it
    /// goes to, or `Error::Unknown` where no request with that id is in flight.
    pub fn handle_response(&self, id: u64) -> (r: Result<&S, Error>)
        ensures
            r is Ok <==> self@.contains_key(id),
            r matches Ok(tx) ==> route(self@, id) == Ok::<S, Error>(*tx),
            r matches Err(e) ==> route(self@, id) == Err::<S, Error>(e),
    {
        match self.requests.get(&id) {
            Some(tx) => Ok(tx),
            None => Err(Error::Unknown),
        }
    }

    /// A response was handed on to its request's channel, and `sent` is how
    /// that went: done, or `Error::Unknown` where nobody listens any more.
    pub fn delivered<E>(&self, sent: Result<(), E>) -> (r: Result<(), Error>)
        ensures
            sent is Ok ==> r == Ok::<(), Error>(()),
            sent is Err ==> r == Err::<(), Error>(Error::Unknown),
    {
        match sent {
            Ok(()) => Ok(()),
            Err(_e) => Err(Error::Unknown),
        }
    }

    /// A request is over: it is no longer tracked.
    pub fn handle_request_done(&mut self, done: RequestDone)
        ensures
            final(self)@ == old(self)@.remove(done.0),
            final(self).spec_timeout_secs() == old(self).spec_timeout_secs(),
    {
        self.requests.remove(&done.0);
    }

    /// Issues a single request: its responses go to `tx` under the id that
    /// the request carries; the request to send to the daemon is handed
    /// back.
    pub fn handle_single_request(&mut self, req: SingleRequest, tx: S) -> (send: dsf_rpc::Request)
        ensures
            final(self)@ == old(self)@.insert(req.id, tx),
            send == req.request,
            final(self).spec_timeout_secs() == old(self).spec_timeout_secs(),
    {
        self.requests.insert(req.id, tx);
        req.request
    }

    /// The exchange of single request `id` ended: the request is over whatever
    /// the exchange gave. A closed channel is not an outcome that a single
    /// request handles.
    pub fn finish_single_request<R>(&mut self, id: u64, exchange: Exchange<R>) -> (r: Result<R, Error>)
        requires
            !(exchange is Closed),
        ensures
            r == exchange_result(exchange),
            final(self)@ == old(self)@.remove(id),
            final(self).spec_timeout_secs() == old(self).spec_timeout_secs(),
    {
        self.handle_request_done(RequestDone(id));
        match exchange {
            Exchange::Response(v) => Ok(v),
            Exchange::SocketFailed => Err(Error::Socket),
            _ => Err(Error::Timeout),
        }
    }

    /// Issues a stream request: its responses go to `tx` under the id that
    /// the request carries; the request to send to the daemon is handed
    /// back.
    pub fn handle_stream_request(&mut self, req: StreamRequest, tx: S) -> (send: dsf_rpc::Request)
        ensures
            final(self)@ == old(self)@.insert(req.id, tx),
            send == req.request,
            final(self).spec_timeout_secs() == old(self).spec_timeout_secs(),
    {
        self.requests.insert(req.id, tx);
        req.request
    }

    /// The first exchange of stream request `id` ended: where it failed the
    /// request is over; where a response came the request stays tracked for
    /// the responses that follow. A closed channel is not an outcome that a
    /// stream request handles.
    pub fn finish_stream_request<R>(&mut self, id: u64, exchange: Exchange<R>) -> (r: Result<R, Error>)
        requires
            !(exchange is Closed),
        ensures
            r == exchange_result(exchange),
            exchange is Response ==> final(self)@ == old(self)@,
            !(exchange is Response) ==> final(self)@ == old(self)@.remove(id),
            final(self).spec_timeout_secs() == old(self).spec_timeout_secs(),
    {
        match exchange {
            Exchange::Response(v) => Ok(v),
            Exchange::SocketFailed => {
                self.handle_request_done(RequestDone(id));
                Err(Error::Socket)
            },
            _ => {
                self.handle_request_done(RequestDone(id));
                Err(Error::Timeout)
            },
        }
    }
}

} // verus!
