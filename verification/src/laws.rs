//! Properties that hold across the client's operations and of what it
//! shows a user.
use vstd::prelude::*;

use async_std::future::TimeoutError;

use dsf_core::types::Array32;
use dsf_core::prelude::DsfError as DaemonError;
use dsf_rpc::data::{DataInfo, PublishInfo};
use dsf_rpc::peer::{ConnectInfo, PeerInfo};
use dsf_rpc::service::{LocateInfo, RegisterInfo, ServiceInfo, SubscriptionInfo};
use dsf_rpc::StatusInfo;

use crate::client::{
    answer, ServiceHandle, expect_connected, expect_created, expect_located, expect_peer_found,
    expect_published, expect_registered, expect_service_info, expect_services, expect_status,
    expect_subscribed, pending_after, route, settled,
};
use crate::actor::{exchange_result, Exchange};
use crate::error::Error;
use crate::reply::Reply;
use crate::report::{
    base64_url, decimal_text, digit_char, peer_heading, peer_row_text, presentation_of, service_heading,
    service_row_text, PeerStatus, PeerSummary, Presentation, ServiceStatus, ServiceSummary,
};

verus! {

/// Once request `id` is tracked with channel `tx`, a response carrying `id`
/// is delivered to `tx`.
pub proof fn lemma_response_reaches_tracked_request<S>(pending: Map<u64, S>, id: u64, tx: S)
    ensures
        route(pending.insert(id, tx), id) == Ok::<S, Error>(tx),
{
}

/// Tracking request `id` changes nothing for responses to any other request.
pub proof fn lemma_tracking_leaves_other_requests<S>(
    pending: Map<u64, S>,
    id: u64,
    tx: S,
    other: u64,
)
    requires
        other != id,
    ensures
        route(pending.insert(id, tx), other) == route(pending, other),
{
}

/// A request whose wait ends without a response (channel closed or deadline
/// passed) fails, and a later response carrying its id reaches nobody: it is
/// answered with `Error::Unknown`.
pub proof fn lemma_failed_request_is_forgotten<S, R>(
    pending: Map<u64, S>,
    id: u64,
    waited: Result<Option<R>, TimeoutError>,
)
    requires
        !(waited matches Ok(Some(_))),
    ensures
        settled(waited) is Err,
        route(pending_after(pending, id, waited), id) == Err::<S, Error>(Error::Unknown),
{
}

/// A request that got its first response stays tracked: the responses that
/// follow (a subscription's data) still reach its channel.
pub proof fn lemma_answered_request_keeps_its_channel<S, R>(
    pending: Map<u64, S>,
    id: u64,
    tx: S,
    response: R,
)
    ensures
        route(pending_after(pending.insert(id, tx), id, Ok::<Option<R>, TimeoutError>(Some(response))), id)
            == Ok::<S, Error>(tx),
        settled(Ok::<Option<R>, TimeoutError>(Some(response))) == Ok::<R, Error>(response),
{
}

/// Settling request `id`, whatever its wait gave, changes nothing for
/// responses to any other request.
pub proof fn lemma_settling_leaves_other_requests<S, R>(
    pending: Map<u64, S>,
    id: u64,
    waited: Result<Option<R>, TimeoutError>,
    other: u64,
)
    requires
        other != id,
    ensures
        route(pending_after(pending, id, waited), other) == route(pending, other),
{
}

/// A wait that ends with the deadline fails with `Error::Timeout`; one that
/// ends with the channel closed fails with `Error::NoResponse`.
pub proof fn lemma_wait_failures<R>(e: TimeoutError)
    ensures
        settled(Err::<Option<R>, TimeoutError>(e)) == Err::<R, Error>(Error::Timeout),
        settled(Ok::<Option<R>, TimeoutError>(None)) == Err::<R, Error>(Error::NoResponse(())),
{
}

/// Every client operation answers a failed request with the request's own
/// error, whatever it expects of a response.
pub proof fn lemma_request_errors_pass_through<T>(e: Error, expect: spec_fn(Reply) -> Result<T, Error>)
    ensures
        answer(Err(e), expect) == Err::<T, Error>(e),
{
}

/// A request that is issued and then finished leaves the requests in flight as
/// they were, less any earlier request under the same id; a response carrying
/// its id then reaches nobody.
pub proof fn lemma_finished_request_leaves_no_trace<S>(pending: Map<u64, S>, id: u64, tx: S)
    ensures
        pending.insert(id, tx).remove(id) == pending.remove(id),
        route(pending.insert(id, tx).remove(id), id) == Err::<S, Error>(Error::Unknown),
{
    assert(pending.insert(id, tx).remove(id) =~= pending.remove(id));
}

/// Each client operation answers a response of another kind than the one it
/// expects with `Error::UnrecognizedResult`; the daemon's own "unrecognised"
/// answer is such a response for every operation.
pub proof fn lemma_unexpected_reply_is_unrecognized(reply: Reply, target: Array32)
    ensures
        !(reply is Status) ==> expect_status(reply) == Err::<StatusInfo, Error>(Error::UnrecognizedResult),
        !(reply is Connected) ==> expect_connected(reply) == Err::<ConnectInfo, Error>(Error::UnrecognizedResult),
        !(reply is Peers) ==> expect_peer_found(reply) == Err::<PeerInfo, Error>(Error::UnrecognizedResult),
        !(reply is Services) ==> expect_services(reply) == Err::<Vec<ServiceInfo>, Error>(Error::UnrecognizedResult),
        !(reply is Service) ==> expect_service_info(reply) == Err::<(ServiceHandle, ServiceInfo), Error>(Error::UnrecognizedResult),
        !(reply is Service) ==> expect_created(reply) == Err::<ServiceHandle, Error>(Error::UnrecognizedResult),
        !(reply is Registered) ==> expect_registered(reply) == Err::<RegisterInfo, Error>(Error::UnrecognizedResult),
        !(reply is Located) ==> expect_located(target, reply) == Err::<(ServiceHandle, LocateInfo), Error>(Error::UnrecognizedResult),
        !(reply is Published) ==> expect_published(reply) == Err::<PublishInfo, Error>(Error::UnrecognizedResult),
        !(reply is Subscribed) ==> expect_subscribed(reply) == Err::<(), Error>(Error::UnrecognizedResult),
        reply is Unrecognised ==> expect_status(reply) is Err && expect_connected(reply) is Err
            && expect_peer_found(reply) is Err && expect_services(reply) is Err
            && expect_service_info(reply) is Err && expect_created(reply) is Err
            && expect_registered(reply) is Err && expect_located(target, reply) is Err
            && expect_published(reply) is Err && expect_subscribed(reply) is Err,
{
}

/// Saying twice that a request is over does what saying it once does, and
/// saying it of a request that is not tracked changes nothing.
pub proof fn lemma_request_done_is_idempotent<S>(pending: Map<u64, S>, id: u64)
    ensures
        pending.remove(id).remove(id) == pending.remove(id),
        !pending.contains_key(id) ==> pending.remove(id) == pending,
{
    assert(pending.remove(id).remove(id) =~= pending.remove(id));
    if !pending.contains_key(id) {
        assert(pending.remove(id) =~= pending);
    }
}

/// A single request, issued under `id` and finished, is no longer tracked
/// whatever its exchange gave; it ends in success exactly when a response
/// came.
pub proof fn lemma_single_request_untracked_after_any_outcome<S, R>(
    pending: Map<u64, S>,
    id: u64,
    tx: S,
    exchange: Exchange<R>,
)
    requires
        !(exchange is Closed),
    ensures
        !pending.insert(id, tx).remove(id).contains_key(id),
        exchange_result(exchange) is Ok <==> exchange is Response,
{
}

/// What an exchange of the message-driven client ends with: its response;
/// `Error::Socket` where the request could not be sent or the response not
/// received; `Error::Timeout` where the deadline passed.
pub proof fn lemma_exchange_results<R>(response: R)
    ensures
        exchange_result(Exchange::Response(response)) == Ok::<R, Error>(response),
        exchange_result(Exchange::<R>::SocketFailed) == Err::<R, Error>(Error::Socket),
        exchange_result(Exchange::<R>::TimedOut) == Err::<R, Error>(Error::Timeout),
{
}

/// The answer of an operation to the first response `reply` of its request,
/// where `expect` is what the operation expects of a response.
pub open spec fn answer_to<T>(reply: Reply, expect: spec_fn(Reply) -> Result<T, Error>) -> Result<
    T,
    Error,
> {
    answer(settled(Ok::<Option<Reply>, TimeoutError>(Some(reply))), expect)
}

/// A peer search answered with peers gives the first peer the daemon sent,
/// however many it sent.
pub proof fn lemma_find_answers_first_peer(peers: Vec<(Array32, PeerInfo)>)
    requires
        peers.len() > 0,
    ensures
        answer_to(Reply::Peers(peers), |reply: Reply| expect_peer_found(reply))
            == Ok::<PeerInfo, Error>(peers@[0].1),
{
}

/// A service listing gives the services exactly as the daemon sent them,
/// however many.
pub proof fn lemma_list_answers_services_as_sent(services: Vec<ServiceInfo>)
    ensures
        answer_to(Reply::Services(services), |reply: Reply| expect_services(reply))
            == Ok::<Vec<ServiceInfo>, Error>(services),
{
}

/// Every other operation gives the payload of the response it expects,
/// unchanged: the status, the connection, registration, location and
/// publication reports, and a service's handle (by the service's id) and
/// information.
pub proof fn lemma_operations_answer_their_payload(
    status: StatusInfo,
    connected: ConnectInfo,
    registered: RegisterInfo,
    located: LocateInfo,
    target: Array32,
    published: PublishInfo,
    id: Array32,
    info: ServiceInfo,
    subs: Vec<SubscriptionInfo>,
)
    ensures
        answer_to(Reply::Status(status), |reply: Reply| expect_status(reply))
            == Ok::<StatusInfo, Error>(status),
        answer_to(Reply::Connected(connected), |reply: Reply| expect_connected(reply))
            == Ok::<ConnectInfo, Error>(connected),
        answer_to(Reply::Registered(registered), |reply: Reply| expect_registered(reply))
            == Ok::<RegisterInfo, Error>(registered),
        answer_to(Reply::Located(located), |reply: Reply| expect_located(target, reply))
            == Ok::<(ServiceHandle, LocateInfo), Error>((ServiceHandle { id: target }, located)),
        answer_to(Reply::Published(published), |reply: Reply| expect_published(reply))
            == Ok::<PublishInfo, Error>(published),
        answer_to(Reply::Service { id, info }, |reply: Reply| expect_service_info(reply))
            == Ok::<(ServiceHandle, ServiceInfo), Error>((ServiceHandle { id }, info)),
        answer_to(Reply::Service { id, info }, |reply: Reply| expect_created(reply))
            == Ok::<ServiceHandle, Error>(ServiceHandle { id }),
        answer_to(Reply::Subscribed(subs), |reply: Reply| expect_subscribed(reply))
            == Ok::<(), Error>(()),
{
}

/// Each kind of answer is shown by its own presentation, carrying the
/// answer's payload unchanged whatever its size: peers as the peer table,
/// services as the service table, one service as a created or located
/// service, data as data lines, status as the status line, a daemon error as
/// an error, and the daemon's "unrecognised" as not implemented.
pub proof fn lemma_presentation_keeps_answers(
    status: StatusInfo,
    id: Array32,
    info: ServiceInfo,
    services: Vec<ServiceInfo>,
    peers: Vec<(Array32, PeerInfo)>,
    data: Vec<DataInfo>,
    e: DaemonError,
)
    ensures
        presentation_of(Reply::Peers(peers)) == Presentation::Peers(peers),
        presentation_of(Reply::Services(services)) == Presentation::Services(services),
        presentation_of(Reply::Data(data)) == Presentation::Data(data),
        presentation_of(Reply::Status(status)) == Presentation::Status(status),
        presentation_of(Reply::Service { id, info }) == Presentation::CreatedOrLocated(info),
        presentation_of(Reply::Error(e)) == Presentation::Failure(e),
        presentation_of(Reply::Unrecognised) == Presentation::NotImplemented,
{
}

/// Every other kind of answer is shown as unhandled, carrying the answer
/// itself.
pub proof fn lemma_presentation_of_other_answers(r: Reply)
    requires
        !(r is Peers || r is Services || r is Data || r is Status || r is Service || r is Error
            || r is Unrecognised),
    ensures
        presentation_of(r) == Presentation::Unhandled(r),
{
}

/// A peer's row has seven cells, each made of its own field alone: the id in
/// base64, the index, the state's name, the address, the last-seen time (or
/// `Never` where the peer was never seen), the sent count and the received
/// count, each count in decimal.
pub proof fn lemma_peer_row_cells(p: PeerSummary)
    ensures
        peer_row_text(p).len() == 7,
        peer_row_text(p)[0] == base64_url(p.id@),
        peer_row_text(p)[1] == decimal_text(p.index as nat),
        peer_row_text(p)[2] == p.state.text(),
        peer_row_text(p)[3] == p.address@,
        p.seen matches Some(t) ==> peer_row_text(p)[4] == t@,
        p.seen is None ==> peer_row_text(p)[4] == "Never"@,
        peer_row_text(p)[5] == decimal_text(p.sent as nat),
        peer_row_text(p)[6] == decimal_text(p.received as nat),
{
}

/// A service's row has nine cells, each made of its own field alone: the id
/// in base64, the index, the state's name, the last-update time (or `Never`
/// where the service was never updated), the public key in base64, `True` or
/// `False` for whether the private and the secret key are held, and the
/// subscriber and replica counts in decimal.
pub proof fn lemma_service_row_cells(s: ServiceSummary)
    ensures
        service_row_text(s).len() == 9,
        service_row_text(s)[0] == base64_url(s.id@),
        service_row_text(s)[1] == decimal_text(s.index as nat),
        service_row_text(s)[2] == s.state.text(),
        s.updated matches Some(t) ==> service_row_text(s)[3] == t@,
        s.updated is None ==> service_row_text(s)[3] == "Never"@,
        service_row_text(s)[4] == base64_url(s.public_key@),
        s.has_private_key ==> service_row_text(s)[5] == "True"@,
        !s.has_private_key ==> service_row_text(s)[5] == "False"@,
        s.has_secret_key ==> service_row_text(s)[6] == "True"@,
        !s.has_secret_key ==> service_row_text(s)[6] == "False"@,
        service_row_text(s)[7] == decimal_text(s.subscribers as nat),
        service_row_text(s)[8] == decimal_text(s.replicas as nat),
{
}

/// The names of the peer and service states.
pub proof fn lemma_state_names()
    ensures
        PeerStatus::Unknown.text() == "Unknown"@,
        PeerStatus::Known.text() == "Known"@,
        ServiceStatus::Created.text() == "Created"@,
        ServiceStatus::Registered.text() == "Registered"@,
        ServiceStatus::Located.text() == "Located"@,
        ServiceStatus::Subscribed.text() == "Subscribed"@,
{
}

/// The headings of the two tables.
pub proof fn lemma_table_headings()
    ensures
        peer_heading() == seq![
            "Peer ID"@,
            "Index"@,
            "State"@,
            "Address(es)"@,
            "Seen"@,
            "Sent"@,
            "Received"@,
            "Blocked"@,
        ],
        service_heading() == seq![
            "Service ID"@,
            "Index"@,
            "State"@,
            "Updated"@,
            "PublicKey"@,
            "PrivateKey"@,
            "SecretKey"@,
            "Subscribers"@,
            "Replicas"@,
        ],
{
}

/// The number that a text of decimal digits reads as.
pub open spec fn decimal_value(text: Seq<char>) -> int
    decreases text.len(),
{
    if text.len() == 0 {
        0
    } else {
        decimal_value(text.drop_last()) * 10 + (text.last() as int - '0' as int)
    }
}

/// Whether every character of `text` is a decimal digit.
pub open spec fn all_digits(text: Seq<char>) -> bool {
    forall|i: int| 0 <= i < text.len() ==> '0' <= #[trigger] text[i] <= '9'
}

proof fn lemma_digit_char(d: nat)
    requires
        d < 10,
    ensures
        '0' <= digit_char(d) <= '9',
        digit_char(d) as int - '0' as int == d,
        d != 0 ==> digit_char(d) != '0',
{
}

/// The decimal text of `n` is made of digits, starts with a digit other than
/// `0` unless it is `0` itself, and reads back as `n`.
pub proof fn lemma_decimal_text_reads_back(n: nat)
    ensures
        all_digits(decimal_text(n)),
        decimal_text(n).len() >= 1,
        decimal_text(n).len() > 1 ==> decimal_text(n)[0] != '0',
        n >= 1 ==> decimal_text(n)[0] != '0',
        decimal_value(decimal_text(n)) == n,
    decreases n,
{
    if n < 10 {
        lemma_digit_char(n);
        let t = decimal_text(n);
        assert(t.drop_last() =~= Seq::<char>::empty());
        assert(decimal_value(Seq::<char>::empty()) == 0);
        assert(decimal_value(t) == n);
    } else {
        lemma_decimal_text_reads_back(n / 10);
        lemma_digit_char(n % 10);
        let t = decimal_text(n);
        let high = decimal_text(n / 10);
        assert(t == high.push(digit_char(n % 10)));
        assert(t.drop_last() =~= high);
        assert(t[0] == high[0]);
        assert(all_digits(t)) by {
            assert forall|i: int| 0 <= i < t.len() implies '0' <= #[trigger] t[i] <= '9' by {
                if i < high.len() {
                    assert(t[i] == high[i]);
                }
            }
        }
        assert(t.last() == digit_char(n % 10));
        assert(decimal_value(t) == decimal_value(high) * 10 + (digit_char(n % 10) as int - '0' as int));
        assert((n / 10) * 10 + n % 10 == n);
    }
}

/// The base64 text of `bytes` has four characters for each started group of
/// three bytes; so an id of thirty-two bytes is forty-four characters.
pub proof fn lemma_base64_url_length(bytes: Seq<u8>)
    ensures
        base64_url(bytes).len() == 4 * ((bytes.len() + 2) / 3),
    decreases bytes.len(),
{
    if bytes.len() >= 3 {
        lemma_base64_url_length(bytes.subrange(3, bytes.len() as int));
    }
}

} // verus!
