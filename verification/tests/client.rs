use std::time::Duration;

use std::io::{Error as IoError, ErrorKind};

use async_std::future::TimeoutError;
use dsf_client::client::ServiceHandle;
use dsf_client::{Client, Error, Reply};
use dsf_core::base::NewBody;
use dsf_core::types::{Address, Array32, Ip};
use dsf_rpc::data::PublishInfo;
use dsf_rpc::peer::{ConnectInfo, PeerAddress, PeerInfo, PeerState};
use dsf_rpc::service::{LocateInfo, RegisterInfo, ServiceInfo, ServiceState, SubscriptionInfo, SubscriptionKind};
use dsf_rpc::StatusInfo;

fn id(b: u8) -> Array32 {
    Array32::from([b; 32])
}

fn timed_out() -> TimeoutError {
    async_std::task::block_on(async_std::future::timeout(
        Duration::from_millis(1),
        async_std::future::pending::<()>(),
    ))
    .unwrap_err()
}

fn client() -> Client<u32> {
    let (c, ()) = Client::new("/tmp/dsf.sock", Duration::from_secs(3), Ok(())).unwrap();
    c
}

fn peer(b: u8, index: usize) -> PeerInfo {
    let addr = Address::new(Ip::V4([127, 0, 0, 1]), 10100);
    PeerInfo::new(id(b), PeerAddress::Explicit(addr), PeerState::Unknown, index, None)
}

fn service(b: u8) -> ServiceInfo {
    ServiceInfo {
        id: id(b),
        index: 3,
        state: ServiceState::Created,
        public_key: id(b + 1),
        private_key: None,
        secret_key: None,
        last_updated: None,
        primary_page: None,
        replica_page: None,
        body: NewBody::None,
        subscribers: 0,
        replicas: 0,
        origin: true,
        subscribed: false,
    }
}

fn status_info() -> StatusInfo {
    StatusInfo { id: id(1), peers: 4, services: 2 }
}

#[test]
fn new_client_keeps_address_and_deadline() {
    let c = client();
    assert_eq!(c.addr(), "/tmp/dsf.sock");
    assert_eq!(c.timeout(), Duration::from_secs(3));
    assert!(matches!(c.handle(1), Err(Error::Unknown)));
}

#[test]
fn tracked_request_receives_its_responses() {
    let mut c = client();
    c.track(7, 70);
    c.track(8, 80);
    assert_eq!(*c.handle(7).unwrap(), 70);
    assert_eq!(*c.handle(8).unwrap(), 80);
    assert!(matches!(c.handle(9), Err(Error::Unknown)));
}

#[test]
fn tracking_an_id_again_replaces_the_channel() {
    let mut c = client();
    c.track(7, 70);
    c.track(7, 71);
    assert_eq!(*c.handle(7).unwrap(), 71);
}

#[test]
fn answered_request_stays_tracked() {
    let mut c = client();
    c.track(7, 70);
    let r = c.request(7, Ok::<Option<u8>, TimeoutError>(Some(5)));
    assert_eq!(r.unwrap(), 5);
    assert_eq!(*c.handle(7).unwrap(), 70);
}

#[test]
fn closed_channel_fails_and_forgets_request() {
    let mut c = client();
    c.track(7, 70);
    c.track(8, 80);
    let r = c.request(7, Ok::<Option<u8>, TimeoutError>(None));
    assert!(matches!(r, Err(Error::NoResponse(()))));
    assert!(matches!(c.handle(7), Err(Error::Unknown)));
    assert_eq!(*c.handle(8).unwrap(), 80);
}

#[test]
fn deadline_fails_and_forgets_request() {
    let mut c = client();
    c.track(7, 70);
    let r = c.request(7, Err::<Option<u8>, TimeoutError>(timed_out()));
    assert!(matches!(r, Err(Error::Timeout)));
    assert!(matches!(c.handle(7), Err(Error::Unknown)));
}

#[test]
fn status_reads_status() {
    let mut c = client();
    c.track(1, 10);
    let r = c.status(1, Ok(Some(Reply::Status(status_info()))));
    assert_eq!(r.unwrap(), status_info());
    let r = c.status(1, Ok(Some(Reply::Unrecognised)));
    assert!(matches!(r, Err(Error::UnrecognizedResult)));
    let r = c.status(1, Ok(None));
    assert!(matches!(r, Err(Error::NoResponse(()))));
    assert!(c.handle(1).is_err());
}

#[test]
fn status_times_out() {
    let mut c = client();
    c.track(1, 10);
    let r = c.status(1, Err(timed_out()));
    assert!(matches!(r, Err(Error::Timeout)));
    assert!(c.handle(1).is_err());
}

#[test]
fn connect_reads_connection_report() {
    let mut c = client();
    let info = ConnectInfo { id: id(2), peers: 3 };
    assert_eq!(c.connect(1, Ok(Some(Reply::Connected(info.clone())))).unwrap(), info);
    assert!(matches!(
        c.connect(1, Ok(Some(Reply::Status(status_info())))),
        Err(Error::UnrecognizedResult)
    ));
}

#[test]
fn find_answers_first_peer() {
    let mut c = client();
    let peers = vec![(id(1), peer(1, 0)), (id(2), peer(2, 1))];
    assert_eq!(c.find(1, Ok(Some(Reply::Peers(peers)))).unwrap(), peer(1, 0));
    assert!(matches!(c.find(1, Ok(Some(Reply::Nothing))), Err(Error::UnrecognizedResult)));
}

#[test]
fn list_reads_services() {
    let mut c = client();
    let services = vec![service(1), service(5)];
    assert_eq!(c.list(1, Ok(Some(Reply::Services(services.clone())))).unwrap(), services);
    assert!(matches!(c.list(1, Ok(Some(Reply::Pages(vec![])))), Err(Error::UnrecognizedResult)));
}

#[test]
fn info_answers_handle_and_information() {
    let mut c = client();
    let (h, info) = c
        .info(1, Ok(Some(Reply::Service { id: id(9), info: service(9) })))
        .unwrap();
    assert!(h.id == id(9));
    assert_eq!(info, service(9));
    assert!(matches!(c.info(1, Ok(Some(Reply::Services(vec![])))), Err(Error::UnrecognizedResult)));
}

#[test]
fn create_answers_handle() {
    let mut c = client();
    let h: ServiceHandle = c.create(1, Ok(Some(Reply::Service { id: id(4), info: service(4) }))).unwrap();
    assert!(h.id == id(4));
    assert!(matches!(c.create(1, Ok(Some(Reply::Unrecognised))), Err(Error::UnrecognizedResult)));
}

#[test]
fn register_reads_registration() {
    let mut c = client();
    let info = RegisterInfo { page_version: 2, replica_version: Some(1), peers: 6 };
    assert_eq!(c.register(1, Ok(Some(Reply::Registered(info.clone())))).unwrap(), info);
    assert!(matches!(
        c.register(1, Ok(Some(Reply::Located(LocateInfo { origin: true, updated: false })))),
        Err(Error::UnrecognizedResult)
    ));
}

#[test]
fn locate_answers_target_handle() {
    let mut c = client();
    let info = LocateInfo { origin: false, updated: true };
    let (h, got) = c.locate(id(6), 1, Ok(Some(Reply::Located(info.clone())))).unwrap();
    assert!(h.id == id(6));
    assert_eq!(got, info);
    assert!(matches!(c.locate(id(6), 1, Ok(None)), Err(Error::NoResponse(()))));
}

#[test]
fn publish_reads_publication() {
    let mut c = client();
    let info = PublishInfo { index: 12 };
    assert_eq!(c.publish(1, Ok(Some(Reply::Published(info.clone())))).unwrap(), info);
    assert!(matches!(c.publish(1, Ok(Some(Reply::Data(vec![])))), Err(Error::UnrecognizedResult)));
}

#[test]
fn subscribe_keeps_request_for_data() {
    let mut c = client();
    c.track(3, 30);
    let subs = vec![SubscriptionInfo {
        service_id: id(3),
        kind: SubscriptionKind::Socket(1),
        updated: None,
        expiry: None,
    }];
    assert!(c.subscribe(3, Ok(Some(Reply::Subscribed(subs)))).is_ok());
    assert_eq!(*c.handle(3).unwrap(), 30);
    assert!(matches!(c.subscribe(3, Ok(Some(Reply::Unrecognised))), Err(Error::UnrecognizedResult)));
    assert_eq!(*c.handle(3).unwrap(), 30);
    assert!(matches!(c.subscribe(3, Err(timed_out())), Err(Error::Timeout)));
    assert!(c.handle(3).is_err());
}

#[test]
fn service_handle_holds_id() {
    assert!(ServiceHandle::new(id(8)).id == id(8));
}

#[test]
fn new_client_hands_back_connection() {
    let r = Client::<u32>::new("/tmp/dsf.sock", Duration::from_secs(3), Ok(41u8));
    let (c, conn) = r.unwrap();
    assert_eq!(conn, 41);
    assert!(c.handle(41).is_err());
}

#[test]
fn failed_connection_is_io_error() {
    let r = Client::<u32>::new(
        "/tmp/none.sock",
        Duration::from_secs(3),
        Err::<(), IoError>(IoError::new(ErrorKind::NotFound, "no socket")),
    );
    assert!(matches!(r, Err(Error::Io(ErrorKind::NotFound))));
}

#[test]
fn delivery_is_done_either_way() {
    let c = client();
    assert!(matches!(c.delivered(Ok::<(), String>(())), Ok(())));
    assert!(matches!(c.delivered(Err::<(), String>("closed".to_string())), Ok(())));
}

#[test]
fn service_answer_is_created_or_located() {
    match dsf_client::report::presentation(Reply::Service { id: id(2), info: service(2) }) {
        dsf_client::report::Presentation::CreatedOrLocated(info) => assert_eq!(info, service(2)),
        _ => panic!("not a created or located service"),
    }
}
