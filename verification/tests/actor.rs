use dsf_client::actor::{ClientActor, Exchange, RequestDone, SingleRequest, StreamRequest};
use dsf_client::Error;
use dsf_rpc::{Request, RequestKind};

fn request() -> Request {
    Request::new(RequestKind::Status)
}

fn single() -> SingleRequest {
    let request = request();
    SingleRequest { id: request.req_id(), request }
}

fn stream() -> StreamRequest {
    let request = request();
    StreamRequest { id: request.req_id(), request }
}

#[test]
fn new_actor_waits_ten_seconds_and_tracks_nothing() {
    let (a, ()) = ClientActor::<u32>::new(Ok(())).unwrap();
    assert_eq!(a.timeout_secs(), 10);
    assert!(matches!(a.handle_response(1), Err(Error::Unknown)));
}

#[test]
fn single_request_is_routed_then_forgotten() {
    let (mut a, ()) = ClientActor::<u32>::new(Ok(())).unwrap();
    let req = request();
    let id = req.req_id();
    let sent = a.handle_single_request(SingleRequest { id, request: req.clone() }, 5);
    assert_eq!(sent, req);
    assert_eq!(*a.handle_response(id).unwrap(), 5);
    assert_eq!(a.finish_single_request(id, Exchange::Response(9u8)).unwrap(), 9);
    assert!(matches!(a.handle_response(id), Err(Error::Unknown)));
}

#[test]
fn single_request_failures() {
    let (mut a, ()) = ClientActor::<u32>::new(Ok(())).unwrap();
    let msg = single();
    let id = msg.id;
    a.handle_single_request(msg, 5);
    assert!(matches!(a.finish_single_request(id, Exchange::<u8>::SocketFailed), Err(Error::Socket)));
    assert!(a.handle_response(id).is_err());
    let msg = single();
    let id = msg.id;
    a.handle_single_request(msg, 5);
    assert!(matches!(a.finish_single_request(id, Exchange::<u8>::TimedOut), Err(Error::Timeout)));
    assert!(a.handle_response(id).is_err());
}

#[test]
fn stream_request_stays_on_response() {
    let (mut a, ()) = ClientActor::<u32>::new(Ok(())).unwrap();
    let msg = stream();
    let id = msg.id;
    a.handle_stream_request(msg, 60);
    assert_eq!(a.finish_stream_request(id, Exchange::Response(1u8)).unwrap(), 1);
    assert_eq!(*a.handle_response(id).unwrap(), 60);
    a.handle_request_done(RequestDone(id));
    assert!(a.handle_response(id).is_err());
    a.handle_request_done(RequestDone(id));
    assert!(a.handle_response(id).is_err());
}

#[test]
fn stream_request_forgotten_on_failure() {
    let (mut a, ()) = ClientActor::<u32>::new(Ok(())).unwrap();
    let (m6, m7) = (stream(), stream());
    let (six, seven) = (m6.id, m7.id);
    assert_ne!(six, seven);
    a.handle_stream_request(m6, 60);
    a.handle_stream_request(m7, 70);
    assert!(matches!(a.finish_stream_request(six, Exchange::<u8>::TimedOut), Err(Error::Timeout)));
    assert!(a.handle_response(six).is_err());
    assert_eq!(*a.handle_response(seven).unwrap(), 70);
}

#[test]
fn request_done_for_unknown_id_changes_nothing() {
    let (mut a, ()) = ClientActor::<u32>::new(Ok(())).unwrap();
    let msg = stream();
    let id = msg.id;
    a.handle_stream_request(msg, 70);
    a.handle_request_done(RequestDone(id.wrapping_add(1)));
    assert_eq!(*a.handle_response(id).unwrap(), 70);
}

#[test]
fn failed_connection_is_handed_back() {
    let r = ClientActor::<u32>::new(Err::<(), std::io::Error>(std::io::Error::new(
        std::io::ErrorKind::ConnectionRefused,
        "refused",
    )));
    match r {
        Err(e) => assert_eq!(e.kind(), std::io::ErrorKind::ConnectionRefused),
        Ok(_) => panic!("connected"),
    }
}

#[test]
fn delivery_outcome() {
    let (a, ()) = ClientActor::<u32>::new(Ok(())).unwrap();
    assert!(matches!(a.delivered(Ok::<(), String>(())), Ok(())));
    assert!(matches!(a.delivered(Err::<(), String>("gone".to_string())), Err(Error::Unknown)));
}
