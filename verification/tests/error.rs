use std::io::{Error as IoError, ErrorKind};
use std::time::Duration;

use dsf_client::Error;
use dsf_core::prelude::DsfError;

#[test]
fn io_error_keeps_its_kind() {
    let e = Error::from(IoError::new(ErrorKind::NotFound, "no socket"));
    assert!(matches!(e, Error::Io(ErrorKind::NotFound)));
    let e = Error::from(IoError::new(ErrorKind::ConnectionRefused, "refused"));
    assert!(matches!(e, Error::Io(ErrorKind::ConnectionRefused)));
}

#[test]
fn daemon_error_is_remote() {
    assert!(matches!(Error::from(DsfError::NotFound), Error::Remote(DsfError::NotFound)));
}

#[test]
fn codec_error_is_codec() {
    let c = futures_codec::JsonCodecError::from(IoError::new(ErrorKind::Other, "x"));
    assert!(matches!(Error::from(c), Error::Codec(_)));
}

#[test]
fn deadline_is_timeout() {
    let t = async_std::task::block_on(async_std::future::timeout(
        Duration::from_millis(1),
        async_std::future::pending::<()>(),
    ))
    .unwrap_err();
    assert!(matches!(Error::from(t), Error::Timeout));
}

#[test]
fn unit_is_no_response() {
    assert!(matches!(Error::from(()), Error::NoResponse(())));
}
