use dsf_client::report::{
    decimal, peer_row, peer_table, presentation, service_row, service_table, PeerStatus,
    PeerSummary, Presentation, ServiceStatus, ServiceSummary,
};
use dsf_client::Reply;
use dsf_core::prelude::DsfError;
use dsf_core::types::Array32;
use dsf_rpc::data::PublishInfo;
use dsf_rpc::StatusInfo;

fn zero_text() -> String {
    "AAAAAAAAAAAAAAAAAAAAAAAAAAAAAAAAAAAAAAAAAAA=".to_string()
}

fn peer(state: PeerStatus, seen: Option<String>) -> PeerSummary {
    PeerSummary {
        id: [0u8; 32],
        index: 12,
        state,
        address: "127.0.0.1:10100".to_string(),
        seen,
        sent: 1005,
        received: 0,
    }
}

fn service() -> ServiceSummary {
    let mut key = [0u8; 32];
    for (i, b) in key.iter_mut().enumerate() {
        *b = i as u8;
    }
    ServiceSummary {
        id: [0xff; 32],
        index: 3,
        state: ServiceStatus::Registered,
        updated: None,
        public_key: key,
        has_private_key: true,
        has_secret_key: false,
        subscribers: 40,
        replicas: 9,
    }
}

#[test]
fn decimal_numbers() {
    assert_eq!(decimal(0), "0");
    assert_eq!(decimal(7), "7");
    assert_eq!(decimal(10), "10");
    assert_eq!(decimal(1005), "1005");
    assert_eq!(decimal(u64::MAX), "18446744073709551615");
}

#[test]
fn state_names() {
    assert_eq!(PeerStatus::Unknown.to_text(), "Unknown");
    assert_eq!(PeerStatus::Known.to_text(), "Known");
    assert_eq!(ServiceStatus::Created.to_text(), "Created");
    assert_eq!(ServiceStatus::Registered.to_text(), "Registered");
    assert_eq!(ServiceStatus::Located.to_text(), "Located");
    assert_eq!(ServiceStatus::Subscribed.to_text(), "Subscribed");
}

#[test]
fn peer_row_cells() {
    let row = peer_row(&peer(PeerStatus::Known, Some("2 minutes ago".to_string())));
    assert_eq!(
        row,
        vec![zero_text(), "12".to_string(), "Known".to_string(), "127.0.0.1:10100".to_string(),
             "2 minutes ago".to_string(), "1005".to_string(), "0".to_string()]
    );
}

#[test]
fn peer_never_seen() {
    let row = peer_row(&peer(PeerStatus::Unknown, None));
    assert_eq!(row[4], "Never");
    assert_eq!(row[2], "Unknown");
}

#[test]
fn service_row_cells() {
    let row = service_row(&service());
    assert_eq!(
        row,
        vec![
            "__________________________________________8=".to_string(),
            "3".to_string(),
            "Registered".to_string(),
            "Never".to_string(),
            "AAECAwQFBgcICQoLDA0ODxAREhMUFRYXGBkaGxwdHh8=".to_string(),
            "True".to_string(),
            "False".to_string(),
            "40".to_string(),
            "9".to_string(),
        ]
    );
}

#[test]
fn empty_tables_are_not_shown() {
    assert!(peer_table(&vec![]).is_none());
    assert!(service_table(&vec![]).is_none());
}

#[test]
fn peer_table_has_heading_then_rows() {
    let t = peer_table(&vec![peer(PeerStatus::Known, None), peer(PeerStatus::Unknown, None)]).unwrap();
    assert_eq!(t.len(), 3);
    assert_eq!(
        t[0],
        vec!["Peer ID", "Index", "State", "Address(es)", "Seen", "Sent", "Received", "Blocked"]
    );
    assert_eq!(t[1][2], "Known");
    assert_eq!(t[2][2], "Unknown");
}

#[test]
fn service_table_has_heading_then_rows() {
    let t = service_table(&vec![service()]).unwrap();
    assert_eq!(t.len(), 2);
    assert_eq!(
        t[0],
        vec!["Service ID", "Index", "State", "Updated", "PublicKey", "PrivateKey", "SecretKey",
             "Subscribers", "Replicas"]
    );
    assert_eq!(t[1], service_row(&service()));
}

#[test]
fn presentation_of_each_answer() {
    let status = StatusInfo { id: Array32::from([1u8; 32]), peers: 1, services: 2 };
    match presentation(Reply::Status(status.clone())) {
        Presentation::Status(s) => assert_eq!(s, status),
        _ => panic!("status"),
    }
    assert!(matches!(presentation(Reply::Services(vec![])), Presentation::Services(v) if v.is_empty()));
    assert!(matches!(presentation(Reply::Peers(vec![])), Presentation::Peers(v) if v.is_empty()));
    assert!(matches!(presentation(Reply::Data(vec![])), Presentation::Data(v) if v.is_empty()));
    assert!(matches!(presentation(Reply::Error(DsfError::Timeout)), Presentation::Failure(DsfError::Timeout)));
    assert!(matches!(presentation(Reply::Unrecognised), Presentation::NotImplemented));
    assert!(matches!(
        presentation(Reply::Published(PublishInfo { index: 3 })),
        Presentation::Unhandled(Reply::Published(p)) if p.index == 3
    ));
    assert!(matches!(presentation(Reply::Nothing), Presentation::Unhandled(Reply::Nothing)));
}
