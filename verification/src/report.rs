//! The tables and lines that present the daemon's answers to a user.
//!
//! Cells are text. A number is written in decimal; an id or a key in
//! URL-safe base64; a time that may be missing as the given text
//! or `Never`; a key that may be missing as `True` or `False`.
use vstd::prelude::*;

use dsf_core::prelude::DsfError as DaemonError;
use dsf_core::types::Array32;
use dsf_rpc::data::DataInfo;
use dsf_rpc::peer::PeerInfo;
use dsf_rpc::service::ServiceInfo;
use dsf_rpc::StatusInfo;

use crate::reply::Reply;

verus! {

/// The character of decimal digit `d` (`d < 10`).
pub open spec fn digit_char(d: nat) -> char {
    if d == 0 { '0' }
    else if d == 1 { '1' }
    else if d == 2 { '2' }
    else if d == 3 { '3' }
    else if d == 4 { '4' }
    else if d == 5 { '5' }
    else if d == 6 { '6' }
    else if d == 7 { '7' }
    else if d == 8 { '8' }
    else { '9' }
}

/// `n` written in decimal, without leading zeros.
pub open spec fn decimal_text(n: nat) -> Seq<char>
    decreases n,
{
    if n < 10 {
        seq![digit_char(n)]
    } else {
        decimal_text(n / 10).push(digit_char(n % 10))
    }
}

/// The character of digit `v` (`v < 64`) of URL-safe base64:
/// `A`..`Z`, `a`..`z`, `0`..`9`, `-`, `_`.
pub open spec fn base64_url_char(v: int) -> char {
    if v < 26 {
        (65 + v) as char
    } else if v < 52 {
        (97 + (v - 26)) as char
    } else if v < 62 {
        (48 + (v - 52)) as char
    } else if v == 62 {
        '-'
    } else {
        '_'
    }
}

/// `bytes` in URL-safe base64 with `=` padding: each group of three bytes
/// is four digits of six bits, high bits first; a last group of two bytes
/// is three digits and `=`, of one byte two digits and `==`.
pub open spec fn base64_url(bytes: Seq<u8>) -> Seq<char>
    decreases bytes.len(),
{
    if bytes.len() >= 3 {
        let (b0, b1, b2) = (bytes[0] as int, bytes[1] as int, bytes[2] as int);
        seq![
            base64_url_char(b0 / 4),
            base64_url_char((b0 % 4) * 16 + b1 / 16),
            base64_url_char((b1 % 16) * 4 + b2 / 64),
            base64_url_char(b2 % 64),
        ] + base64_url(bytes.subrange(3, bytes.len() as int))
    } else if bytes.len() == 2 {
        let (b0, b1) = (bytes[0] as int, bytes[1] as int);
        seq![
            base64_url_char(b0 / 4),
            base64_url_char((b0 % 4) * 16 + b1 / 16),
            base64_url_char((b1 % 16) * 4),
            '=',
        ]
    } else if bytes.len() == 1 {
        let b0 = bytes[0] as int;
        seq![base64_url_char(b0 / 4), base64_url_char((b0 % 4) * 16), '=', '=']
    } else {
        seq![]
    }
}

/// Formats an id by `Display` of `dsf_core::types::Array32`, which writes the
/// id's bytes in URL-safe base64 with padding (`base64::encode_config` with
/// `base64::URL_SAFE`).
#[verifier::external_body]
fn id_to_text(bytes: &[u8; 32]) -> (text: String)
    ensures
        text@ == base64_url(bytes@),
{
    Array32::from(*bytes).to_string()
}

fn digit_to_text(d: u64) -> (text: String)
    requires
        d < 10,
    ensures
        text@ == seq![digit_char(d as nat)],
{
    proof {
        reveal_strlit("0");
        reveal_strlit("1");
        reveal_strlit("2");
        reveal_strlit("3");
        reveal_strlit("4");
        reveal_strlit("5");
        reveal_strlit("6");
        reveal_strlit("7");
        reveal_strlit("8");
        reveal_strlit("9");
    }
    let s = if d == 0 { "0" }
    else if d == 1 { "1" }
    else if d == 2 { "2" }
    else if d == 3 { "3" }
    else if d == 4 { "4" }
    else if d == 5 { "5" }
    else if d == 6 { "6" }
    else if d == 7 { "7" }
    else if d == 8 { "8" }
    else { "9" };
    s.to_owned()
}

/// `n` written in decimal.
pub fn decimal(n: u64) -> (text: String)
    ensures
        text@ == decimal_text(n as nat),
    decreases n,
{
    if n < 10 {
        digit_to_text(n)
    } else {
        let high = decimal(n / 10);
        let low = digit_to_text(n % 10);
        let text = high.concat(low.as_str());
        assert(text@ =~= decimal_text(n as nat));
        text
    }
}

fn literal(s: &str) -> (text: String)
    ensures
        text@ == s@,
{
    s.to_owned()
}

/// The state of a peer, as the daemon reports it.
#[derive(Debug, Clone, Copy, PartialEq, Eq)]
pub enum PeerStatus {
    /// Never contacted.
    Unknown,
    /// Public keys were exchanged.
    Known,
}

impl PeerStatus {
    /// The state's name.
    pub open spec fn text(self) -> Seq<char> {
        match self {
            PeerStatus::Unknown => "Unknown"@,
            PeerStatus::Known => "Known"@,
        }
    }

    /// The state's name.
    pub fn to_text(&self) -> (t: String)
        ensures
            t@ == self.text(),
    {
        match self {
            PeerStatus::Unknown => literal("Unknown"),
            PeerStatus::Known => literal("Known"),
        }
    }
}

/// The state of a service, as the daemon reports it.
#[derive(Debug, Clone, Copy, PartialEq, Eq)]
pub enum ServiceStatus {
    Created,
    Registered,
    Located,
    Subscribed,
}

impl ServiceStatus {
    /// The state's name.
    pub open spec fn text(self) -> Seq<char> {
        match self {
            ServiceStatus::Created => "Created"@,
            ServiceStatus::Registered => "Registered"@,
            ServiceStatus::Located => "Located"@,
            ServiceStatus::Subscribed => "Subscribed"@,
        }
    }

    /// The state's name.
    pub fn to_text(&self) -> (t: String)
        ensures
            t@ == self.text(),
    {
        match self {
            ServiceStatus::Created => literal("Created"),
            ServiceStatus::Registered => literal("Registered"),
            ServiceStatus::Located => literal("Located"),
            ServiceStatus::Subscribed => literal("Subscribed"),
        }
    }
}

/// What the peer table shows of a peer. `address` is the peer's socket
/// address as text; `seen` is when it was last seen, as text, if ever.
pub struct PeerSummary {
    pub id: [u8; 32],
    pub index: usize,
    pub state: PeerStatus,
    pub address: String,
    pub seen: Option<String>,
    pub sent: u64,
    pub received: u64,
}

/// What the service table shows of a service. `updated` is when it was last
/// updated, as text, if ever.
pub struct ServiceSummary {
    pub id: [u8; 32],
    pub index: usize,
    pub state: ServiceStatus,
    pub updated: Option<String>,
    pub public_key: [u8; 32],
    pub has_private_key: bool,
    pub has_secret_key: bool,
    pub subscribers: usize,
    pub replicas: usize,
}

/// The text of each cell of a row.
pub open spec fn cells(row: Seq<String>) -> Seq<Seq<char>> {
    row.map_values(|c: String| c@)
}

/// The text of each cell of each row of a table.
pub open spec fn table_cells(table: Seq<Vec<String>>) -> Seq<Seq<Seq<char>>> {
    table.map_values(|row: Vec<String>| cells(row@))
}

/// A time that may be missing: its text, or `Never`.
pub open spec fn when_text(t: Option<String>) -> Seq<char> {
    match t {
        Some(s) => s@,
        None => "Never"@,
    }
}

/// Whether a key is held: `True` or `False`.
pub open spec fn held_text(b: bool) -> Seq<char> {
    if b { "True"@ } else { "False"@ }
}

/// The heading of the peer table.
pub open spec fn peer_heading() -> Seq<Seq<char>> {
    seq!["Peer ID"@, "Index"@, "State"@, "Address(es)"@, "Seen"@, "Sent"@, "Received"@, "Blocked"@]
}

/// The heading of the service table.
pub open spec fn service_heading() -> Seq<Seq<char>> {
    seq![
        "Service ID"@,
        "Index"@,
        "State"@,
        "Updated"@,
        "PublicKey"@,
        "PrivateKey"@,
        "SecretKey"@,
        "Subscribers"@,
        "Replicas"@,
    ]
}

/// The row of the peer table that shows `p`.
pub open spec fn peer_row_text(p: PeerSummary) -> Seq<Seq<char>> {
    seq![
        base64_url(p.id@),
        decimal_text(p.index as nat),
        p.state.text(),
        p.address@,
        when_text(p.seen),
        decimal_text(p.sent as nat),
        decimal_text(p.received as nat),
    ]
}

/// The row of the service table that shows `s`.
pub open spec fn service_row_text(s: ServiceSummary) -> Seq<Seq<char>> {
    seq![
        base64_url(s.id@),
        decimal_text(s.index as nat),
        s.state.text(),
        when_text(s.updated),
        base64_url(s.public_key@),
        held_text(s.has_private_key),
        held_text(s.has_secret_key),
        decimal_text(s.subscribers as nat),
        decimal_text(s.replicas as nat),
    ]
}

fn when_to_text(t: &Option<String>) -> (text: String)
    ensures
        text@ == when_text(*t),
{
    match t {
        Some(s) => s.clone(),
        None => literal("Never"),
    }
}

fn held_to_text(b: bool) -> (text: String)
    ensures
        text@ == held_text(b),
{
    if b {
        literal("True")
    } else {
        literal("False")
    }
}

fn peer_heading_row() -> (row: Vec<String>)
    ensures
        cells(row@) == peer_heading(),
{
    let row = vec![
        literal("Peer ID"),
        literal("Index"),
        literal("State"),
        literal("Address(es)"),
        literal("Seen"),
        literal("Sent"),
        literal("Received"),
        literal("Blocked"),
    ];
    assert(cells(row@) =~= peer_heading());
    row
}

fn service_heading_row() -> (row: Vec<String>)
    ensures
        cells(row@) == service_heading(),
{
    let row = vec![
        literal("Service ID"),
        literal("Index"),
        literal("State"),
        literal("Updated"),
        literal("PublicKey"),
        literal("PrivateKey"),
        literal("SecretKey"),
        literal("Subscribers"),
        literal("Replicas"),
    ];
    assert(cells(row@) =~= service_heading());
    row
}

/// The row of the peer table that shows `p`.
pub fn peer_row(p: &PeerSummary) -> (row: Vec<String>)
    ensures
        cells(row@) == peer_row_text(*p),
{
    let row = vec![
        id_to_text(&p.id),
        decimal(p.index as u64),
        p.state.to_text(),
        p.address.clone(),
        when_to_text(&p.seen),
        decimal(p.sent),
        decimal(p.received),
    ];
    assert(cells(row@) =~= peer_row_text(*p));
    row
}

/// The row of the service table that shows `s`.
pub fn service_row(s: &ServiceSummary) -> (row: Vec<String>)
    ensures
        cells(row@) == service_row_text(*s),
{
    let row = vec![
        id_to_text(&s.id),
        decimal(s.index as u64),
        s.state.to_text(),
        when_to_text(&s.updated),
        id_to_text(&s.public_key),
        held_to_text(s.has_private_key),
        held_to_text(s.has_secret_key),
        decimal(s.subscribers as u64),
        decimal(s.replicas as u64),
    ];
    assert(cells(row@) =~= service_row_text(*s));
    row
}

/// The peer table: the heading, then one row per peer in order; `None` where
/// there is no peer to show.
pub fn peer_table(peers: &Vec<PeerSummary>) -> (table: Option<Vec<Vec<String>>>)
    ensures
        table is None <==> peers.len() == 0,
        table matches Some(rows) ==> table_cells(rows@) == seq![peer_heading()] + peers@.map_values(
            |p: PeerSummary| peer_row_text(p),
        ),
{
    if peers.len() == 0 {
        return None;
    }
    let mut rows: Vec<Vec<String>> = Vec::new();
    rows.push(peer_heading_row());
    let mut i: usize = 0;
    while i < peers.len()
        invariant
            i <= peers.len(),
            table_cells(rows@) =~= seq![peer_heading()] + peers@.take(i as int).map_values(
                |p: PeerSummary| peer_row_text(p),
            ),
        decreases peers.len() - i,
    {
        let ghost prev = rows@;
        let row = peer_row(&peers[i]);
        rows.push(row);
        proof {
            assert(peers@.take(i + 1) =~= peers@.take(i as int).push(peers@[i as int]));
            assert(table_cells(rows@) =~= table_cells(prev).push(cells(rows@[rows@.len() - 1]@)));
            assert(peers@.take(i + 1).map_values(|x| peer_row_text(x)) =~= peers@.take(i as int).map_values(|x| peer_row_text(x)).push(peer_row_text(peers@[i as int])));
        }
        i = i + 1;
    }
    proof {
        assert(peers@.take(peers.len() as int) =~= peers@);
    }
    Some(rows)
}

/// The service table: the heading, then one row per service in order; `None`
/// where there is no service to show.
pub fn service_table(services: &Vec<ServiceSummary>) -> (table: Option<Vec<Vec<String>>>)
    ensures
        table is None <==> services.len() == 0,
        table matches Some(rows) ==> table_cells(rows@) == seq![service_heading()]
            + services@.map_values(|s: ServiceSummary| service_row_text(s)),
{
    if services.len() == 0 {
        return None;
    }
    let mut rows: Vec<Vec<String>> = Vec::new();
    rows.push(service_heading_row());
    let mut i: usize = 0;
    while i < services.len()
        invariant
            i <= services.len(),
            table_cells(rows@) =~= seq![service_heading()] + services@.take(i as int).map_values(
                |s: ServiceSummary| service_row_text(s),
            ),
        decreases services.len() - i,
    {
        let ghost prev = rows@;
        let row = service_row(&services[i]);
        rows.push(row);
        proof {
            assert(services@.take(i + 1) =~= services@.take(i as int).push(services@[i as int]));
            assert(table_cells(rows@) =~= table_cells(prev).push(cells(rows@[rows@.len() - 1]@)));
            assert(services@.take(i + 1).map_values(|x| service_row_text(x)) =~= services@.take(i as int).map_values(|x| service_row_text(x)).push(service_row_text(services@[i as int])));
        }
        i = i + 1;
    }
    proof {
        assert(services@.take(services.len() as int) =~= services@);
    }
    Some(rows)
}

/// How an answer of the daemon is shown to a user.
pub enum Presentation {
    /// The daemon's status, as a line.
    Status(StatusInfo),
    /// A service that was created or located: a line saying so, then the
    /// service table with that one service.
    CreatedOrLocated(ServiceInfo),
    /// The service table.
    Services(Vec<ServiceInfo>),
    /// The peer table.
    Peers(Vec<(Array32, PeerInfo)>),
    /// The data objects, one line each.
    Data(Vec<DataInfo>),
    /// The daemon's error, reported as an error.
    Failure(DaemonError),
    /// A warning that the command is not yet implemented.
    NotImplemented,
    /// A warning that the answer is not handled, showing the answer.
    Unhandled(Reply),
}

/// How each kind of answer is shown.
pub open spec fn presentation_of(r: Reply) -> Presentation {
    match r {
        Reply::Status(status) => Presentation::Status(status),
        Reply::Service { id: _, info } => Presentation::CreatedOrLocated(info),
        Reply::Services(services) => Presentation::Services(services),
        Reply::Peers(peers) => Presentation::Peers(peers),
        Reply::Data(data) => Presentation::Data(data),
        Reply::Error(e) => Presentation::Failure(e),
        Reply::Unrecognised => Presentation::NotImplemented,
        _ => Presentation::Unhandled(r),
    }
}

/// How answer `r` is shown.
pub fn presentation(r: Reply) -> (p: Presentation)
    ensures
        p == presentation_of(r),
{
    match r {
        Reply::Status(status) => Presentation::Status(status),
        Reply::Service { id: _, info } => Presentation::CreatedOrLocated(info),
        Reply::Services(services) => Presentation::Services(services),
        Reply::Peers(peers) => Presentation::Peers(peers),
        Reply::Data(data) => Presentation::Data(data),
        Reply::Error(e) => Presentation::Failure(e),
        Reply::Unrecognised => Presentation::NotImplemented,
        other => Presentation::Unhandled(other),
    }
}

} // verus!
