//! Routing of the log copies over UDP: ports, recipients and acceptance of datagrams.

use crate::control::c_atm::{alias_position, CAtm};
use crate::control::c_log::{event_label_text, CLog};
use crate::entity::e_socket_addr::is_loopback_ip;
use crate::entity::ESocketAddr;
use crate::text::joined;
use vstd::prelude::*;

verus! {

/// Largest datagram that a log copy may take, in bytes.
pub const MAX_DATAGRAM_BYTES: usize = 8192;

/// What a received log record says, as plain values.
#[derive(Clone, Debug, PartialEq, Eq)]
pub struct ERemoteRecord {
    /// The `atm` field, when it is a string.
    pub atm: Option<String>,
    /// The `event` field, when it is a string.
    pub event: Option<String>,
    /// The `hop` field, when it is an unsigned integer.
    pub hop: Option<u64>,
    /// The `hop` field written as JSON (`null` when absent).
    pub hop_text: String,
    /// The `balance` field written as JSON (`null` when absent).
    pub balance_text: String,
}

/// Mathematical form of a received record.
pub struct RemoteRecordView {
    /// The `atm` field.
    pub atm: Option<Seq<char>>,
    /// The `event` field.
    pub event: Option<Seq<char>>,
    /// The `hop` field.
    pub hop: Option<u64>,
    /// The `hop` field as JSON text.
    pub hop_text: Seq<char>,
    /// The `balance` field as JSON text.
    pub balance_text: Seq<char>,
}

impl View for ERemoteRecord {
    type V = RemoteRecordView;

    open spec fn view(&self) -> RemoteRecordView {
        RemoteRecordView {
            atm: match self.atm {
                Some(a) => Some(a@),
                None => None,
            },
            event: match self.event {
                Some(e) => Some(e@),
                None => None,
            },
            hop: self.hop,
            hop_text: self.hop_text@,
            balance_text: self.balance_text@,
        }
    }
}

/// The record that `serde_json` reads from a datagram's bytes, or `None` when they
/// are not JSON.
pub uninterp spec fn remote_record_of(bytes: Seq<u8>) -> Option<RemoteRecordView>;

/// Reads a datagram as a JSON value with `serde_json::from_slice` and picks the
/// fields that the log copies use: `atm` and `event` when they are strings, `hop`
/// when it is an unsigned integer, and `hop` and `balance` written back as JSON text.
/// What JSON the bytes hold is left to the name [`remote_record_of`].
#[verifier::external_body]
fn decode_remote_record(bytes: &[u8]) -> (r: Option<ERemoteRecord>)
    ensures
        match r {
            Some(rec) => remote_record_of(bytes@) == Some(rec@),
            None => remote_record_of(bytes@) is None,
        },
{
    let record: serde_json::Value = serde_json::from_slice(bytes).ok()?;
    Some(
        ERemoteRecord {
            atm: record["atm"].as_str().map(String::from),
            event: record["event"].as_str().map(String::from),
            hop: record["hop"].as_u64(),
            hop_text: record["hop"].to_string(),
            balance_text: record["balance"].to_string(),
        },
    )
}

/// Whether `base` and `node` give four valid ports `base..=base+3` and a node from 1 to 4.
pub open spec fn udp_config_valid(node: u16, base: u16) -> bool {
    1 <= node <= 4 && 1024 <= base <= 65532
}

/// Message for an invalid node or base port.
pub open spec fn udp_config_text() -> Seq<char> {
    "nodo o porte UDP non validi"@
}

/// Message for a record too long for a datagram.
pub open spec fn datagram_text() -> Seq<char> {
    "log UDP troppo lungo"@
}

/// The `k`-th of the three other nodes, in increasing order, for node `node`.
pub open spec fn other_node(node: u16, k: int) -> int {
    if k + 1 < node {
        k + 1
    } else {
        k + 2
    }
}

/// Whether node `node` on base port `base` shows a record received from `peer`: the
/// record names a node by a valid alias, the datagram comes from that node's port on
/// the loopback interface and not from this node, and the record's hop is within the
/// console limit.
pub open spec fn record_admitted(
    node: u16,
    base: u16,
    peer: ESocketAddr,
    record: RemoteRecordView,
    limit: Option<u64>,
) -> bool {
    &&& record.atm matches Some(a)
    &&& alias_position(a) matches Some(p)
    &&& is_loopback_ip(peer.ip)
    &&& peer.port == base + p
    &&& p + 1 != node
    &&& !(limit matches Some(l) && record.hop matches Some(h) && h > l)
}

/// The console line of a received record: source, label, hop and balance.
pub open spec fn remote_line_text(record: RemoteRecordView) -> Seq<char> {
    "[UDP]["@ + record.atm->0 + "] "@ + event_label_text(
        match record.event {
            Some(e) => e,
            None => "evento"@,
        },
    ) + " | hop="@ + record.hop_text + " | saldo="@ + record.balance_text
}

/// Routing rules of the log copies, independent of the token's TCP transport.
///
/// The sender sends a copy to each of the other three ATMs; its own console writes
/// the local log already. This is distribution by unicast, not IP broadcast. No
/// datagram grants permission to operate.
pub struct CUdpRoute;

impl CUdpRoute {
    /// Checks the node and the base port, and returns the node's own UDP port.
    ///
    /// # Errors
    /// Refuses a node outside 1..=4 and a base outside 1024..=65532.
    pub fn own_port(node: u16, base: u16) -> (r: Result<u16, String>)
        ensures
            r is Ok <==> udp_config_valid(node, base),
            r matches Ok(port) ==> port == base + node - 1,
            r matches Err(e) ==> e@ == udp_config_text(),
    {
        if !(1 <= node && node <= 4) || !(1024 <= base && base <= 65532) {
            return Err(String::from_str("nodo o porte UDP non validi"));
        }
        Ok(base + (node - 1))
    }

    /// The ports of the three other nodes, in increasing order.
    pub fn destinations(node: u16, base: u16) -> (r: Vec<u16>)
        requires
            udp_config_valid(node, base),
        ensures
            r@.len() == 3,
            forall|k: int| 0 <= k < 3 ==> r@[k] == base + other_node(node, k) - 1,
    {
        let mut r: Vec<u16> = Vec::new();
        let mut id: u16 = 1;
        while id <= 4
            invariant
                udp_config_valid(node, base),
                1 <= id <= 5,
                r@.len() == if id <= node {
                    id - 1
                } else {
                    id - 2
                },
                forall|k: int| 0 <= k < r@.len() ==> r@[k] == base + other_node(node, k) - 1,
            decreases 5 - id,
        {
            if id != node {
                r.push(base + (id - 1));
            }
            id = id + 1;
        }
        r
    }

    /// Checks the length of a serialised record before it is sent.
    ///
    /// # Errors
    /// Refuses records longer than [`MAX_DATAGRAM_BYTES`].
    pub fn check_datagram(len: usize) -> (r: Result<(), String>)
        ensures
            r is Ok <==> len <= MAX_DATAGRAM_BYTES,
            r matches Err(e) ==> e@ == datagram_text(),
    {
        if len > MAX_DATAGRAM_BYTES {
            Err(String::from_str("log UDP troppo lungo"))
        } else {
            Ok(())
        }
    }

    /// Whether node `node` on base port `base` shows a record received from `peer`.
    ///
    /// This discards stray or reflected datagrams; it is no cryptographic
    /// authentication.
    pub fn admits(
        node: u16,
        base: u16,
        peer: ESocketAddr,
        record: &ERemoteRecord,
        limit: Option<u64>,
    ) -> (r: bool)
        requires
            udp_config_valid(node, base),
        ensures
            r == record_admitted(node, base, peer, record@, limit),
    {
        let atm = match &record.atm {
            Some(atm) => atm,
            None => {
                return false;
            },
        };
        let identity = match CAtm::build(atm.as_str()) {
            Ok(identity) => identity,
            Err(_) => {
                return false;
            },
        };
        let index = match CAtm::index(&identity) {
            Ok(index) => index,
            Err(_) => {
                return false;
            },
        };
        proof {
            crate::control::c_atm::lemma_canonical_id_position(alias_position(atm@)->0);
        }
        if !peer.is_loopback() || peer.port != base + index || index + 1 == node {
            return false;
        }
        match (limit, record.hop) {
            (Some(last), Some(hop)) => hop <= last,
            _ => true,
        }
    }

    /// Reads a datagram received from `peer` and returns its record when node `node`
    /// shows it; `None` for bytes that are not JSON and for records not admitted.
    pub fn receive(
        node: u16,
        base: u16,
        peer: ESocketAddr,
        bytes: &[u8],
        limit: Option<u64>,
    ) -> (r: Option<ERemoteRecord>)
        requires
            udp_config_valid(node, base),
        ensures
            match r {
                Some(rec) => remote_record_of(bytes@) == Some(rec@) && record_admitted(
                    node,
                    base,
                    peer,
                    rec@,
                    limit,
                ),
                None => match remote_record_of(bytes@) {
                    Some(rec) => !record_admitted(node, base, peer, rec, limit),
                    None => true,
                },
            },
    {
        let record = decode_remote_record(bytes)?;
        if Self::admits(node, base, peer, &record, limit) {
            Some(record)
        } else {
            None
        }
    }

    /// The console line of a received record, such as
    /// `[UDP][ATM2] TOKEN RICEVUTO | hop=1 | saldo=1000`.
    pub fn console_line(record: &ERemoteRecord) -> (r: String)
        requires
            record.atm is Some,
        ensures
            r@ == remote_line_text(record@),
    {
        let atm = match &record.atm {
            Some(atm) => atm.as_str(),
            None => "",
        };
        let line = joined(String::from_str("[UDP]["), atm);
        let line = joined(line, "] ");
        let event = match &record.event {
            Some(e) => e.as_str(),
            None => "evento",
        };
        let line = joined(line, CLog::event_label(event));
        let line = joined(line, " | hop=");
        let line = joined(line, record.hop_text.as_str());
        let line = joined(line, " | saldo=");
        joined(line, record.balance_text.as_str())
    }
}

/// The three recipients of a node's log copies are the other nodes' ports: all
/// distinct, inside `base..=base+3`, and never the node's own port.
pub proof fn lemma_destinations_exclude_self(node: u16, base: u16, k: int, j: int)
    requires
        udp_config_valid(node, base),
        0 <= k < 3,
        0 <= j < 3,
        k != j,
    ensures
        other_node(node, k) != node,
        1 <= other_node(node, k) <= 4,
        other_node(node, k) != other_node(node, j),
{
}

/// The console hop limit hides only records whose hop is greater than it: whatever
/// the limit, a record is shown exactly when it would be shown without a limit and,
/// if both the limit and the record's hop are present, the hop does not exceed the
/// limit. In particular a record without a hop, such as a node's start-up, is shown
/// whenever its source checks pass.
pub proof fn lemma_hop_limit_hides_only_later_hops(
    node: u16,
    base: u16,
    peer: ESocketAddr,
    record: RemoteRecordView,
    limit: Option<u64>,
)
    ensures
        record_admitted(node, base, peer, record, limit) <==> (record_admitted(
            node,
            base,
            peer,
            record,
            None,
        ) && match (limit, record.hop) {
            (Some(l), Some(h)) => h <= l,
            _ => true,
        }),
        record.hop is None ==> (record_admitted(node, base, peer, record, limit)
            <==> record_admitted(node, base, peer, record, None)),
{
}

} // verus!
