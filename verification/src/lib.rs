//! Banking simulation over a token ring of four ATMs, with mutual exclusion by token.
//!
//! The binary starts one ATM per process. The authoritative balance is in the
//! account file; each node owns only its own queue and its local history. The
//! domain checks are kept apart from the TCP transport and from log observation.

pub mod bridge;
pub mod control;
pub mod entity;
pub mod text;

pub use bridge::{BAccount, BTcp};
pub use control::{
    CAtm, CConfig, CLog, CMessage, CNode, CToken, CTransaction, CUdpRoute, EVisitDecision,
};
pub use entity::{
    EAtm, EIpAddr, ENodeState, ESocketAddr, EToken, ETokenProcessingReport, ETransaction, ETransactionOutcome,
    EnumTransactionKind, EnumTransactionStatus, REQUIRED_NODE_COUNT,
};

use vstd::prelude::*;

verus! {

/// Initial balance of 1000 units that the banking scenario starts from.
pub const SPEC_INITIAL_BALANCE: i64 = 1000;

} // verus!
