//! Data entities of the banking simulation.
//!
//! The `e_*` modules hold structures prefixed with `E`; the `enum_*` modules hold
//! enumerations prefixed with `Enum`. Validation rules live in the controls; the
//! public fields make validation necessary at the domain's borders.

pub mod e_atm;
pub mod e_node_state;
pub mod e_socket_addr;
pub mod e_token;
pub mod e_token_processing_report;
pub mod e_transaction;
pub mod e_transaction_outcome;
pub mod enum_transaction_kind;
pub mod enum_transaction_status;

pub use e_atm::EAtm;
pub use e_node_state::{ENodeState, NodeStateView};
pub use e_socket_addr::{EIpAddr, ESocketAddr};
pub use e_token::{EToken, TokenView};
pub use e_token_processing_report::{ETokenProcessingReport, ReportView};
pub use e_transaction::ETransaction;
pub use e_transaction_outcome::{ETransactionOutcome, OutcomeView};
pub use enum_transaction_kind::EnumTransactionKind;
pub use enum_transaction_status::{EnumTransactionStatus, StatusView};

use vstd::prelude::*;

verus! {

/// Number of nodes that the ring requires: exactly four.
pub const REQUIRED_NODE_COUNT: usize = 4;

} // verus!
