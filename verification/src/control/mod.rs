//! Domain rules: identity, configuration, FIFO queue, transactions, token and messages.
//!
//! The controls validate data private to a node; they introduce no shared memory.

pub mod c_atm;

pub use c_atm::CAtm;
pub mod c_transaction;

pub use c_transaction::CTransaction;
pub mod c_token;

pub use c_token::CToken;
pub mod c_node;

pub use c_node::{CNode, EVisitDecision};
pub mod c_config;

pub use c_config::CConfig;
pub mod c_message;

pub use c_message::CMessage;
pub mod c_log;

pub use c_log::CLog;
pub mod c_udp;

pub use c_udp::CUdpRoute;
