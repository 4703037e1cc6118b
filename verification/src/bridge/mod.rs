//! Rules of the adapters for TCP, the account file and the distribution of logs.
//!
//! The types prefixed with `B` hold what the input/output adapters decide; the
//! reading and writing themselves stand in the program. Audit files take no part
//! in the distributed mutual exclusion.

pub mod b_account;

pub use b_account::BAccount;
pub mod b_tcp;

pub use b_tcp::BTcp;
