//! Possible results of a transaction.

use vstd::prelude::*;

verus! {

/// Result of a request attempted inside the critical section.
#[derive(Clone, Debug, Eq, PartialEq)]
pub enum EnumTransactionStatus {
    /// Operation completed with an update of the balance.
    Completed,
    /// Operation refused, for example for insufficient funds; balance unchanged.
    Rejected {
        /// Readable reason of the refusal.
        reason: String,
    },
}

/// Mathematical form of a status: the reason as a sequence of characters.
pub enum StatusView {
    /// Completed with an update of the balance.
    Completed,
    /// Refused, with its reason.
    Rejected(Seq<char>),
}

impl View for EnumTransactionStatus {
    type V = StatusView;

    open spec fn view(&self) -> StatusView {
        match self {
            EnumTransactionStatus::Completed => StatusView::Completed,
            EnumTransactionStatus::Rejected { reason } => StatusView::Rejected(reason@),
        }
    }
}

impl EnumTransactionStatus {
    /// A copy of this status with the same reason.
    pub fn duplicate(&self) -> (r: EnumTransactionStatus)
        ensures
            r@ == self@,
    {
        match self {
            EnumTransactionStatus::Completed => EnumTransactionStatus::Completed,
            EnumTransactionStatus::Rejected { reason } => EnumTransactionStatus::Rejected {
                reason: reason.clone(),
            },
        }
    }
}

} // verus!
