//! Result of processing one visit of the token.

use crate::entity::{EAtm, EToken, ETransactionOutcome, OutcomeView, TokenView};
use vstd::prelude::*;

verus! {

/// Report of a single visit of the token to an ATM.
#[derive(Clone, Debug, Eq, PartialEq)]
pub struct ETokenProcessingReport {
    /// ATM that processed the visit.
    pub atm: EAtm,
    /// Balance read when the token arrived.
    pub received_balance: i64,
    /// Balance after the possible operation, equal to the outgoing token's.
    pub forwarded_balance: i64,
    /// Token to forward to the successor only.
    pub token: EToken,
    /// Result of the attempt, or `None` when no request was queued.
    pub outcome: Option<ETransactionOutcome>,
    /// Number of requests left in the queue for later visits.
    pub remaining_pending: usize,
}

/// Mathematical form of a report.
pub struct ReportView {
    /// Identifier of the ATM.
    pub atm: Seq<char>,
    /// Balance on arrival.
    pub received_balance: i64,
    /// Balance on departure.
    pub forwarded_balance: i64,
    /// Outgoing token.
    pub token: TokenView,
    /// Attempt made during the visit, if any.
    pub outcome: Option<OutcomeView>,
    /// Requests still queued.
    pub remaining_pending: usize,
}

impl View for ETokenProcessingReport {
    type V = ReportView;

    open spec fn view(&self) -> ReportView {
        ReportView {
            atm: self.atm@,
            received_balance: self.received_balance,
            forwarded_balance: self.forwarded_balance,
            token: self.token@,
            outcome: match self.outcome {
                Some(o) => Some(o@),
                None => None,
            },
            remaining_pending: self.remaining_pending,
        }
    }
}

} // verus!
