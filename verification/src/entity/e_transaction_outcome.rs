//! Complete record of a transaction attempt.

use crate::entity::{EAtm, ETransaction, EnumTransactionStatus, StatusView};
use vstd::prelude::*;

verus! {

/// Complete record of a transaction attempt.
#[derive(Clone, Debug, Eq, PartialEq)]
pub struct ETransactionOutcome {
    /// ATM that held the token and ran the critical section.
    pub atm: EAtm,
    /// Request actually attempted.
    pub transaction: ETransaction,
    /// Balance before validation and update.
    pub previous_balance: i64,
    /// Resulting balance; unchanged on refusal.
    pub new_balance: i64,
    /// Result of the attempt, with the reason when refused.
    pub status: EnumTransactionStatus,
}

/// Mathematical form of an outcome.
pub struct OutcomeView {
    /// Identifier of the ATM.
    pub atm: Seq<char>,
    /// Request attempted.
    pub transaction: ETransaction,
    /// Balance before the attempt.
    pub previous_balance: i64,
    /// Balance after the attempt.
    pub new_balance: i64,
    /// Result of the attempt.
    pub status: StatusView,
}

impl View for ETransactionOutcome {
    type V = OutcomeView;

    open spec fn view(&self) -> OutcomeView {
        OutcomeView {
            atm: self.atm@,
            transaction: self.transaction,
            previous_balance: self.previous_balance,
            new_balance: self.new_balance,
            status: self.status@,
        }
    }
}

impl ETransactionOutcome {
    /// A copy of this record with the same fields.
    pub fn duplicate(&self) -> (r: ETransactionOutcome)
        ensures
            r@ == self@,
    {
        ETransactionOutcome {
            atm: self.atm.duplicate(),
            transaction: self.transaction,
            previous_balance: self.previous_balance,
            new_balance: self.new_balance,
            status: self.status.duplicate(),
        }
    }
}

} // verus!
