//! Allowed banking operations.

use vstd::prelude::*;

verus! {

/// Operation carried out in a single critical section.
#[derive(Clone, Copy, Debug, Eq, PartialEq)]
pub enum EnumTransactionKind {
    /// Deposit: adds the amount to the balance, with an overflow check.
    Deposit,
    /// Withdrawal: subtracts the amount only when the balance is sufficient.
    Withdrawal,
}

impl EnumTransactionKind {
    /// The lower-case name of the operation, as it is displayed.
    pub fn text(&self) -> (r: &'static str)
        ensures
            r@ == kind_text(*self),
    {
        match self {
            EnumTransactionKind::Deposit => "deposit",
            EnumTransactionKind::Withdrawal => "withdrawal",
        }
    }
}

/// The displayed name of an operation.
pub open spec fn kind_text(kind: EnumTransactionKind) -> Seq<char> {
    match kind {
        EnumTransactionKind::Deposit => "deposit"@,
        EnumTransactionKind::Withdrawal => "withdrawal"@,
    }
}

} // verus!
