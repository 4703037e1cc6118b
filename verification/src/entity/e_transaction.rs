//! Request for a deposit or a withdrawal.

use crate::entity::enum_transaction_kind::{kind_text, EnumTransactionKind};
use crate::text::{i64_text, int_text, joined};
use vstd::prelude::*;

verus! {

/// Banking operation request.
///
/// The fields hold data only; construction and validation belong to
/// [`crate::CTransaction`].
#[derive(Clone, Copy, Debug, Eq, PartialEq)]
pub struct ETransaction {
    /// Kind of operation requested.
    pub kind: EnumTransactionKind,
    /// Strictly positive integer amount; it is checked again before any arithmetic.
    pub amount: i64,
}

/// The displayed form of a request: its kind, a space and its amount.
pub open spec fn transaction_text(t: ETransaction) -> Seq<char> {
    kind_text(t.kind) + " "@ + int_text(t.amount as int)
}

impl ETransaction {
    /// The request as it is displayed, for example `withdrawal 200`.
    pub fn text(&self) -> (r: String)
        ensures
            r@ == transaction_text(*self),
    {
        let head = joined(String::from_str(self.kind.text()), " ");
        let amount = i64_text(self.amount);
        joined(head, amount.as_str())
    }
}

} // verus!
