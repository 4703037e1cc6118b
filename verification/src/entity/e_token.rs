//! Permission, copy of the balance and route metadata carried by the token.

use crate::entity::EAtm;
use vstd::prelude::*;

verus! {

/// Permission that circulates in the logical ring with a copy of the last balance written.
///
/// The authoritative balance is read from the account file inside the critical
/// section. The balance field lets the nodes check consistency and log the pass,
/// but it does not replace reading the file and does not by itself authorise a
/// transaction.
#[derive(Clone, Debug, Eq, PartialEq)]
pub struct EToken {
    /// Copy of the last balance written to the file, a non-negative integer.
    pub balance: i64,
    /// Number of visits of the token; grows by one at every visit, idle ones too.
    pub hop: u64,
    /// Last ATM that processed the token; `None` only at bootstrap.
    pub last_holder: Option<EAtm>,
}

/// Mathematical form of a token.
pub struct TokenView {
    /// Copy of the balance.
    pub balance: i64,
    /// Number of visits.
    pub hop: u64,
    /// Identifier of the last holder.
    pub last_holder: Option<Seq<char>>,
}

impl View for EToken {
    type V = TokenView;

    open spec fn view(&self) -> TokenView {
        TokenView {
            balance: self.balance,
            hop: self.hop,
            last_holder: match self.last_holder {
                Some(a) => Some(a@),
                None => None,
            },
        }
    }
}

} // verus!
