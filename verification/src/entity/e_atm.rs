//! Logical identifier of an ATM.

use vstd::prelude::*;

verus! {

/// Logical identifier of one ATM process.
///
/// The field `id` holds one of the canonical values `ATM1`, `ATM2`, `ATM3`, `ATM4`.
/// Validation is done by [`crate::CAtm`].
#[derive(Clone, Debug, Eq, Hash, Ord, PartialEq, PartialOrd)]
pub struct EAtm {
    /// Canonical name of the ATM; not the operating system's process id.
    pub id: String,
}

impl View for EAtm {
    type V = Seq<char>;

    open spec fn view(&self) -> Seq<char> {
        self.id@
    }
}

impl EAtm {
    /// A copy of this identifier with the same text.
    pub fn duplicate(&self) -> (r: EAtm)
        ensures
            r@ == self@,
    {
        EAtm { id: self.id.clone() }
    }
}

} // verus!
