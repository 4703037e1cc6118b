//! Private queue and history of a node.

use crate::entity::{EAtm, ETransaction, ETransactionOutcome, OutcomeView};
use std::collections::VecDeque;
use vstd::prelude::*;

verus! {

/// Private state owned by a single ATM process.
///
/// This entity holds data only; the processing rules are in [`crate::CNode`].
#[derive(Clone, Debug)]
pub struct ENodeState {
    /// Identifier of this ATM.
    pub atm: EAtm,
    /// Local FIFO queue of the requests still to be attempted.
    pub pending: VecDeque<ETransaction>,
    /// Local history of the attempts, completed or refused.
    pub completed: Vec<ETransactionOutcome>,
}

/// Mathematical form of a node's state.
pub struct NodeStateView {
    /// Identifier of the ATM.
    pub atm: Seq<char>,
    /// Queued requests, first to be attempted first.
    pub pending: Seq<ETransaction>,
    /// History of attempts, oldest first.
    pub completed: Seq<OutcomeView>,
}

/// The views of a sequence of outcomes.
pub open spec fn outcome_views(s: Seq<ETransactionOutcome>) -> Seq<OutcomeView> {
    s.map_values(|o: ETransactionOutcome| o@)
}

impl View for ENodeState {
    type V = NodeStateView;

    open spec fn view(&self) -> NodeStateView {
        NodeStateView {
            atm: self.atm@,
            pending: self.pending@,
            completed: outcome_views(self.completed@),
        }
    }
}

} // verus!
