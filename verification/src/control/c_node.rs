//! Private state of an ATM and processing of one request per visit of the token.

use crate::control::c_atm::{atm_position, index_number_text, number_error_text, successor_id, CAtm};
use crate::control::c_token::{
    lemma_route_advances, processed_by, route_error, route_ok, token_valid, validation_error,
    CToken,
};
use crate::control::c_transaction::{
    applied_outcome, lemma_apply_conserves, CTransaction,
};
use crate::entity::{EnumTransactionKind, StatusView};
use crate::entity::e_node_state::outcome_views;
use crate::entity::{
    EAtm, ENodeState, EToken, ETokenProcessingReport, ETransaction, ETransactionOutcome,
    NodeStateView, OutcomeView, ReportView, TokenView,
};
use std::collections::VecDeque;
use vstd::prelude::*;

verus! {

/// The node's state and the report after a visit of token `t`, when the visit is
/// accepted: at most one request, the first queued, is attempted and moved to the
/// history; the token leaves with the resulting balance, one more hop and this
/// node as last holder.
pub open spec fn visit(s: NodeStateView, t: TokenView) -> (NodeStateView, ReportView) {
    if s.pending.len() == 0 {
        (
            s,
            ReportView {
                atm: s.atm,
                received_balance: t.balance,
                forwarded_balance: t.balance,
                token: processed_by(t, s.atm),
                outcome: None,
                remaining_pending: 0,
            },
        )
    } else {
        let o = applied_outcome(s.atm, t.balance, s.pending[0]);
        (
            NodeStateView {
                atm: s.atm,
                pending: s.pending.drop_first(),
                completed: s.completed.push(o),
            },
            ReportView {
                atm: s.atm,
                received_balance: t.balance,
                forwarded_balance: o.new_balance,
                token: processed_by(TokenView { balance: o.new_balance, ..t }, s.atm),
                outcome: Some(o),
                remaining_pending: (s.pending.len() - 1) as usize,
            },
        )
    }
}

/// Whether a node in state `s` accepts the token `t` for processing.
pub open spec fn visit_accepted(s: NodeStateView, t: TokenView) -> bool {
    token_valid(t) && atm_position(s.atm) is Some
}

/// Message of a refused visit.
pub open spec fn visit_error(s: NodeStateView, t: TokenView) -> Seq<char> {
    if validation_error(t) is Some {
        validation_error(t)->0
    } else {
        number_error_text(index_number_text(s.atm))
    }
}

/// What a node does with a token that arrives while it expects a given hop.
#[derive(Clone, Debug, PartialEq, Eq)]
pub enum EVisitDecision {
    /// The token is not the visit expected: it is logged and not processed.
    Rejected {
        /// Why the route check refused it.
        reason: String,
    },
    /// The token is the visit expected, but no later visit could be expected: the
    /// node stops without processing it.
    HopsExhausted,
    /// The token is the visit expected; the node will expect `next_expected_hop` after it.
    Accepted {
        /// The hop of this node's following visit, four steps later.
        next_expected_hop: u64,
    },
}

/// Control of a single ATM with local state [`ENodeState`].
///
/// It handles one request per visit; sockets, log boundaries and exclusive holding
/// of the token during the whole cycle belong to the binary.
#[derive(Clone, Debug)]
pub struct CNode {
    state: ENodeState,
}

impl View for CNode {
    type V = NodeStateView;

    closed spec fn view(&self) -> NodeStateView {
        self.state@
    }
}

impl CNode {
    /// Creates the local state and queues the requests in the FIFO order received.
    ///
    /// Opens no socket and creates no token. The binary validates the configuration
    /// first; [`Self::process_token`] checks the identifier and the requests again.
    pub fn new(atm: EAtm, transactions: Vec<ETransaction>) -> (r: CNode)
        ensures
            r@ == (NodeStateView {
                atm: atm@,
                pending: transactions@,
                completed: Seq::empty(),
            }),
    {
        let mut pending: VecDeque<ETransaction> = VecDeque::new();
        let mut i: usize = 0;
        while i < transactions.len()
            invariant
                i <= transactions.len(),
                pending@ == transactions@.take(i as int),
            decreases transactions.len() - i,
        {
            pending.push_back(transactions[i]);
            assert(transactions@.take(i + 1) == transactions@.take(i as int).push(
                transactions@[i as int],
            ));
            i = i + 1;
        }
        assert(transactions@.take(transactions.len() as int) == transactions@);
        let completed: Vec<ETransactionOutcome> = Vec::new();
        assert(outcome_views(completed@) =~= Seq::<OutcomeView>::empty());
        CNode { state: ENodeState { atm, pending, completed } }
    }

    /// Returns the ATM's identifier entity, unchanged.
    pub fn atm(&self) -> (r: &EAtm)
        ensures
            r@ == self@.atm,
    {
        &self.state.atm
    }

    /// Returns the logical name of the ATM; not the process id.
    pub fn id(&self) -> (r: &str)
        ensures
            r@ == self@.atm,
    {
        self.state.atm.id.as_str()
    }

    /// Looks at the first request without taking it, to log the entry into the
    /// critical section.
    pub fn next_transaction(&self) -> (r: Option<&ETransaction>)
        ensures
            match r {
                Some(t) => self@.pending.len() > 0 && *t == self@.pending[0],
                None => self@.pending.len() == 0,
            },
    {
        if self.state.pending.len() > 0 {
            Some(&self.state.pending[0])
        } else {
            None
        }
    }

    /// Returns the number of requests waiting for the next visits of the token.
    pub fn pending_len(&self) -> (r: usize)
        ensures
            r == self@.pending.len(),
    {
        self.state.pending.len()
    }

    /// Returns the local history of attempts, refused ones included.
    pub fn completed(&self) -> (r: &[ETransactionOutcome])
        ensures
            outcome_views(r@) == self@.completed,
    {
        self.state.completed.as_slice()
    }

    /// Gives a read-only view of the node's private state.
    pub fn state(&self) -> (r: &ENodeState)
        ensures
            r@ == self@,
    {
        &self.state
    }

    /// Decides whether a token that arrives while the node expects `expected_hop` is
    /// processed, and which hop the node expects next: four steps later, one per node
    /// of the ring.
    pub fn admit_visit(&self, token: &EToken, expected_hop: u64) -> (r: EVisitDecision)
        ensures
            match r {
                EVisitDecision::Rejected { reason } => !route_ok(token@, self@.atm, expected_hop)
                    && route_error(token@, self@.atm, expected_hop) == Some(reason@),
                EVisitDecision::HopsExhausted => route_ok(token@, self@.atm, expected_hop)
                    && expected_hop + 4 > u64::MAX,
                EVisitDecision::Accepted { next_expected_hop } => route_ok(
                    token@,
                    self@.atm,
                    expected_hop,
                ) && next_expected_hop == expected_hop + 4,
            },
    {
        match CToken::validate_route(token, &self.state.atm, expected_hop) {
            Err(reason) => EVisitDecision::Rejected { reason },
            Ok(()) => match expected_hop.checked_add(4) {
                Some(next_expected_hop) => EVisitDecision::Accepted { next_expected_hop },
                None => EVisitDecision::HopsExhausted,
            },
        }
    }

    /// Processes at most one FIFO request and returns the token to forward.
    ///
    /// With no request it updates only the metadata, without changing the balance or
    /// adding delays. A refused attempt is still taken from the queue and recorded in
    /// the history. The caller handles the logs and the TCP forwarding.
    ///
    /// # Protocol precondition
    /// The binary must first call [`CToken::validate_route`] with the expected hop;
    /// this function checks the domain but does not keep the network sequence.
    ///
    /// # Errors
    /// Refuses an invalid token or identifier before consuming the queue.
    pub fn process_token(&mut self, token: EToken) -> (r: Result<ETokenProcessingReport, String>)
        ensures
            r is Ok <==> visit_accepted(old(self)@, token@),
            r matches Ok(report) ==> final(self)@ == visit(old(self)@, token@).0 && report@
                == visit(old(self)@, token@).1,
            r matches Err(e) ==> final(self)@ == old(self)@ && e@ == visit_error(
                old(self)@,
                token@,
            ),
    {
        let mut token = token;
        CToken::validate(&token)?;
        CAtm::index(&self.state.atm)?;
        let received_balance = token.balance;
        let ghost old_completed = self.state.completed@;
        let outcome = match self.state.pending.pop_front() {
            Some(transaction) => {
                let (new_balance, outcome) = CTransaction::apply(
                    &self.state.atm,
                    token.balance,
                    transaction,
                );
                proof {
                    lemma_apply_conserves(token.balance, transaction);
                }
                token.balance = new_balance;
                self.state.completed.push(outcome.duplicate());
                proof {
                    assert(outcome_views(self.state.completed@) =~= outcome_views(
                        old_completed,
                    ).push(outcome@));
                }
                Some(outcome)
            },
            None => None,
        };
        let marked = CToken::mark_processed_by(&mut token, &self.state.atm);
        match marked {
            Ok(()) => {},
            Err(e) => {
                return Err(e);
            },
        }
        Ok(
            ETokenProcessingReport {
                atm: self.state.atm.duplicate(),
                received_balance,
                forwarded_balance: token.balance,
                token,
                outcome,
                remaining_pending: self.state.pending.len(),
            },
        )
    }
}

/// An accepted visit keeps the node's identity and the total of queued and
/// recorded requests: one request moves from the queue to the history, or none.
pub proof fn lemma_visit_moves_one_request(s: NodeStateView, t: TokenView)
    ensures
        visit(s, t).0.atm == s.atm,
        visit(s, t).0.pending.len() + visit(s, t).0.completed.len() == s.pending.len()
            + s.completed.len(),
        visit(s, t).0.completed.len() == s.completed.len() + (if s.pending.len() > 0 {
            1int
        } else {
            0int
        }),
{
}

/// An accepted visit forwards a valid token carrying the balance it reports, with
/// the hop one higher and this node as last holder.
pub proof fn lemma_visit_forwards_valid_token(s: NodeStateView, t: TokenView)
    requires
        visit_accepted(s, t),
        t.hop + 2 <= u64::MAX,
    ensures
        token_valid(visit(s, t).1.token),
        visit(s, t).1.token.balance == visit(s, t).1.forwarded_balance,
        visit(s, t).1.token.hop == t.hop + 1,
        visit(s, t).1.token.last_holder == Some(s.atm),
{
    if s.pending.len() > 0 {
        lemma_apply_conserves(t.balance, s.pending[0]);
    }
}

/// The balance changes only through a completed request: by its amount, up for a
/// deposit and down for a withdrawal; an idle or refused visit forwards the balance
/// it received, and a non-negative balance stays non-negative.
pub proof fn lemma_visit_balance(s: NodeStateView, t: TokenView)
    ensures
        ({
            let report = visit(s, t).1;
            &&& report.received_balance == t.balance
            &&& report.forwarded_balance == t.balance + match report.outcome {
                Some(o) => match o.status {
                    StatusView::Completed => match o.transaction.kind {
                        EnumTransactionKind::Deposit => o.transaction.amount as int,
                        EnumTransactionKind::Withdrawal => -o.transaction.amount,
                    },
                    StatusView::Rejected(_) => 0int,
                },
                None => 0int,
            }
            &&& t.balance >= 0 ==> report.forwarded_balance >= 0
        }),
{
    if s.pending.len() > 0 {
        lemma_apply_conserves(t.balance, s.pending[0]);
    }
}

/// A visit that the node accepts on its route leaves with the token that its
/// successor expects next, while the counter has room for it.
pub proof fn lemma_visit_hands_on_to_successor(s: NodeStateView, t: TokenView, hop: u64)
    requires
        route_ok(t, s.atm, hop),
        hop + 2 <= u64::MAX,
    ensures
        route_ok(visit(s, t).1.token, successor_id(atm_position(s.atm)->0), (hop + 1) as u64),
{
    lemma_visit_balance(s, t);
    let report = visit(s, t).1;
    lemma_route_advances(t, s.atm, hop, report.forwarded_balance);
    assert(report.token == processed_by(TokenView { balance: report.forwarded_balance, ..t }, s.atm));
}

} // verus!
