//! Validation of the token's balance and route metadata.

use crate::control::c_atm::{
    atm_position, index_number_text, lemma_canonical_id_position, number_error_text,
    successor_id, CAtm,
};
use crate::entity::{EAtm, EToken, TokenView};
use crate::text::{int_text, joined, u64_text};
use vstd::prelude::*;

verus! {

// ---------------------------------------------------------------------------
// Specification
// ---------------------------------------------------------------------------

/// Message for a token with a negative balance.
pub open spec fn negative_token_balance_text() -> Seq<char> {
    "il saldo del token deve essere non negativo"@
}

/// Message for a visit counter that has no room for one more visit.
pub open spec fn exhausted_hop_text() -> Seq<char> {
    "contatore dei passaggi del token esaurito"@
}

/// Message for a token whose counter is not the visit that the node expects.
pub open spec fn unexpected_hop_text(hop: u64, expected: u64) -> Seq<char> {
    "hop del token inatteso "@ + int_text(hop as int) + ", atteso "@ + int_text(expected as int)
}

/// Message for a first visit that names a previous holder.
pub open spec fn initial_holder_text() -> Seq<char> {
    "il token iniziale non deve avere un precedente possessore"@
}

/// Message for a previous holder that is not the node's predecessor.
pub open spec fn wrong_holder_text() -> Seq<char> {
    "il precedente possessore non corrisponde al percorso dell’anello"@
}

/// A token whose fields are in the domain: non-negative balance, canonical last
/// holder, and room in the counter for one more visit.
pub open spec fn token_valid(t: TokenView) -> bool {
    &&& t.balance >= 0
    &&& (t.last_holder matches Some(h) ==> atm_position(h) is Some)
    &&& t.hop < u64::MAX
}

/// What [`CToken::validate`] answers for `t`: nothing, or the message of the
/// first check that fails.
pub open spec fn validation_error(t: TokenView) -> Option<Seq<char>> {
    if t.balance < 0 {
        Some(negative_token_balance_text())
    } else if t.last_holder matches Some(h) && atm_position(h) is None {
        Some(number_error_text(index_number_text(t.last_holder->0)))
    } else if t.hop == u64::MAX {
        Some(exhausted_hop_text())
    } else {
        None
    }
}

/// The visit that `atm` expects at hop `expected`: a valid token whose counter is
/// `expected`, which is the node's position modulo four, and whose last holder is
/// the node's predecessor, or nobody at the first visit.
pub open spec fn route_ok(t: TokenView, atm: Seq<char>, expected: u64) -> bool {
    &&& token_valid(t)
    &&& atm_position(atm) matches Some(p)
    &&& t.hop == expected
    &&& t.hop % 4 == p
    &&& if t.hop == 0 {
        t.last_holder is None
    } else {
        t.last_holder matches Some(h) && atm_position(h) == Some((p + 3) % 4)
    }
}

/// What [`CToken::validate_route`] answers: nothing, or the message of the first
/// check that fails.
pub open spec fn route_error(t: TokenView, atm: Seq<char>, expected: u64) -> Option<Seq<char>> {
    if validation_error(t) is Some {
        validation_error(t)
    } else if atm_position(atm) is None {
        Some(number_error_text(index_number_text(atm)))
    } else if t.hop != expected || t.hop % 4 != atm_position(atm)->0 {
        Some(unexpected_hop_text(t.hop, expected))
    } else if t.hop == 0 {
        if t.last_holder is Some {
            Some(initial_holder_text())
        } else {
            None
        }
    } else if !(t.last_holder matches Some(h) && atm_position(h) == Some(
        (atm_position(atm)->0 + 3) % 4,
    )) {
        Some(wrong_holder_text())
    } else {
        None
    }
}

/// The token after a visit by `atm`: one more hop, and `atm` as last holder.
pub open spec fn processed_by(t: TokenView, atm: Seq<char>) -> TokenView {
    TokenView { balance: t.balance, hop: (t.hop + 1) as u64, last_holder: Some(atm) }
}

// ---------------------------------------------------------------------------
// Rules
// ---------------------------------------------------------------------------

/// Creation of the token and controlled handling of its route metadata.
pub struct CToken;

impl CToken {
    /// Builds the token with hop zero and no previous holder.
    ///
    /// The binary calls it once, from ATM1, after binding and validating the
    /// configuration. It does not validate the balance and does not by itself make
    /// the token unique: [`Self::validate`] is owed before use.
    pub fn create_initial(initial_balance: i64) -> (r: EToken)
        ensures
            r@ == (TokenView { balance: initial_balance, hop: 0, last_holder: None }),
    {
        EToken { balance: initial_balance, hop: 0, last_holder: None }
    }

    /// Validates the domain fields of a token, also one decoded or built by hand.
    ///
    /// # Errors
    /// Refuses a negative balance, an invalid last holder and a counter with no room
    /// for one more increment. It does not check the next recipient.
    pub fn validate(token: &EToken) -> (r: Result<(), String>)
        ensures
            r is Ok <==> token_valid(token@),
            r is Ok <==> validation_error(token@) is None,
            r matches Err(e) ==> validation_error(token@) == Some(e@),
    {
        if token.balance < 0 {
            return Err(String::from_str("il saldo del token deve essere non negativo"));
        }
        match &token.last_holder {
            Some(atm) => {
                CAtm::index(atm)?;
            },
            None => {},
        }
        if token.hop == u64::MAX {
            return Err(String::from_str("contatore dei passaggi del token esaurito"));
        }
        Ok(())
    }

    /// Checks the visit that the node expects before it enters the critical section.
    ///
    /// The first visits have hop 0, 1, 2 and 3; for each node the following ones
    /// advance by four. The last holder must be the logical predecessor, except at
    /// bootstrap, where there is none. These metadata do not authenticate the sender.
    ///
    /// # Errors
    /// Passes on domain errors and refuses a hop, recipient or predecessor that does
    /// not fit the expected visit. It changes neither the token nor local state.
    pub fn validate_route(token: &EToken, atm: &EAtm, expected_hop: u64) -> (r: Result<
        (),
        String,
    >)
        ensures
            r is Ok <==> route_ok(token@, atm@, expected_hop),
            r is Ok <==> route_error(token@, atm@, expected_hop) is None,
            r matches Err(e) ==> route_error(token@, atm@, expected_hop) == Some(e@),
    {
        Self::validate(token)?;
        let position = CAtm::index(atm)?;
        let position: u64 = position as u64;
        if token.hop != expected_hop || token.hop % 4 != position {
            return Err(Self::unexpected_hop(token.hop, expected_hop));
        }
        if token.hop == 0 {
            if token.last_holder.is_some() {
                return Err(
                    String::from_str("il token iniziale non deve avere un precedente possessore"),
                );
            }
        } else {
            let previous = (position + 3) % 4;
            let matches_previous = match &token.last_holder {
                Some(holder) => match CAtm::index(holder) {
                    Ok(p) => p as u64 == previous,
                    Err(e) => {
                        return Err(e);
                    },
                },
                None => false,
            };
            if !matches_previous {
                return Err(
                    String::from_str(
                        "il precedente possessore non corrisponde al percorso dell’anello",
                    ),
                );
            }
        }
        Ok(())
    }

    /// Increments the hop and records the ATM that processed the visit.
    ///
    /// # Errors
    /// Validates token and ATM before changing anything; refuses invalid values and
    /// overflow. On error the token is left as it was.
    pub fn mark_processed_by(token: &mut EToken, atm: &EAtm) -> (r: Result<(), String>)
        ensures
            r is Ok <==> token_valid(old(token)@) && atm_position(atm@) is Some,
            r is Ok ==> final(token)@ == processed_by(old(token)@, atm@),
            r matches Err(e) ==> *final(token) == *old(token) && e@ == (
            if validation_error(old(token)@) is Some {
                validation_error(old(token)@)->0
            } else {
                number_error_text(index_number_text(atm@))
            }),
    {
        Self::validate(token)?;
        CAtm::index(atm)?;
        match token.hop.checked_add(1) {
            Some(h) => {
                token.hop = h;
            },
            None => {
                return Err(String::from_str("contatore dei passaggi del token esaurito"));
            },
        }
        token.last_holder = Some(atm.duplicate());
        Ok(())
    }

    /// Message for a token whose counter is not the expected one.
    fn unexpected_hop(hop: u64, expected: u64) -> (r: String)
        ensures
            r@ == unexpected_hop_text(hop, expected),
    {
        let h = u64_text(hop);
        let x = u64_text(expected);
        let head = joined(String::from_str("hop del token inatteso "), h.as_str());
        let head = joined(head, ", atteso ");
        joined(head, x.as_str())
    }
}

// ---------------------------------------------------------------------------
// Laws
// ---------------------------------------------------------------------------

/// The bootstrap token, with a non-negative balance, is the first visit that ATM1
/// expects.
pub proof fn lemma_initial_token_starts_the_ring(balance: i64)
    requires
        balance >= 0,
    ensures
        route_ok(
            TokenView { balance, hop: 0, last_holder: None },
            crate::control::c_atm::canonical_id(0),
            0,
        ),
{
    lemma_canonical_id_position(0);
}

/// A visit that a node accepts, once processed by that node, is exactly the visit
/// that its successor expects next, while the counter has room for it: the token
/// runs ATM1 → ATM2 → ATM3 → ATM4 → ATM1 with the hop growing by one each step.
pub proof fn lemma_route_advances(t: TokenView, atm: Seq<char>, hop: u64, balance: i64)
    requires
        route_ok(t, atm, hop),
        hop + 2 <= u64::MAX,
        balance >= 0,
    ensures
        route_ok(
            processed_by(TokenView { balance, ..t }, atm),
            successor_id(atm_position(atm)->0),
            (hop + 1) as u64,
        ),
{
    let p = atm_position(atm)->0;
    lemma_canonical_id_position((p + 1) % 4);
    assert(((hop + 1) as u64) % 4 == (p + 1) % 4);
}

/// Every accepted visit of a node has a hop congruent to the node's position
/// modulo four, so two distinct nodes never accept the same hop.
pub proof fn lemma_route_hop_position(t: TokenView, a: Seq<char>, b: Seq<char>, hop: u64)
    requires
        route_ok(t, a, hop),
        route_ok(t, b, hop),
    ensures
        atm_position(a) == atm_position(b),
{
}

} // verus!
