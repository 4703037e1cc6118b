//! Validation of the arguments before the node's listener is opened.

use crate::control::c_atm::{atm_position, index_number_text, number_error_text, CAtm};
use crate::entity::{EAtm, EIpAddr, ESocketAddr};
use vstd::prelude::*;

verus! {

/// The only address the ring uses: `127.0.0.1`.
pub open spec fn is_localhost(ip: EIpAddr) -> bool {
    ip == EIpAddr::V4(127, 0, 0, 1)
}

/// Message for an address other than `127.0.0.1`.
pub open spec fn localhost_text() -> Seq<char> {
    "entrambi gli indirizzi devono usare 127.0.0.1"@
}

/// Message for a zero port or for equal local and successor addresses.
pub open spec fn ports_text() -> Seq<char> {
    "porta locale e porta del successore devono essere non nulle e distinte"@
}

/// Message for a bootstrap flag on the wrong node.
pub open spec fn bootstrap_text() -> Seq<char> {
    "--initial-token è obbligatorio per ATM1 e vietato per ATM2/ATM3/ATM4"@
}

/// Message for a negative initial balance.
pub open spec fn initial_balance_text() -> Seq<char> {
    "il saldo iniziale deve essere non negativo"@
}

/// What [`CConfig::validate`] answers: nothing when the configuration is usable,
/// otherwise the message of the first check that fails.
pub open spec fn config_error(
    atm: Seq<char>,
    bind: ESocketAddr,
    successor: ESocketAddr,
    initial_token: bool,
    initial_balance: i64,
) -> Option<Seq<char>> {
    if atm_position(atm) is None {
        Some(number_error_text(index_number_text(atm)))
    } else if !is_localhost(bind.ip) || !is_localhost(successor.ip) {
        Some(localhost_text())
    } else if bind.port == 0 || successor.port == 0 || bind == successor {
        Some(ports_text())
    } else if initial_token != (atm_position(atm)->0 == 0) {
        Some(bootstrap_text())
    } else if initial_balance < 0 {
        Some(initial_balance_text())
    } else {
        None
    }
}

/// Check of the fixed topology through the node's own address and its successor's.
pub struct CConfig;

impl CConfig {
    /// Checks topology, bootstrap and balance before any port is opened.
    ///
    /// Local port and successor port are independent and need not be consecutive.
    /// The caller links the four nodes in logical order; each process knows only its
    /// own successor. Only ATM1 creates the token.
    ///
    /// # Errors
    /// Refuses invalid identifiers, addresses other than `127.0.0.1`, zero or equal
    /// ports, bootstrap on the wrong node and a negative balance.
    pub fn validate(
        atm: &EAtm,
        bind: ESocketAddr,
        successor: ESocketAddr,
        initial_token: bool,
        initial_balance: i64,
    ) -> (r: Result<(), String>)
        ensures
            r is Ok <==> config_error(atm@, bind, successor, initial_token, initial_balance) is None,
            r matches Err(e) ==> config_error(atm@, bind, successor, initial_token, initial_balance)
                == Some(e@),
    {
        let position = CAtm::index(atm)?;
        let localhost = EIpAddr::V4(127, 0, 0, 1);
        if bind.ip != localhost || successor.ip != localhost {
            return Err(String::from_str("entrambi gli indirizzi devono usare 127.0.0.1"));
        }
        if bind.port == 0 || successor.port == 0 || bind == successor {
            return Err(
                String::from_str(
                    "porta locale e porta del successore devono essere non nulle e distinte",
                ),
            );
        }
        if initial_token != (position == 0) {
            return Err(
                String::from_str(
                    "--initial-token è obbligatorio per ATM1 e vietato per ATM2/ATM3/ATM4",
                ),
            );
        }
        if initial_balance < 0 {
            return Err(String::from_str("il saldo iniziale deve essere non negativo"));
        }
        Ok(())
    }
}

/// Exactly one node of an accepted configuration creates the token: the flag is
/// accepted on ATM1 and nowhere else.
pub proof fn lemma_single_bootstrap(
    atm: Seq<char>,
    bind: ESocketAddr,
    successor: ESocketAddr,
    initial_token: bool,
    initial_balance: i64,
)
    requires
        config_error(atm, bind, successor, initial_token, initial_balance) is None,
    ensures
        initial_token <==> atm_position(atm) == Some(0int),
        initial_balance >= 0,
        bind.port != successor.port,
{
}

} // verus!
