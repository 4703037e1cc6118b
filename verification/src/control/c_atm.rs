//! Canonical identification of the four ATMs and navigation in the fixed ring.

use crate::entity::EAtm;
use crate::text::{
    chars_of, digit, digit_char, digit_value, is_white_space, joined, lemma_trimmed_plain, trim,
    trimmed, to_ascii_upper, upper_text,
};
use vstd::prelude::*;

verus! {

/// Whether `s` starts with the three letters `ATM`.
pub open spec fn has_atm_prefix(s: Seq<char>) -> bool {
    s.len() >= 3 && s[0] == 'A' && s[1] == 'T' && s[2] == 'M'
}

/// Whether `value` is the number of one of the four nodes: one digit from 1 to 4.
pub open spec fn is_node_number(value: Seq<char>) -> bool {
    value.len() == 1 && '1' <= value[0] && value[0] <= '4'
}

/// Position in the ring of a canonical identifier: 0 for `ATM1` up to 3 for `ATM4`.
pub open spec fn atm_position(id: Seq<char>) -> Option<int> {
    if has_atm_prefix(id) && is_node_number(id.skip(3)) {
        Some(digit_value(id[3]) - 1)
    } else {
        None
    }
}

/// The canonical identifier of the node at `position`.
pub open spec fn canonical_id(position: int) -> Seq<char> {
    seq!['A', 'T', 'M', digit_char(position + 1)]
}

/// Identifier of the successor of the node at `position`.
pub open spec fn successor_id(position: int) -> Seq<char> {
    canonical_id((position + 1) % 4)
}

/// The text that the index check reads as a number: what follows `ATM`, or nothing.
pub open spec fn index_number_text(id: Seq<char>) -> Seq<char> {
    if has_atm_prefix(id) {
        id.skip(3)
    } else {
        Seq::empty()
    }
}

/// The text that an alias leaves to be read as a number, once trimmed and upper-cased:
/// what follows `ATM`, or the whole text.
pub open spec fn alias_number_text(alias: Seq<char>) -> Seq<char> {
    let u = upper_text(trimmed(alias));
    if has_atm_prefix(u) {
        u.skip(3)
    } else {
        u
    }
}

/// Position named by an alias such as `ATM2`, ` atm2 ` or `2`.
pub open spec fn alias_position(alias: Seq<char>) -> Option<int> {
    let value = alias_number_text(alias);
    if is_node_number(value) {
        Some(digit_value(value[0]) - 1)
    } else {
        None
    }
}

/// Message for a text that does not name one of the four nodes.
pub open spec fn number_error_text(value: Seq<char>) -> Seq<char> {
    "identificativo '"@ + value + "' non valido: atteso un numero da 1 a 4"@
}

/// Validation of identifiers and computation of the successor in the ring.
pub struct CAtm;

impl CAtm {
    /// Number of processes in the ring.
    pub const NODE_COUNT: u16 = 4;

    /// Returns the position in the ring, from 0 for `ATM1` to 3 for `ATM4`.
    ///
    /// # Errors
    /// Refuses a public `id` field other than the four canonical names.
    pub fn index(atm: &EAtm) -> (r: Result<u16, String>)
        ensures
            match r {
                Ok(p) => atm_position(atm@) == Some(p as int),
                Err(e) => atm_position(atm@) is None && e@ == number_error_text(
                    index_number_text(atm@),
                ),
            },
    {
        let cs = chars_of(atm.id.as_str());
        let n = cs.len();
        let prefixed = n >= 3 && cs[0] == 'A' && cs[1] == 'T' && cs[2] == 'M';
        proof {
            assert(prefixed == has_atm_prefix(atm@));
        }
        if prefixed && n == 4 && '1' <= cs[3] && cs[3] <= '4' {
            let p: u16 = (cs[3] as u32 - 49) as u16;
            proof {
                assert(atm@.skip(3)[0] == atm@[3]);
            }
            return Ok(p);
        }
        proof {
            if prefixed {
                assert(atm@.skip(3).len() == n - 3);
                if n == 4 {
                    assert(atm@.skip(3)[0] == atm@[3]);
                }
            }
        }
        let value: &str = if prefixed {
            atm.id.as_str().substring_char(3, n)
        } else {
            ""
        };
        proof {
            if prefixed {
                assert(value@ == atm@.skip(3));
            } else {
                reveal_strlit("");
                assert(value@ == Seq::<char>::empty());
            }
        }
        Err(Self::number_error(value))
    }

    /// Builds a canonical identifier, ignoring white space around it.
    ///
    /// Accepts the aliases `1`…`4` too and does not tell upper from lower case.
    ///
    /// # Errors
    /// Returns a description when the name does not identify one of the four ATMs.
    pub fn build(id: &str) -> (r: Result<EAtm, String>)
        ensures
            match r {
                Ok(a) => alias_position(id@) matches Some(p) && a@ == canonical_id(p),
                Err(e) => alias_position(id@) is None && e@ == number_error_text(
                    alias_number_text(id@),
                ),
            },
    {
        let normalized = to_ascii_upper(trim(id));
        let cs = chars_of(normalized.as_str());
        let n = cs.len();
        let prefixed = n >= 3 && cs[0] == 'A' && cs[1] == 'T' && cs[2] == 'M';
        let value: &str = if prefixed {
            normalized.as_str().substring_char(3, n)
        } else {
            normalized.as_str()
        };
        proof {
            assert(prefixed == has_atm_prefix(normalized@));
            assert(value@ == alias_number_text(id@));
        }
        let vs = chars_of(value);
        if vs.len() == 1 && '1' <= vs[0] && vs[0] <= '4' {
            let p: u16 = (vs[0] as u32 - 49) as u16;
            Ok(EAtm { id: Self::canonical(p) })
        } else {
            Err(Self::number_error(value))
        }
    }

    /// Returns the successor in the order ATM1 → ATM2 → ATM3 → ATM4 → ATM1.
    ///
    /// # Errors
    /// Refuses a non-canonical identifier, even one built directly.
    pub fn successor(atm: &EAtm) -> (r: Result<EAtm, String>)
        ensures
            match r {
                Ok(s) => atm_position(atm@) matches Some(p) && s@ == successor_id(p),
                Err(e) => atm_position(atm@) is None && e@ == number_error_text(
                    index_number_text(atm@),
                ),
            },
    {
        let index = Self::index(atm)?;
        Ok(EAtm { id: Self::canonical((index + 1) % Self::NODE_COUNT) })
    }

    /// The canonical identifier `ATM<n>` of the node at `position`.
    fn canonical(position: u16) -> (r: String)
        requires
            position < 4,
        ensures
            r@ == canonical_id(position as int),
    {
        let head = String::from_str("ATM");
        let tail = chars_of(head.as_str());
        let mut cs = tail;
        cs.push(digit(position as u64 + 1));
        proof {
            reveal_strlit("ATM");
            assert(cs@ == canonical_id(position as int));
        }
        crate::text::string_of(&cs)
    }

    /// The message for a text that is not the number of a node.
    fn number_error(value: &str) -> (r: String)
        ensures
            r@ == number_error_text(value@),
    {
        let head = joined(String::from_str("identificativo '"), value);
        joined(head, "' non valido: atteso un numero da 1 a 4")
    }
}

impl std::str::FromStr for EAtm {
    type Err = String;

    fn from_str(value: &str) -> (r: Result<Self, Self::Err>)
        ensures
            match r {
                Ok(a) => alias_position(value@) matches Some(p) && a@ == canonical_id(p),
                Err(e) => alias_position(value@) is None && e@ == number_error_text(
                    alias_number_text(value@),
                ),
            },
    {
        CAtm::build(value)
    }
}

/// Every canonical identifier names its own position, through the index and through
/// an alias alike.
pub proof fn lemma_canonical_id_position(position: int)
    requires
        0 <= position < 4,
    ensures
        atm_position(canonical_id(position)) == Some(position),
        alias_position(canonical_id(position)) == Some(position),
{
    let id = canonical_id(position);
    assert(id.skip(3) =~= seq![digit_char(position + 1)]);
    assert(!is_white_space(id[0]));
    assert(!is_white_space(id.last()));
    lemma_trimmed_plain(id);
    assert(upper_text(id) =~= id);
}

/// The successor moves one step forward in the ring, and four steps come back to
/// the starting node.
pub proof fn lemma_successor_cycle(position: int)
    requires
        0 <= position < 4,
    ensures
        atm_position(successor_id(position)) == Some((position + 1) % 4),
        successor_id((position + 1) % 4) == canonical_id((position + 2) % 4),
        successor_id((position + 3) % 4) == canonical_id(position),
{
    lemma_canonical_id_position((position + 1) % 4);
}

} // verus!
