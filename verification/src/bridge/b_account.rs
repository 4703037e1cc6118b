//! Content of the account file, read and written inside the critical section.

use crate::text::{
    i64_text, int_text, is_white_space, joined, lemma_ascii_encoding_length,
    lemma_int_text_round_trip, lemma_nat_text_shape, lemma_trimmed_plain,
    lemma_trimmed_push_white, nat_text, parse_i64, parse_int, trim, trimmed, utf8_text,
};
use vstd::prelude::*;
use vstd::utf8::{decode_utf8, encode_utf8, valid_utf8};

verus! {

/// Message for a negative balance.
pub open spec fn negative_balance_text() -> Seq<char> {
    "il saldo non può essere negativo"@
}

/// Message for content that is not UTF-8.
pub open spec fn not_utf8_text() -> Seq<char> {
    "stream did not contain valid UTF-8"@
}

/// Message for content longer than the account file may be.
pub open spec fn too_long_text() -> Seq<char> {
    "file del conto troppo lungo"@
}

/// Message for content that is not a single integer.
pub open spec fn not_a_balance_text() -> Seq<char> {
    "saldo del file non valido"@
}

/// What the account file holds for `balance`: its decimal text and a newline.
pub open spec fn account_content(balance: int) -> Seq<char> {
    int_text(balance).push('\n')
}

/// The balance that the account file's bytes hold, or the message that refuses them.
pub open spec fn parsed_account(bytes: Seq<u8>) -> Result<int, Seq<char>> {
    if !valid_utf8(bytes) {
        Err(not_utf8_text())
    } else if bytes.len() > 64 {
        Err(too_long_text())
    } else {
        match parse_int(trimmed(decode_utf8(bytes))) {
            Err(_) => Err(not_a_balance_text()),
            Ok(v) => if v < 0 {
                Err(negative_balance_text())
            } else {
                Ok(v)
            },
        }
    }
}

/// Reading and writing of the account without file locks or extra coordinators.
///
/// The caller must hold the only token during every access. The file is the
/// protected resource, not a synchronisation device. Each process keeps private
/// memory and opens the same path only inside its own critical section.
pub struct BAccount;

impl BAccount {
    /// Largest content, in bytes, that the account file may hold.
    pub const MAX_CONTENT_BYTES: usize = 64;

    /// Checks a balance before it is written.
    ///
    /// # Errors
    /// Refuses a negative balance.
    pub fn validate(balance: i64) -> (r: Result<(), String>)
        ensures
            r is Ok <==> balance >= 0,
            r matches Err(e) ==> e@ == negative_balance_text(),
    {
        if balance < 0 {
            Err(String::from_str("il saldo non può essere negativo"))
        } else {
            Ok(())
        }
    }

    /// The text written to the account file for `balance`: decimal digits and a newline.
    pub fn content(balance: i64) -> (r: String)
        ensures
            r@ == account_content(balance as int),
    {
        let digits = i64_text(balance);
        let r = joined(digits, "\n");
        proof {
            reveal_strlit("\n");
            assert(r@ =~= account_content(balance as int));
        }
        r
    }

    /// Reads the balance from the bytes of the account file.
    ///
    /// The caller reads at most one byte beyond [`Self::MAX_CONTENT_BYTES`], so that a
    /// longer file is seen as too long without an unbounded read.
    ///
    /// # Errors
    /// Refuses bytes that are not UTF-8, more than 64 bytes, text other than a single
    /// integer with optional white space around it, and negative values.
    pub fn parse_content(bytes: &[u8]) -> (r: Result<i64, String>)
        ensures
            match r {
                Ok(v) => parsed_account(bytes@) == Ok::<int, Seq<char>>(v as int),
                Err(e) => parsed_account(bytes@) == Err::<int, Seq<char>>(e@),
            },
    {
        let text = match utf8_text(bytes) {
            Some(text) => text,
            None => {
                return Err(String::from_str("stream did not contain valid UTF-8"));
            },
        };
        if bytes.len() > Self::MAX_CONTENT_BYTES {
            return Err(String::from_str("file del conto troppo lungo"));
        }
        match parse_i64(trim(text)) {
            Err(_) => Err(String::from_str("saldo del file non valido")),
            Ok(v) => if v < 0 {
                Err(String::from_str("il saldo non può essere negativo"))
            } else {
                Ok(v)
            },
        }
    }
}

/// What the account file is written with for a non-negative balance reads back as
/// that same balance.
pub proof fn lemma_account_round_trip(balance: i64)
    requires
        balance >= 0,
    ensures
        parsed_account(encode_utf8(account_content(balance as int))) == Ok::<int, Seq<char>>(
            balance as int,
        ),
{
    let text = int_text(balance as int);
    let content = account_content(balance as int);
    assert(crate::text::ten_pow(19) == 10000000000000000000) by {
        reveal_with_fuel(crate::text::ten_pow, 20);
    }
    lemma_nat_text_shape(balance as nat, 19);
    assert(text == nat_text(balance as nat));
    assert forall|i: int| 0 <= i < content.len() implies (#[trigger] content[i] as u32) < 0x80 by {
        if i < text.len() {
            assert(content[i] == text[i]);
        }
    }
    lemma_ascii_encoding_length(content);
    vstd::utf8::encode_utf8_valid_utf8(content);
    vstd::utf8::encode_utf8_decode_utf8(content);
    assert(is_white_space('\n'));
    lemma_trimmed_push_white(text, '\n');
    lemma_trimmed_plain(text);
    lemma_int_text_round_trip(balance as int);
}

} // verus!
