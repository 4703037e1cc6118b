//! Framing of the token's encoded form and acceptance of a decoded token.

use crate::bridge::b_tcp::{frame_result, MAX_FRAME_BYTES};
use crate::control::c_token::{token_valid, validation_error, CToken};
use crate::entity::EToken;
use crate::text::joined;
use vstd::prelude::*;
use vstd::utf8::{encode_scalar, encode_utf8};

verus! {

/// Framing and validation of the messages that carry the token.
pub struct CMessage;

impl CMessage {
    /// The frame that carries an encoded token: the encoding followed by a newline.
    pub fn frame(encoded: &str) -> (r: String)
        ensures
            r@ == encoded@.push('\n'),
    {
        let r = joined(String::from_str(encoded), "\n");
        proof {
            reveal_strlit("\n");
            assert(r@ =~= encoded@.push('\n'));
        }
        r
    }

    /// Accepts a decoded token only when its domain fields are valid.
    ///
    /// # Errors
    /// Refuses a token that [`CToken::validate`] refuses, with the same message.
    pub fn accept_decoded(token: EToken) -> (r: Result<EToken, String>)
        ensures
            r is Ok <==> token_valid(token@),
            r matches Ok(t) ==> t == token,
            r matches Err(e) ==> validation_error(token@) == Some(e@),
    {
        CToken::validate(&token)?;
        Ok(token)
    }
}

proof fn lemma_encode_push(s: Seq<char>, c: char)
    ensures
        encode_utf8(s.push(c)) == encode_utf8(s) + encode_scalar(c as u32),
    decreases s.len(),
{
    if s.len() == 0 {
        assert(s.push(c).drop_first() =~= Seq::<char>::empty());
        assert(encode_utf8(Seq::<char>::empty()) =~= Seq::<u8>::empty());
        assert(encode_utf8(s) =~= Seq::<u8>::empty());
    } else {
        assert(s.push(c).drop_first() == s.drop_first().push(c));
        lemma_encode_push(s.drop_first(), c);
        assert(s.push(c)[0] == s[0]);
    }
}

/// A frame made from a text without newlines, within the size limit, is read back
/// as exactly that text followed by the newline.
pub proof fn lemma_frame_round_trip(encoded: Seq<char>)
    requires
        encode_utf8(encoded.push('\n')).len() <= MAX_FRAME_BYTES,
    ensures
        frame_result(encode_utf8(encoded.push('\n'))) == Ok::<Seq<char>, crate::bridge::b_tcp::EFrameError>(
            encoded.push('\n'),
        ),
{
    let bytes = encode_utf8(encoded.push('\n'));
    lemma_encode_push(encoded, '\n');
    assert(('\n' as u32) == 10u32);
    assert(((10u32 & 0x7Fu32) as u8) == 10u8) by (bit_vector);
    assert(encode_scalar('\n' as u32) =~= seq![10u8]);
    assert(bytes.last() == 10);
    vstd::utf8::encode_utf8_valid_utf8(encoded.push('\n'));
    vstd::utf8::encode_utf8_decode_utf8(encoded.push('\n'));
}

} // verus!
