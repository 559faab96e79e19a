//! Helpers at the text/byte boundary: UTF-8 decoding of byte payloads,
//! constant-time byte comparison, and lemmas relating the two.

use vstd::prelude::*;
use vstd::utf8::{
    decode_utf8, decode_utf8_encode_utf8, encode_utf8, encode_utf8_decode_utf8,
    encode_utf8_valid_utf8, is_ascii_chars, is_ascii_chars_encode_utf8, valid_utf8,
};

verus! {

/// Relies on `String::from_utf8`: it succeeds exactly on valid UTF-8 byte
/// sequences, and returns their decoding.
#[verifier::external_body]
pub(crate) fn bytes_to_string(v: Vec<u8>) -> (r: Option<String>)
    ensures
        r is Some <==> valid_utf8(v@),
        r matches Some(s) ==> s@ == decode_utf8(v@),
{
    String::from_utf8(v).ok()
}

/// Compares two byte slices for equality without an early exit on the first
/// mismatching byte, so that the comparison's running time does not depend on
/// where two equal-length inputs first differ.
pub fn ct_bytes_eq(a: &[u8], b: &[u8]) -> (r: bool)
    ensures
        r == (a@ == b@),
{
    if a.len() != b.len() {
        return false;
    }
    let n = a.len();
    let mut acc: u8 = 0;
    let mut i: usize = 0;
    while i < n
        invariant
            n == a@.len(),
            n == b@.len(),
            0 <= i <= n,
            (acc == 0) <==> (forall|j: int| 0 <= j < i ==> a@[j] == b@[j]),
        decreases n - i,
    {
        let ai = a[i];
        let bi = b[i];
        proof {
            assert((acc | (ai ^ bi)) == 0 <==> acc == 0 && ai == bi) by (bit_vector);
        }
        acc = acc | (ai ^ bi);
        i = i + 1;
    }
    if acc == 0 {
        proof {
            assert(a@ =~= b@);
        }
        true
    } else {
        false
    }
}

/// UTF-8 encoding is injective: two character sequences are equal exactly
/// when their encodings are.
pub proof fn lemma_encode_utf8_injective(s1: Seq<char>, s2: Seq<char>)
    ensures
        (encode_utf8(s1) == encode_utf8(s2)) == (s1 == s2),
{
    broadcast use encode_utf8_decode_utf8;

    if encode_utf8(s1) == encode_utf8(s2) {
        assert(decode_utf8(encode_utf8(s1)) == s1);
        assert(decode_utf8(encode_utf8(s2)) == s2);
    }
}

/// A sequence of bytes below 128 is valid UTF-8 and decodes to the same
/// values read as characters.
pub proof fn lemma_ascii_bytes_utf8(v: Seq<u8>)
    requires
        forall|i: int| 0 <= i < v.len() ==> v[i] < 128,
    ensures
        valid_utf8(v),
        decode_utf8(v).len() == v.len(),
        forall|i: int| 0 <= i < v.len() ==> decode_utf8(v)[i] == v[i] as char,
{
    broadcast use encode_utf8_valid_utf8, encode_utf8_decode_utf8;

    let c = Seq::new(v.len(), |i: int| v[i] as char);
    assert(is_ascii_chars(c)) by {
        assert forall|i: int| 0 <= i < c.len() implies '\0' <= #[trigger] c[i] <= '\u{7f}' by {
            assert(c[i] == v[i] as char);
            assert(v[i] as char as u32 == v[i] as u32);
        }
    }
    is_ascii_chars_encode_utf8(c);
    assert(encode_utf8(c) =~= v) by {
        assert forall|i: int| 0 <= i < v.len() implies encode_utf8(c)[i] == v[i] by {
            assert(encode_utf8(c)[i] == c[i] as u8);
            assert(v[i] as char as u8 == v[i]);
        }
    }
    assert(decode_utf8(v) == c);
}

} // verus!
