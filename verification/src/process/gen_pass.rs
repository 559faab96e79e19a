//! Password generation: a password of a requested length drawn from
//! mixed-case letters, digits and symbols, with at least one character of
//! every class that is not excluded. Look-alike characters (I, O, i, l, o,
//! 0, 1) are left out of the pools.

use crate::errors::CryptoError;
use crate::util::{bytes_to_string, lemma_ascii_bytes_utf8};
use rand::seq::SliceRandom;
use vstd::prelude::*;
use vstd::seq_lib::group_to_multiset_ensures;

verus! {

/// An upper-case letter from the pool (A-Z without I and O).
pub open spec fn is_upper_char(b: u8) -> bool {
    65 <= b <= 90 && b != 73 && b != 79
}

/// A lower-case letter from the pool (a-z without i, l and o).
pub open spec fn is_lower_char(b: u8) -> bool {
    97 <= b <= 122 && b != 105 && b != 108 && b != 111
}

/// A digit from the pool (2-9).
pub open spec fn is_number_char(b: u8) -> bool {
    50 <= b <= 57
}

/// A symbol from the pool (* & ^ % ? $ # @ !).
pub open spec fn is_symbol_char(b: u8) -> bool {
    b == 33 || b == 35 || b == 36 || b == 37 || b == 38 || b == 42 || b == 63 || b == 64 || b == 94
}

/// The password contains at least one upper-case pool character.
pub open spec fn has_upper_char(s: Seq<char>) -> bool {
    exists|i: int| 0 <= i < s.len() && is_upper_char(#[trigger] s[i] as u8)
}

/// The password contains at least one lower-case pool character.
pub open spec fn has_lower_char(s: Seq<char>) -> bool {
    exists|i: int| 0 <= i < s.len() && is_lower_char(#[trigger] s[i] as u8)
}

/// The password contains at least one digit from the pool.
pub open spec fn has_number_char(s: Seq<char>) -> bool {
    exists|i: int| 0 <= i < s.len() && is_number_char(#[trigger] s[i] as u8)
}

/// The password contains at least one symbol from the pool.
pub open spec fn has_symbol_char(s: Seq<char>) -> bool {
    exists|i: int| 0 <= i < s.len() && is_symbol_char(#[trigger] s[i] as u8)
}

/// A character admissible in a password generated under the given
/// exclusions.
pub open spec fn is_password_char(
    b: u8,
    no_upper_case: bool,
    no_lower_case: bool,
    no_number: bool,
    no_symbol: bool,
) -> bool {
    ||| (!no_upper_case && is_upper_char(b))
    ||| (!no_lower_case && is_lower_char(b))
    ||| (!no_number && is_number_char(b))
    ||| (!no_symbol && is_symbol_char(b))
}

/// How many character classes the given exclusions leave in play; the
/// password holds at least one character of each.
pub open spec fn included_count(
    no_upper_case: bool,
    no_lower_case: bool,
    no_number: bool,
    no_symbol: bool,
) -> int {
    (if no_upper_case {
        0int
    } else {
        1int
    }) + (if no_lower_case {
        0int
    } else {
        1int
    }) + (if no_number {
        0int
    } else {
        1int
    }) + (if no_symbol {
        0int
    } else {
        1int
    })
}

/// Relies on rand's `SliceRandom::choose` with the operating-system RNG:
/// one uniformly chosen element of the slice, or `None` exactly when the
/// slice is empty. Which element comes back is random, so nothing more is
/// promised.
#[verifier::external_body]
fn choose_byte(pool: &[u8]) -> (r: Option<u8>)
    ensures
        r is Some <==> pool@.len() > 0,
        r matches Some(b) ==> pool@.contains(b),
{
    pool.choose(&mut rand::rngs::OsRng).copied()
}

/// Relies on rand's `SliceRandom::shuffle` with the operating-system RNG:
/// it permutes the vector in place. The order is random, so only the
/// multiset of elements is promised.
#[verifier::external_body]
fn shuffle_bytes(v: &mut Vec<u8>)
    ensures
        final(v)@.len() == old(v)@.len(),
        final(v)@.to_multiset() == old(v)@.to_multiset(),
{
    v.shuffle(&mut rand::rngs::OsRng);
}

/// The upper-case pool, A-Z without the look-alikes I and O.
fn upper_pool() -> (v: Vec<u8>)
    ensures
        v@.len() > 0,
        forall|i: int| 0 <= i < v@.len() ==> is_upper_char(#[trigger] v@[i]),
{
    let mut v: Vec<u8> = Vec::new();
    let mut b: u8 = 65;
    while b <= 90
        invariant
            65 <= b <= 91,
            b > 65 ==> v@.len() > 0,
            forall|i: int| 0 <= i < v@.len() ==> is_upper_char(#[trigger] v@[i]),
        decreases 91 - b,
    {
        if b != 73 && b != 79 {
            v.push(b);
        }
        b = b + 1;
    }
    v
}

/// The lower-case pool, a-z without the look-alikes i, l and o.
fn lower_pool() -> (v: Vec<u8>)
    ensures
        v@.len() > 0,
        forall|i: int| 0 <= i < v@.len() ==> is_lower_char(#[trigger] v@[i]),
{
    let mut v: Vec<u8> = Vec::new();
    let mut b: u8 = 97;
    while b <= 122
        invariant
            97 <= b <= 123,
            b > 97 ==> v@.len() > 0,
            forall|i: int| 0 <= i < v@.len() ==> is_lower_char(#[trigger] v@[i]),
        decreases 123 - b,
    {
        if b != 105 && b != 108 && b != 111 {
            v.push(b);
        }
        b = b + 1;
    }
    v
}

/// The digit pool, 2-9 (without the look-alikes 0 and 1).
fn number_pool() -> (v: Vec<u8>)
    ensures
        v@.len() > 0,
        forall|i: int| 0 <= i < v@.len() ==> is_number_char(#[trigger] v@[i]),
{
    let mut v: Vec<u8> = Vec::new();
    let mut b: u8 = 50;
    while b <= 57
        invariant
            50 <= b <= 58,
            b > 50 ==> v@.len() > 0,
            forall|i: int| 0 <= i < v@.len() ==> is_number_char(#[trigger] v@[i]),
        decreases 58 - b,
    {
        v.push(b);
        b = b + 1;
    }
    v
}

/// The symbol pool: * & ^ % ? $ # @ !
fn symbol_pool() -> (v: Vec<u8>)
    ensures
        v@.len() > 0,
        forall|i: int| 0 <= i < v@.len() ==> is_symbol_char(#[trigger] v@[i]),
{
    let mut v: Vec<u8> = Vec::new();
    v.push(42);
    v.push(38);
    v.push(94);
    v.push(37);
    v.push(63);
    v.push(36);
    v.push(35);
    v.push(64);
    v.push(33);
    v
}

/// Generates a password of exactly `length` characters drawn from the
/// classes the flags leave in play, with at least one character of each;
/// fails only when every class is excluded and characters are still asked
/// for. The order of the characters is random.
pub fn process_gen_pass(
    length: u8,
    no_upper_case: bool,
    no_lower_case: bool,
    no_number: bool,
    no_symbol: bool,
) -> (r: Result<String, CryptoError>)
    requires
        included_count(no_upper_case, no_lower_case, no_number, no_symbol) <= length as int,
    ensures
        r is Ok <==> (length == 0 || included_count(
            no_upper_case,
            no_lower_case,
            no_number,
            no_symbol,
        ) > 0),
        r matches Err(e) ==> e == CryptoError::GenerationError,
        r matches Ok(s) ==> s@.len() == length as int,
        r matches Ok(s) ==> (forall|i: int|
            #![trigger s@[i]]
            0 <= i < s@.len() ==> s@[i] <= '\u{7f}' && is_password_char(
                s@[i] as u8,
                no_upper_case,
                no_lower_case,
                no_number,
                no_symbol,
            )),
        r matches Ok(s) ==> (!no_upper_case ==> has_upper_char(s@)),
        r matches Ok(s) ==> (!no_lower_case ==> has_lower_char(s@)),
        r matches Ok(s) ==> (!no_number ==> has_number_char(s@)),
        r matches Ok(s) ==> (!no_symbol ==> has_symbol_char(s@)),
{
    broadcast use group_to_multiset_ensures;

    let mut password: Vec<u8> = Vec::new();
    let mut chars: Vec<u8> = Vec::new();
    let ghost mut up_idx: int = 0;
    let ghost mut low_idx: int = 0;
    let ghost mut num_idx: int = 0;
    let ghost mut sym_idx: int = 0;

    if !no_upper_case {
        let mut pool = upper_pool();
        match choose_byte(pool.as_slice()) {
            Some(b) => {
                password.push(b);
                proof {
                    up_idx = password@.len() - 1;
                }
            },
            None => {
                return Err(CryptoError::GenerationError);
            },
        }
        chars.append(&mut pool);
    }
    if !no_lower_case {
        let mut pool = lower_pool();
        match choose_byte(pool.as_slice()) {
            Some(b) => {
                password.push(b);
                proof {
                    low_idx = password@.len() - 1;
                }
            },
            None => {
                return Err(CryptoError::GenerationError);
            },
        }
        chars.append(&mut pool);
    }
    if !no_symbol {
        let mut pool = symbol_pool();
        match choose_byte(pool.as_slice()) {
            Some(b) => {
                password.push(b);
                proof {
                    sym_idx = password@.len() - 1;
                }
            },
            None => {
                return Err(CryptoError::GenerationError);
            },
        }
        chars.append(&mut pool);
    }
    if !no_number {
        let mut pool = number_pool();
        match choose_byte(pool.as_slice()) {
            Some(b) => {
                password.push(b);
                proof {
                    num_idx = password@.len() - 1;
                }
            },
            None => {
                return Err(CryptoError::GenerationError);
            },
        }
        chars.append(&mut pool);
    }

    let seeded = password.len() as u8;
    let fill = length - seeded;
    let mut i: u8 = 0;
    while i < fill
        invariant
            0 <= i <= fill,
            fill as int == length as int - seeded as int,
            password@.len() == seeded as int + i as int,
            seeded as int == included_count(no_upper_case, no_lower_case, no_number, no_symbol),
            chars@.len() > 0 <==> included_count(
                no_upper_case,
                no_lower_case,
                no_number,
                no_symbol,
            ) > 0,
            forall|j: int|
                #![trigger chars@[j]]
                0 <= j < chars@.len() ==> is_password_char(
                    chars@[j],
                    no_upper_case,
                    no_lower_case,
                    no_number,
                    no_symbol,
                ),
            forall|j: int|
                #![trigger password@[j]]
                0 <= j < password@.len() ==> is_password_char(
                    password@[j],
                    no_upper_case,
                    no_lower_case,
                    no_number,
                    no_symbol,
                ),
            !no_upper_case ==> 0 <= up_idx < password@.len() && is_upper_char(password@[up_idx]),
            !no_lower_case ==> 0 <= low_idx < password@.len() && is_lower_char(password@[low_idx]),
            !no_number ==> 0 <= num_idx < password@.len() && is_number_char(password@[num_idx]),
            !no_symbol ==> 0 <= sym_idx < password@.len() && is_symbol_char(password@[sym_idx]),
            i > 0 ==> included_count(no_upper_case, no_lower_case, no_number, no_symbol) > 0,
        decreases fill - i,
    {
        match choose_byte(chars.as_slice()) {
            Some(c) => password.push(c),
            None => {
                return Err(CryptoError::GenerationError);
            },
        }
        i = i + 1;
    }

    let ghost before = password@;
    shuffle_bytes(&mut password);
    proof {
        assert forall|j: int| 0 <= j < password@.len() implies is_password_char(
            #[trigger] password@[j],
            no_upper_case,
            no_lower_case,
            no_number,
            no_symbol,
        ) && password@[j] < 128 by {
            assert(password@.contains(password@[j]));
            assert(password@.to_multiset().count(password@[j]) > 0);
            assert(before.contains(password@[j]));
        }
        if !no_upper_case {
            assert(before.contains(before[up_idx]));
            assert(password@.to_multiset().count(before[up_idx]) > 0);
            assert(password@.contains(before[up_idx]));
        }
        if !no_lower_case {
            assert(before.contains(before[low_idx]));
            assert(password@.to_multiset().count(before[low_idx]) > 0);
            assert(password@.contains(before[low_idx]));
        }
        if !no_number {
            assert(before.contains(before[num_idx]));
            assert(password@.to_multiset().count(before[num_idx]) > 0);
            assert(password@.contains(before[num_idx]));
        }
        if !no_symbol {
            assert(before.contains(before[sym_idx]));
            assert(password@.to_multiset().count(before[sym_idx]) > 0);
            assert(password@.contains(before[sym_idx]));
        }
        lemma_ascii_bytes_utf8(password@);
    }
    let ghost final_bytes = password@;
    match bytes_to_string(password) {
        Some(s) => {
            proof {
                assert forall|j: int| #![trigger s@[j]] 0 <= j < s@.len() implies s@[j]
                    <= '\u{7f}' && is_password_char(
                    s@[j] as u8,
                    no_upper_case,
                    no_lower_case,
                    no_number,
                    no_symbol,
                ) by {
                    assert(s@[j] == final_bytes[j] as char);
                    assert(final_bytes[j] as char as u8 == final_bytes[j]);
                    assert(final_bytes[j] as char as u32 == final_bytes[j] as u32);
                }
                if !no_upper_case {
                    let x = before[up_idx];
                    let j = choose|j: int| 0 <= j < final_bytes.len() && final_bytes[j] == x;
                    assert(s@[j] == final_bytes[j] as char);
                    assert(is_upper_char(s@[j] as u8));
                }
                if !no_lower_case {
                    let x = before[low_idx];
                    let j = choose|j: int| 0 <= j < final_bytes.len() && final_bytes[j] == x;
                    assert(s@[j] == final_bytes[j] as char);
                    assert(is_lower_char(s@[j] as u8));
                }
                if !no_number {
                    let x = before[num_idx];
                    let j = choose|j: int| 0 <= j < final_bytes.len() && final_bytes[j] == x;
                    assert(s@[j] == final_bytes[j] as char);
                    assert(is_number_char(s@[j] as u8));
                }
                if !no_symbol {
                    let x = before[sym_idx];
                    let j = choose|j: int| 0 <= j < final_bytes.len() && final_bytes[j] == x;
                    assert(s@[j] == final_bytes[j] as char);
                    assert(is_symbol_char(s@[j] as u8));
                }
            }
            Ok(s)
        },
        None => Err(CryptoError::GenerationError),
    }
}

} // verus!
