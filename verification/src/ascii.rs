//! ASCII letters and their case bit.
//!
//! An upper-case ASCII letter and its lower-case form differ in exactly one
//! bit, bit 5 (mask `0x20`). A chunk type stores one flag in that bit of each
//! of its four bytes.

use vstd::prelude::*;

verus! {

/// `byte` is an ASCII letter: `A`-`Z` (65-90) or `a`-`z` (97-122).
pub open spec fn is_letter(byte: u8) -> bool {
    (65 <= byte <= 90) || (97 <= byte <= 122)
}

/// `c` is an ASCII letter.
pub open spec fn is_letter_char(c: char) -> bool {
    ('A' <= c <= 'Z') || ('a' <= c <= 'z')
}

/// `byte` is an upper-case ASCII letter.
pub open spec fn is_upper(byte: u8) -> bool {
    65 <= byte <= 90
}

/// `byte` is a lower-case ASCII letter.
pub open spec fn is_lower(byte: u8) -> bool {
    97 <= byte <= 122
}

/// Bit 5 of `byte` is set.
pub open spec fn case_bit(byte: u8) -> bool {
    byte & 0x20 == 0x20
}

/// Every element of `bytes` is an ASCII letter.
pub open spec fn all_letters(bytes: Seq<u8>) -> bool {
    forall|i: int| 0 <= i < bytes.len() ==> is_letter(#[trigger] bytes[i])
}

/// Every element of `chars` is an ASCII letter.
pub open spec fn all_letter_chars(chars: Seq<char>) -> bool {
    forall|i: int| 0 <= i < chars.len() ==> is_letter_char(#[trigger] chars[i])
}

/// `i` is the position of the first element of `bytes` that is no ASCII
/// letter.
pub open spec fn first_non_letter_at(bytes: Seq<u8>, i: int) -> bool {
    &&& 0 <= i < bytes.len()
    &&& !is_letter(bytes[i])
    &&& forall|j: int| 0 <= j < i ==> is_letter(#[trigger] bytes[j])
}

/// The position of the first element of `bytes` that is no ASCII letter.
/// Meaningful only when `bytes` holds such an element.
pub open spec fn first_non_letter(bytes: Seq<u8>) -> int
    recommends
        !all_letters(bytes),
{
    choose|i: int| first_non_letter_at(bytes, i)
}

/// Reads bit 5 of `byte`.
pub fn case_bit_of(byte: u8) -> (set: bool)
    ensures
        set == case_bit(byte),
{
    assert(((byte >> 5) & 0x1 == 1) <==> (byte & 0x20 == 0x20)) by (bit_vector);
    (byte >> 5) & 0x1 == 1
}

/// Among ASCII letters the case bit tells the case: it is clear in exactly
/// the upper-case letters and set in exactly the lower-case ones.
pub proof fn lemma_case_bit_is_case(byte: u8)
    requires
        is_letter(byte),
    ensures
        case_bit(byte) <==> is_lower(byte),
        !case_bit(byte) <==> is_upper(byte),
{
    assert(((65 <= byte <= 90) || (97 <= byte <= 122)) ==> ((byte & 0x20 == 0x20) <==> (97 <= byte
        <= 122))) by (bit_vector);
}

/// At most one position is that of the first non-letter.
pub proof fn lemma_first_non_letter_unique(bytes: Seq<u8>, i: int, j: int)
    requires
        first_non_letter_at(bytes, i),
        first_non_letter_at(bytes, j),
    ensures
        i == j,
{
    if i < j {
        assert(is_letter(bytes[i]));
    } else if j < i {
        assert(is_letter(bytes[j]));
    }
}

/// A sequence with a non-letter has a first one, and `first_non_letter`
/// names its position.
pub proof fn lemma_first_non_letter_exists(bytes: Seq<u8>)
    requires
        !all_letters(bytes),
    ensures
        first_non_letter_at(bytes, first_non_letter(bytes)),
{
    let k = choose|k: int| 0 <= k < bytes.len() && !is_letter(#[trigger] bytes[k]);
    lemma_first_non_letter_before(bytes, k);
}

/// Below any non-letter lies the first one.
proof fn lemma_first_non_letter_before(bytes: Seq<u8>, k: int)
    requires
        0 <= k < bytes.len(),
        !is_letter(bytes[k]),
    ensures
        exists|i: int| 0 <= i <= k && first_non_letter_at(bytes, i),
    decreases k,
{
    if forall|j: int| 0 <= j < k ==> is_letter(#[trigger] bytes[j]) {
        assert(first_non_letter_at(bytes, k));
    } else {
        let j = choose|j: int| 0 <= j < k && !is_letter(#[trigger] bytes[j]);
        lemma_first_non_letter_before(bytes, j);
    }
}

} // verus!
