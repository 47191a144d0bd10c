//! The chunk type: four bytes that name a chunk and, in the case of each
//! letter, carry one flag.

use crate::ascii::{
    all_letter_chars, all_letters, case_bit, case_bit_of, first_non_letter, first_non_letter_at,
    is_letter, is_letter_char, is_lower, is_upper, lemma_case_bit_is_case,
    lemma_first_non_letter_exists, lemma_first_non_letter_unique,
};
use crate::error::ChunkTypeError;
use crate::text::{all_ascii, ascii_text, decode_lossy, lemma_ascii_is_utf8, utf8_lossy};
use std::str::FromStr;
use vstd::prelude::*;
use vstd::string::StringSliceAdditionalSpecFns;
use vstd::utf8::*;

verus! {

/// A chunk type. Any four bytes make one; whether they are a well-formed
/// type is what `is_valid` tells.
#[derive(Debug, Clone, Copy)]
pub struct ChunkType {
    chunks: [u8; 4],
}

/// What reading `bytes` as a chunk type gives: the bytes themselves where
/// they are four ASCII letters, and otherwise the reason for refusing them.
/// A wrong length is reported before a wrong byte, and of several wrong
/// bytes the first.
pub open spec fn parse_text(bytes: Seq<u8>) -> Result<Seq<u8>, ChunkTypeError> {
    if bytes.len() != 4 {
        Err(ChunkTypeError::InvalidLength(bytes.len() as usize))
    } else if !all_letters(bytes) {
        Err(ChunkTypeError::InvalidCharacter(bytes[first_non_letter(bytes)]))
    } else {
        Ok(bytes)
    }
}

/// `bytes` is a well-formed chunk type: four ASCII letters, the third of
/// them upper-case.
pub open spec fn well_formed(bytes: Seq<u8>) -> bool {
    &&& bytes.len() == 4
    &&& all_letters(bytes)
    &&& !case_bit(bytes[2])
}

impl View for ChunkType {
    type V = Seq<u8>;

    /// The four bytes, in order.
    open spec fn view(&self) -> Seq<u8> {
        self.spec_bytes()@
    }
}

impl ChunkType {
    /// The four bytes of this chunk type.
    pub closed spec fn spec_bytes(&self) -> [u8; 4] {
        self.chunks
    }

    /// The chunk type made of `bytes`.
    pub closed spec fn spec_from_bytes(bytes: [u8; 4]) -> ChunkType {
        ChunkType { chunks: bytes }
    }

    /// The first byte is upper-case: the chunk is critical, not ancillary.
    pub open spec fn spec_is_critical(&self) -> bool {
        !case_bit(self@[0])
    }

    /// The second byte is upper-case: the chunk is public, not private.
    pub open spec fn spec_is_public(&self) -> bool {
        !case_bit(self@[1])
    }

    /// The third byte is upper-case, as this version of the format demands.
    pub open spec fn spec_is_reserved_bit_valid(&self) -> bool {
        !case_bit(self@[2])
    }

    /// The fourth byte is lower-case: the chunk is safe to copy.
    pub open spec fn spec_is_safe_to_copy(&self) -> bool {
        case_bit(self@[3])
    }

    /// Returns the four bytes as they are.
    #[verifier::when_used_as_spec(spec_bytes)]
    pub fn bytes(&self) -> (bytes: [u8; 4])
        ensures
            bytes == self.spec_bytes(),
    {
        self.chunks
    }

    /// Tells whether this is a well-formed chunk type: all four bytes are
    /// ASCII letters and the reserved bit is valid.
    pub fn is_valid(&self) -> (valid: bool)
        ensures
            valid == well_formed(self@),
            valid == (all_letters(self@) && self.spec_is_reserved_bit_valid()),
    {
        let bytes = self.bytes();
        let mut i: usize = 0;
        while i < 4
            invariant
                i <= 4,
                bytes == self.spec_bytes(),
                forall|j: int| 0 <= j < i ==> is_letter(#[trigger] bytes@[j]),
            decreases 4 - i,
        {
            if !Self::is_valid_byte(bytes[i]) {
                return false;
            }
            i += 1;
        }
        self.is_reserved_bit_valid()
    }

    /// Tells whether `byte` is an ASCII letter, `A`-`Z` or `a`-`z`.
    pub fn is_valid_byte(byte: u8) -> (valid: bool)
        ensures
            valid == is_letter(byte),
    {
        (65 <= byte && byte <= 90) || (97 <= byte && byte <= 122)
    }

    /// Tells whether the chunk is critical: bit 5 of the first byte is clear.
    #[verifier::when_used_as_spec(spec_is_critical)]
    pub fn is_critical(&self) -> (critical: bool)
        ensures
            critical == self.spec_is_critical(),
    {
        !case_bit_of(self.chunks[0])
    }

    /// Tells whether the chunk is public: bit 5 of the second byte is clear.
    #[verifier::when_used_as_spec(spec_is_public)]
    pub fn is_public(&self) -> (public: bool)
        ensures
            public == self.spec_is_public(),
    {
        !case_bit_of(self.chunks[1])
    }

    /// Tells whether the reserved bit is valid: bit 5 of the third byte is
    /// clear.
    #[verifier::when_used_as_spec(spec_is_reserved_bit_valid)]
    pub fn is_reserved_bit_valid(&self) -> (valid: bool)
        ensures
            valid == self.spec_is_reserved_bit_valid(),
    {
        !case_bit_of(self.chunks[2])
    }

    /// Tells whether the chunk is safe to copy: bit 5 of the fourth byte is
    /// set.
    #[verifier::when_used_as_spec(spec_is_safe_to_copy)]
    pub fn is_safe_to_copy(&self) -> (safe: bool)
        ensures
            safe == self.spec_is_safe_to_copy(),
    {
        case_bit_of(self.chunks[3])
    }

    /// Renders the four bytes as text. Bytes that are no well-formed UTF-8
    /// are replaced, never refused; four ASCII bytes come out as their four
    /// characters.
    pub fn to_string(&self) -> (text: String)
        ensures
            text@ == utf8_lossy(self@),
            valid_utf8(self@) ==> text@ == decode_utf8(self@),
            all_ascii(self@) ==> text@ == ascii_text(self@),
    {
        proof {
            if all_ascii(self@) {
                lemma_ascii_is_utf8(self@);
            }
        }
        decode_lossy(self.chunks.as_slice())
    }
}

impl PartialEq for ChunkType {
    /// Two chunk types are equal when their bytes are.
    fn eq(&self, other: &Self) -> (equal: bool) {
        let equal = self.chunks[0] == other.chunks[0] && self.chunks[1] == other.chunks[1]
            && self.chunks[2] == other.chunks[2] && self.chunks[3] == other.chunks[3];
        proof {
            if equal {
                assert(self.chunks =~= other.chunks);
            }
        }
        equal
    }
}

impl Eq for ChunkType {}

impl vstd::std_specs::cmp::PartialEqSpecImpl for ChunkType {
    open spec fn obeys_eq_spec() -> bool {
        true
    }

    open spec fn eq_spec(&self, other: &Self) -> bool {
        self.spec_bytes() == other.spec_bytes()
    }
}

impl TryFrom<[u8; 4]> for ChunkType {
    type Error = ChunkTypeError;

    /// Makes a chunk type of any four bytes, unchecked. Never fails.
    fn try_from(bytes: [u8; 4]) -> (result: Result<ChunkType, ChunkTypeError>)
        ensures
            result matches Ok(tag) && tag.spec_bytes() == bytes,
    {
        Ok(ChunkType { chunks: bytes })
    }
}

impl vstd::std_specs::convert::TryFromSpecImpl<[u8; 4]> for ChunkType {
    open spec fn obeys_try_from_spec() -> bool {
        true
    }

    open spec fn try_from_spec(bytes: [u8; 4]) -> Result<ChunkType, ChunkTypeError> {
        Ok(ChunkType::spec_from_bytes(bytes))
    }
}

impl FromStr for ChunkType {
    type Err = ChunkTypeError;

    /// Reads a chunk type from a text of exactly four bytes, each an ASCII
    /// letter. The text counts as its bytes: a text of fewer than four
    /// characters whose UTF-8 form is four bytes long passes the length test
    /// and is refused for its first byte that is no letter.
    fn from_str(s: &str) -> (result: Result<ChunkType, ChunkTypeError>)
        ensures
            match result {
                Ok(tag) => parse_text(s.spec_bytes()) == Ok::<Seq<u8>, ChunkTypeError>(tag@),
                Err(error) => parse_text(s.spec_bytes()) == Err::<Seq<u8>, ChunkTypeError>(error),
            },
            result is Ok <==> s@.len() == 4 && all_letter_chars(s@),
            result matches Ok(tag) ==> ascii_text(tag@) == s@,
    {
        let characters = s.as_bytes();
        if characters.len() != 4 {
            proof {
                if s@.len() == 4 && all_letter_chars(s@) {
                    lemma_letters_are_read(s@);
                }
            }
            return Err(ChunkTypeError::InvalidLength(characters.len()));
        }
        let mut chunks: [u8; 4] = [0, 0, 0, 0];
        let mut i: usize = 0;
        while i < 4
            invariant
                i <= 4,
                characters@.len() == 4,
                characters@ == s.spec_bytes(),
                forall|j: int| 0 <= j < i ==> is_letter(#[trigger] characters@[j]),
                forall|j: int| 0 <= j < i ==> chunks@[j] == characters@[j],
            decreases 4 - i,
        {
            let character = characters[i];
            if !Self::is_valid_byte(character) {
                proof {
                    assert(first_non_letter_at(characters@, i as int));
                    lemma_first_non_letter_exists(characters@);
                    lemma_first_non_letter_unique(
                        characters@,
                        i as int,
                        first_non_letter(characters@),
                    );
                    if s@.len() == 4 && all_letter_chars(s@) {
                        lemma_letters_are_read(s@);
                    }
                }
                return Err(ChunkTypeError::InvalidCharacter(character));
            }
            chunks[i] = character;
            i += 1;
        }
        proof {
            assert(chunks@ =~= characters@);
            lemma_only_letters_are_read(s@);
            lemma_letters_are_read(s@);
        }
        Ok(ChunkType { chunks })
    }
}

/// Making a chunk type of four bytes and taking its bytes gives the four
/// bytes back.
pub proof fn lemma_bytes_round_trip(bytes: [u8; 4])
    ensures
        ChunkType::spec_from_bytes(bytes).spec_bytes() == bytes,
        ChunkType::spec_from_bytes(bytes)@ == bytes@,
{
}

/// Every chunk type is the one made of its own bytes.
pub proof fn lemma_made_of_own_bytes(tag: ChunkType)
    ensures
        ChunkType::spec_from_bytes(tag.spec_bytes()) == tag,
{
}

/// Two chunk types are equal exactly when their bytes are equal, one by one.
pub proof fn lemma_equal_iff_same_bytes(a: ChunkType, b: ChunkType)
    ensures
        a == b <==> a.spec_bytes() == b.spec_bytes(),
        a == b <==> a@ == b@,
        a == b <==> (a@[0] == b@[0] && a@[1] == b@[1] && a@[2] == b@[2] && a@[3] == b@[3]),
{
    if a@[0] == b@[0] && a@[1] == b@[1] && a@[2] == b@[2] && a@[3] == b@[3] {
        assert(a.spec_bytes() =~= b.spec_bytes());
    }
}

/// A text of four ASCII letters is read as the chunk type of its four
/// bytes, one per letter, and those bytes decode to the text again.
pub proof fn lemma_letters_are_read(chars: Seq<char>)
    requires
        chars.len() == 4,
        all_letter_chars(chars),
    ensures
        parse_text(encode_utf8(chars)) == Ok::<Seq<u8>, ChunkTypeError>(encode_utf8(chars)),
        forall|i: int| 0 <= i < 4 ==> encode_utf8(chars)[i] == chars[i] as u8,
        valid_utf8(encode_utf8(chars)),
        decode_utf8(encode_utf8(chars)) == chars,
        ascii_text(encode_utf8(chars)) == chars,
{
    let bytes = encode_utf8(chars);
    assert(is_ascii_chars(chars));
    is_ascii_chars_encode_utf8(chars);
    assert forall|i: int| 0 <= i < bytes.len() implies is_letter(#[trigger] bytes[i]) by {
        assert(is_letter_char(chars[i]));
        assert(bytes[i] == chars[i] as u8);
    }
    encode_utf8_valid_utf8(chars);
    encode_utf8_decode_utf8(chars);
    lemma_ascii_is_utf8(bytes);
}

/// Only a text of four ASCII letters is read: a text with a character
/// outside ASCII is refused, even where its UTF-8 form is four bytes long.
pub proof fn lemma_only_letters_are_read(chars: Seq<char>)
    requires
        parse_text(encode_utf8(chars)) is Ok,
    ensures
        chars.len() == 4,
        all_letter_chars(chars),
{
    let bytes = encode_utf8(chars);
    assert(all_ascii(bytes)) by {
        assert forall|i: int| 0 <= i < bytes.len() implies #[trigger] bytes[i] < 128 by {
            assert(is_letter(bytes[i]));
        }
    }
    lemma_ascii_is_utf8(bytes);
    encode_utf8_decode_utf8(chars);
    assert(chars == ascii_text(bytes));
    assert forall|i: int| 0 <= i < chars.len() implies is_letter_char(#[trigger] chars[i]) by {
        assert(is_letter(bytes[i]));
        assert(chars[i] == bytes[i] as char);
    }
}

/// A text that is not four bytes long is refused for its length, whatever
/// its bytes are.
pub proof fn lemma_wrong_length_is_refused(bytes: Seq<u8>)
    requires
        bytes.len() != 4,
    ensures
        parse_text(bytes) == Err::<Seq<u8>, ChunkTypeError>(
            ChunkTypeError::InvalidLength(bytes.len() as usize),
        ),
{
}

/// A text of four bytes of which one is no ASCII letter is refused for a
/// byte: the first of its bytes that is no letter.
pub proof fn lemma_non_letter_is_refused(bytes: Seq<u8>, i: int)
    requires
        bytes.len() == 4,
        0 <= i < 4,
        !is_letter(bytes[i]),
    ensures
        parse_text(bytes) matches Err(ChunkTypeError::InvalidCharacter(byte)) && !is_letter(byte)
            && exists|j: int| 0 <= j <= i && first_non_letter_at(bytes, j) && bytes[j] == byte,
{
    lemma_first_non_letter_exists(bytes);
    let j = first_non_letter(bytes);
    if i < j {
        assert(is_letter(bytes[i]));
    }
    assert(0 <= j <= i && first_non_letter_at(bytes, j));
}

/// In a chunk type made of letters each flag is the case of one letter: an
/// upper-case first, second or third letter means critical, public or
/// reserved-bit-valid, and a lower-case fourth letter means safe to copy.
pub proof fn lemma_flags_are_letter_cases(tag: ChunkType)
    requires
        all_letters(tag@),
    ensures
        tag.spec_is_critical() <==> is_upper(tag@[0]),
        tag.spec_is_public() <==> is_upper(tag@[1]),
        tag.spec_is_reserved_bit_valid() <==> is_upper(tag@[2]),
        tag.spec_is_safe_to_copy() <==> is_lower(tag@[3]),
        well_formed(tag@) <==> is_upper(tag@[2]),
{
    assert(is_letter(tag@[0]) && is_letter(tag@[1]) && is_letter(tag@[2]) && is_letter(tag@[3]));
    lemma_case_bit_is_case(tag@[0]);
    lemma_case_bit_is_case(tag@[1]);
    lemma_case_bit_is_case(tag@[2]);
    lemma_case_bit_is_case(tag@[3]);
}

} // verus!
