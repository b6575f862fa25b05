//! Content hashes and the decoding of hash literals.

use vstd::prelude::*;

verus! {

/// Number of bytes in a content hash.
pub const HASH_LEN: usize = 32;

/// A fixed-size digest that identifies a definition by its content.
#[derive(Clone, Copy, Debug, PartialEq, Eq, Hash)]
pub struct DefinitionHash(pub [u8; 32]);

impl View for DefinitionHash {
    type V = Seq<u8>;

    open spec fn view(&self) -> Seq<u8> {
        self.0@
    }
}

/// The view of an optional hash.
pub open spec fn option_view(hash: Option<DefinitionHash>) -> Option<Seq<u8>> {
    match hash {
        Some(h) => Some(h@),
        None => None,
    }
}

/// Whether `c` is one of `0-9`, `a-f`, `A-F`.
pub open spec fn is_hex_digit(c: char) -> bool {
    ||| '0' <= c <= '9'
    ||| 'a' <= c <= 'f'
    ||| 'A' <= c <= 'F'
}

/// The number that a hexadecimal digit stands for.
pub open spec fn hex_digit_value(c: char) -> int {
    if '0' <= c <= '9' {
        c as int - '0' as int
    } else if 'a' <= c <= 'f' {
        c as int - 'a' as int + 10
    } else {
        c as int - 'A' as int + 10
    }
}

/// Whether `text` is an even number of hexadecimal digits.
pub open spec fn is_hex_text(text: Seq<char>) -> bool {
    &&& text.len() % 2 == 0
    &&& forall|i: int| 0 <= i < text.len() ==> is_hex_digit(#[trigger] text[i])
}

/// The bytes that hexadecimal `text` spells, two digits to a byte, the
/// high digit first.
pub open spec fn hex_bytes(text: Seq<char>) -> Seq<u8> {
    Seq::new(
        text.len() / 2,
        |i: int| (16 * hex_digit_value(text[2 * i]) + hex_digit_value(text[2 * i + 1])) as u8,
    )
}

/// Whether `text` is a well-formed hash literal: exactly 64 hexadecimal digits.
pub open spec fn is_hash_literal(text: Seq<char>) -> bool {
    is_hex_text(text) && text.len() == 2 * HASH_LEN
}

#[verifier::external_type_specification]
#[verifier::external_body]
pub struct ExFromHexError(hex::FromHexError);

/// `hex::decode` on the text of a string. It succeeds exactly on an even
/// number of hexadecimal digits of either case, and then yields one byte
/// for each pair of digits, the first digit of a pair being the high half.
#[verifier::external_body]
fn hex_decode(text: &String) -> (res: Result<Vec<u8>, hex::FromHexError>)
    ensures
        res is Ok <==> is_hex_text(text@),
        res matches Ok(bytes) ==> bytes@ == hex_bytes(text@),
{
    hex::decode(text)
}

impl DefinitionHash {
    /// Whether two hashes hold the same bytes.
    pub fn same(&self, other: &DefinitionHash) -> (b: bool)
        ensures
            b == (self@ == other@),
    {
        let mut i: usize = 0;
        while i < 32
            invariant
                i <= 32,
                forall|j: int| 0 <= j < i ==> self.0[j] == other.0[j],
            decreases 32 - i,
        {
            if self.0[i] != other.0[i] {
                return false;
            }
            i += 1;
        }
        assert(self@ =~= other@);
        true
    }

    /// Decodes a hash literal. The literal is taken if and only if it is
    /// exactly 64 hexadecimal digits; anything else yields `None`.
    pub fn from_hex(text: &String) -> (res: Option<DefinitionHash>)
        ensures
            res is Some <==> is_hash_literal(text@),
            res matches Some(h) ==> h@ == hex_bytes(text@),
    {
        match hex_decode(text) {
            Ok(bytes) => {
                if bytes.len() == 32 {
                    let mut arr = [0u8; 32];
                    let mut i: usize = 0;
                    while i < 32
                        invariant
                            i <= 32,
                            bytes.len() == 32,
                            forall|j: int| 0 <= j < i ==> arr[j] == bytes[j],
                        decreases 32 - i,
                    {
                        arr[i] = bytes[i];
                        i += 1;
                    }
                    Some(DefinitionHash(arr))
                } else {
                    None
                }
            },
            Err(_) => None,
        }
    }
}

} // verus!
