//! Node ids: 32 bytes, written as 64 hexadecimal digits.

use vstd::prelude::*;
use vstd::utf8::*;

use crate::error::VaultError;

verus! {

/// A node id.
pub type NodeId = [u8; 32];

/// Why a text is not hexadecimal: the errors of `hex::FromHexError`.
#[derive(Clone, Copy, Debug, PartialEq, Eq, Structural)]
pub enum HexFault {
    InvalidHexCharacter { c: char, index: usize },
    OddLength,
    InvalidStringLength,
}

/// Why a text is not a node id.
#[derive(Clone, Copy, Debug, PartialEq, Eq, Structural)]
pub enum NodeIdFault {
    /// It is not hexadecimal.
    Hex(HexFault),
    /// It does not have 32 bytes.
    Length,
}

/// The characters with the Unicode property `White_Space`.
pub open spec fn is_white_space(c: char) -> bool {
    ||| '\u{9}' <= c <= '\u{d}'
    ||| c == '\u{20}'
    ||| c == '\u{85}'
    ||| c == '\u{a0}'
    ||| c == '\u{1680}'
    ||| '\u{2000}' <= c <= '\u{200a}'
    ||| c == '\u{2028}'
    ||| c == '\u{2029}'
    ||| c == '\u{202f}'
    ||| c == '\u{205f}'
    ||| c == '\u{3000}'
}

/// A text without its leading white space.
pub open spec fn trimmed_start(text: Seq<char>) -> Seq<char>
    decreases text.len(),
{
    if text.len() > 0 && is_white_space(text.first()) {
        trimmed_start(text.drop_first())
    } else {
        text
    }
}

/// A text without its trailing white space.
pub open spec fn trimmed_end(text: Seq<char>) -> Seq<char>
    decreases text.len(),
{
    if text.len() > 0 && is_white_space(text.last()) {
        trimmed_end(text.drop_last())
    } else {
        text
    }
}

/// A text without its leading and trailing white space.
pub open spec fn trimmed(text: Seq<char>) -> Seq<char> {
    trimmed_end(trimmed_start(text))
}

/// `str::trim`: the text without its leading and trailing white space, which is
/// the Unicode property `White_Space`.
pub assume_specification[ str::trim ](text: &str) -> (result: &str)
    ensures
        result@ == trimmed(text@),
;

/// The value of a hexadecimal digit of either case.
pub open spec fn digit_value(digit: u8) -> Option<int> {
    if 0x30 <= digit <= 0x39 {
        Some(digit - 0x30)
    } else if 0x41 <= digit <= 0x46 {
        Some(digit - 0x41 + 10)
    } else if 0x61 <= digit <= 0x66 {
        Some(digit - 0x61 + 10)
    } else {
        None
    }
}

/// How many hexadecimal digits `digits` starts with.
pub open spec fn leading_digits(digits: Seq<u8>) -> nat
    decreases digits.len(),
{
    if digits.len() == 0 || digit_value(digits.first()) is None {
        0
    } else {
        1 + leading_digits(digits.drop_first())
    }
}

/// The bytes that pairs of hexadecimal digits write.
pub open spec fn digit_pairs(digits: Seq<u8>) -> Seq<u8> {
    Seq::new(
        digits.len() / 2,
        |i: int| (16 * digit_value(digits[2 * i])->0 + digit_value(digits[2 * i + 1])->0) as u8,
    )
}

/// The bytes that hexadecimal text writes, or why the text is not hexadecimal: it
/// has an odd length, or the first byte that is not a digit stands at an index.
pub open spec fn hex_decoded(digits: Seq<u8>) -> Result<Seq<u8>, HexFault> {
    if digits.len() % 2 != 0 {
        Err(HexFault::OddLength)
    } else if leading_digits(digits) < digits.len() {
        Err(
            HexFault::InvalidHexCharacter {
                c: digits[leading_digits(digits) as int] as char,
                index: leading_digits(digits) as usize,
            },
        )
    } else {
        Ok(digit_pairs(digits))
    }
}

/// The bytes of a result.
pub open spec fn bytes_of<E>(bytes: Result<Vec<u8>, E>) -> Result<Seq<u8>, E> {
    match bytes {
        Ok(bytes) => Ok(bytes@),
        Err(error) => Err(error),
    }
}

/// `hex::decode`: the bytes that hexadecimal text writes, two digits of either
/// case to a byte. It reports an odd length first, and otherwise the first byte of
/// the text that is not a digit.
#[verifier::external_body]
pub(crate) fn decode_hex(text: &str) -> (bytes: Result<Vec<u8>, HexFault>)
    ensures
        bytes_of(bytes) == hex_decoded(encode_utf8(text@)),
{
    hex::decode(text).map_err(|error| match error {
        hex::FromHexError::InvalidHexCharacter { c, index } => {
            HexFault::InvalidHexCharacter { c, index }
        },
        hex::FromHexError::OddLength => HexFault::OddLength,
        hex::FromHexError::InvalidStringLength => HexFault::InvalidStringLength,
    })
}

/// The text that `hex::FromHexError::InvalidHexCharacter` displays.
pub uninterp spec fn invalid_character_text(c: char, index: usize) -> Seq<char>;

/// The text that an error of `hex` displays.
pub open spec fn hex_fault_text(fault: HexFault) -> Seq<char> {
    match fault {
        HexFault::InvalidHexCharacter { c, index } => invalid_character_text(c, index),
        HexFault::OddLength => "Odd number of digits"@,
        HexFault::InvalidStringLength => "Invalid string length"@,
    }
}

/// `ToString::to_string` of a `hex::FromHexError`: the text it displays.
#[verifier::external_body]
pub(crate) fn hex_fault_message(fault: HexFault) -> (text: String)
    ensures
        match fault {
            HexFault::InvalidHexCharacter { c, index } => text@ == invalid_character_text(c, index),
            HexFault::OddLength => text@ == "Odd number of digits"@,
            HexFault::InvalidStringLength => text@ == "Invalid string length"@,
        },
{
    match fault {
        HexFault::InvalidHexCharacter { c, index } => {
            hex::FromHexError::InvalidHexCharacter { c, index }.to_string()
        },
        HexFault::OddLength => hex::FromHexError::OddLength.to_string(),
        HexFault::InvalidStringLength => hex::FromHexError::InvalidStringLength.to_string(),
    }
}

/// The node id that a text writes: 64 hexadecimal digits of either case, with
/// white space around them ignored.
pub open spec fn node_id_of(text: Seq<char>) -> Result<Seq<u8>, NodeIdFault> {
    match hex_decoded(encode_utf8(trimmed(text))) {
        Ok(bytes) => if bytes.len() == 32 {
            Ok(bytes)
        } else {
            Err(NodeIdFault::Length)
        },
        Err(fault) => Err(NodeIdFault::Hex(fault)),
    }
}

/// The node ids that some texts write, or the fault of the first text that writes none.
pub open spec fn node_ids_of(hexes: Seq<Seq<char>>) -> Result<Seq<Seq<u8>>, NodeIdFault>
    decreases hexes.len(),
{
    if hexes.len() == 0 {
        Ok(Seq::empty())
    } else {
        match node_ids_of(hexes.drop_last()) {
            Ok(ids) => match node_id_of(hexes.last()) {
                Ok(id) => Ok(ids.push(id)),
                Err(fault) => Err(fault),
            },
            Err(fault) => Err(fault),
        }
    }
}

/// Reads a node id.
pub fn parse_node_id(hex_id: &str) -> (id: Result<NodeId, VaultError>)
    ensures
        match node_id_of(hex_id@) {
            Ok(bytes) => id matches Ok(id) && id@ == bytes,
            Err(fault) => id == Err::<NodeId, VaultError>(VaultError::NodeId(fault)),
        },
{
    match decode_hex(hex_id.trim()) {
        Ok(bytes) => {
            if bytes.len() != 32 {
                return Err(VaultError::NodeId(NodeIdFault::Length));
            }
            let mut id: NodeId = [0u8;32];
            let mut i: usize = 0;
            while i < 32
                invariant
                    i <= 32,
                    bytes@.len() == 32,
                    forall|j: int| 0 <= j < i ==> id@[j] == bytes@[j],
                decreases 32 - i,
            {
                id[i] = bytes[i];
                i = i + 1;
            }
            assert(id@ == bytes@);
            Ok(id)
        },
        Err(fault) => Err(VaultError::NodeId(NodeIdFault::Hex(fault))),
    }
}

} // verus!
