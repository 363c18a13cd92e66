//! What holds of the text form of node ids.

use vstd::prelude::*;
use vstd::utf8::*;

use crate::error::VaultError;
use crate::node_id::{
    digit_pairs, digit_value, is_white_space, leading_digits, node_id_of, parse_node_id, trimmed,
    trimmed_end, trimmed_start, HexFault, NodeId, NodeIdFault,
};

verus! {

/// The value of a character that is a hexadecimal digit.
pub open spec fn char_value(c: char) -> Option<int> {
    if c <= '\u{7f}' {
        digit_value(c as u8)
    } else {
        None
    }
}

/// Whether a text is made of hexadecimal digits alone.
pub open spec fn all_digits(text: Seq<char>) -> bool {
    forall|i: int| 0 <= i < text.len() ==> char_value(#[trigger] text[i]) is Some
}

/// A text is a node id exactly if it is 64 hexadecimal digits, but for white space
/// around them.
pub proof fn a_node_id_is_64_digits(text: Seq<char>)
    ensures
        node_id_of(text) is Ok <==> trimmed(text).len() == 64 && all_digits(trimmed(text)),
{
    let digits = trimmed(text);
    let bytes = encode_utf8(digits);
    lemma_leading_digits(bytes);
    if node_id_of(text) is Ok {
        assert(digit_pairs(bytes).len() == 32);
        assert forall|i: int| 0 <= i < bytes.len() implies #[trigger] bytes[i] < 0x80 by {
            assert(digit_value(bytes[i]) is Some);
        }
        lemma_ascii_bytes(digits);
        is_ascii_chars_encode_utf8(digits);
        assert forall|i: int| 0 <= i < digits.len() implies char_value(
            #[trigger] digits[i],
        ) is Some by {
            assert(digit_value(bytes[i]) is Some);
        }
    }
    if digits.len() == 64 && all_digits(digits) {
        lemma_digit_bytes(digits);
    }
}

/// White space around a node id is ignored.
pub proof fn white_space_is_ignored(before: Seq<char>, text: Seq<char>, after: Seq<char>)
    requires
        forall|i: int| 0 <= i < before.len() ==> is_white_space(#[trigger] before[i]),
        forall|i: int| 0 <= i < after.len() ==> is_white_space(#[trigger] after[i]),
    ensures
        node_id_of(before + text + after) == node_id_of(text),
{
    assert(before + text + after == before + (text + after));
    lemma_start_drops(before, text + after);
    lemma_start_keeps(text, after);
    lemma_start_all(after);
    if trimmed_start(text).len() > 0 {
        lemma_end_drops(trimmed_start(text), after);
    } else {
        assert(trimmed_start(text) == Seq::<char>::empty());
    }
}

/// A node id is read back from its digits, of either case.
pub proof fn a_written_id_reads_back(id: Seq<u8>, digits: Seq<char>)
    requires
        id.len() == 32,
        digits.len() == 64,
        forall|i: int|
            0 <= i < 32 ==> char_value(digits[2 * i]) == Some((#[trigger] id[i]) as int / 16)
                && char_value(digits[2 * i + 1]) == Some(id[i] as int % 16),
    ensures
        node_id_of(digits) == Ok::<Seq<u8>, NodeIdFault>(id),
{
    assert forall|k: int| 0 <= k < 64 implies char_value(#[trigger] digits[k]) is Some by {
        let i = k / 2;
        assert(id[i] as int / 16 >= 0);
        assert(k == 2 * i || k == 2 * i + 1);
    }
    lemma_untrimmed(digits);
    lemma_digit_bytes(digits);
    let bytes = encode_utf8(digits);
    assert forall|i: int| 0 <= i < 32 implies digit_pairs(bytes)[i] == #[trigger] id[i] by {
        assert(digits[2 * i] as u8 == bytes[2 * i]);
        assert(digits[2 * i + 1] as u8 == bytes[2 * i + 1]);
    }
    assert(digit_pairs(bytes) == id);
}

/// The case of the digits does not matter.
pub proof fn case_does_not_matter(a: Seq<char>, b: Seq<char>)
    requires
        a.len() == b.len(),
        all_digits(a),
        forall|i: int| 0 <= i < a.len() ==> char_value(#[trigger] a[i]) == char_value(b[i]),
    ensures
        node_id_of(a) == node_id_of(b),
{
    assert forall|i: int| 0 <= i < b.len() implies char_value(#[trigger] b[i]) is Some by {
        assert(char_value(a[i]) is Some);
    }
    lemma_untrimmed(a);
    lemma_untrimmed(b);
    lemma_digit_bytes(a);
    lemma_digit_bytes(b);
    let x = encode_utf8(a);
    let y = encode_utf8(b);
    if a.len() % 2 == 0 {
        assert forall|i: int| 0 <= i < digit_pairs(x).len() implies #[trigger] digit_pairs(x)[i]
            == digit_pairs(y)[i] by {
            assert(a[2 * i] as u8 == x[2 * i] && b[2 * i] as u8 == y[2 * i]);
            assert(a[2 * i + 1] as u8 == x[2 * i + 1] && b[2 * i + 1] as u8 == y[2 * i + 1]);
        }
        assert(digit_pairs(x) == digit_pairs(y));
    }
}

/// What `parse_node_id` makes of a text, whatever white space stands around its digits: an
/// id exactly for 64 digits, with each byte the value of its two digits; otherwise the
/// error of an odd number of bytes, or of the first byte that is no digit, or of another
/// length, in this order.
pub proof fn what_an_id_is_read_from(
    hex_id: &str,
    before: Seq<char>,
    digits: Seq<char>,
    after: Seq<char>,
    read: Result<NodeId, VaultError>,
)
    requires
        call_ensures(parse_node_id, (hex_id,), read),
        hex_id@ == before + digits + after,
        forall|i: int| 0 <= i < before.len() ==> is_white_space(#[trigger] before[i]),
        forall|i: int| 0 <= i < after.len() ==> is_white_space(#[trigger] after[i]),
        digits.len() > 0 ==> !is_white_space(digits.first()) && !is_white_space(digits.last()),
    ensures
        read is Ok <==> digits.len() == 64 && all_digits(digits),
        read matches Ok(id) ==> forall|i: int|
            0 <= i < 32 ==> #[trigger] id@[i] == 16 * char_value(digits[2 * i])->0 + char_value(
                digits[2 * i + 1],
            )->0,
        encode_utf8(digits).len() % 2 != 0 ==> read == Err::<NodeId, VaultError>(
            VaultError::NodeId(NodeIdFault::Hex(HexFault::OddLength)),
        ),
        forall|k: int|
            encode_utf8(digits).len() % 2 == 0 && #[trigger] is_first_other(
                encode_utf8(digits),
                k,
            ) ==> read == Err::<NodeId, VaultError>(
                VaultError::NodeId(
                    NodeIdFault::Hex(
                        HexFault::InvalidHexCharacter {
                            c: encode_utf8(digits)[k] as char,
                            index: k as usize,
                        },
                    ),
                ),
            ),
        all_digits(digits) && digits.len() % 2 == 0 && digits.len() != 64 ==> read == Err::<
            NodeId,
            VaultError,
        >(VaultError::NodeId(NodeIdFault::Length)),
{
    white_space_is_ignored(before, digits, after);
    assert(trimmed(digits) == digits);
    a_node_id_is_64_digits(digits);
    let bytes = encode_utf8(digits);
    lemma_leading_digits(bytes);
    if all_digits(digits) {
        lemma_digit_bytes(digits);
    }
    if read is Ok {
        let id = read->Ok_0;
        assert forall|i: int| 0 <= i < 32 implies #[trigger] id@[i] == 16 * char_value(
            digits[2 * i],
        )->0 + char_value(digits[2 * i + 1])->0 by {
            assert(id@[i] == digit_pairs(bytes)[i]);
            assert(digits[2 * i] as u8 == bytes[2 * i]);
            assert(digits[2 * i + 1] as u8 == bytes[2 * i + 1]);
            assert(char_value(digits[2 * i]) is Some);
            assert(char_value(digits[2 * i + 1]) is Some);
        }
    }
    assert forall|k: int| bytes.len() % 2 == 0 && #[trigger] is_first_other(
        bytes,
        k,
    ) implies read == Err::<NodeId, VaultError>(
        VaultError::NodeId(
            NodeIdFault::Hex(
                HexFault::InvalidHexCharacter { c: bytes[k] as char, index: k as usize },
            ),
        ),
    ) by {
        lemma_first_other(bytes, k);
    }
}

/// Whether `k` is where the first byte that is no hexadecimal digit stands.
pub open spec fn is_first_other(bytes: Seq<u8>, k: int) -> bool {
    &&& 0 <= k < bytes.len()
    &&& digit_value(bytes[k]) is None
    &&& forall|j: int| 0 <= j < k ==> digit_value(#[trigger] bytes[j]) is Some
}

/// As many digits lead as stand before the first byte that is none.
proof fn lemma_first_other(bytes: Seq<u8>, k: int)
    requires
        is_first_other(bytes, k),
    ensures
        leading_digits(bytes) == k,
    decreases k,
{
    if k > 0 {
        let rest = bytes.drop_first();
        assert(digit_value(bytes[0]) is Some);
        assert forall|j: int| 0 <= j < k - 1 implies digit_value(#[trigger] rest[j]) is Some by {
            assert(rest[j] == bytes[j + 1]);
        }
        assert(rest[k - 1] == bytes[k]);
        lemma_first_other(rest, k - 1);
    }
}

/// A character is ordered by its code point, which is not negative.
proof fn lemma_char_range(c: char)
    ensures
        '\0' <= c,
        c as u32 <= 0x7f ==> c <= '\u{7f}',
{
}

/// All bytes are digits exactly if as many lead.
proof fn lemma_leading_digits(digits: Seq<u8>)
    ensures
        leading_digits(digits) <= digits.len(),
        leading_digits(digits) == digits.len() <==> forall|i: int|
            0 <= i < digits.len() ==> digit_value(#[trigger] digits[i]) is Some,
    decreases digits.len(),
{
    if digits.len() > 0 {
        let rest = digits.drop_first();
        lemma_leading_digits(rest);
        if leading_digits(digits) == digits.len() {
            assert forall|i: int| 0 <= i < digits.len() implies digit_value(
                #[trigger] digits[i],
            ) is Some by {
                if i > 0 {
                    assert(digit_value(rest[i - 1]) is Some);
                }
            }
        }
        if forall|i: int| 0 <= i < digits.len() ==> digit_value(#[trigger] digits[i]) is Some {
            assert forall|i: int| 0 <= i < rest.len() implies digit_value(
                #[trigger] rest[i],
            ) is Some by {
                assert(digit_value(digits[i + 1]) is Some);
            }
            assert(digit_value(digits[0]) is Some);
        }
    }
}

/// A text whose bytes are all ASCII has only ASCII characters.
proof fn lemma_ascii_bytes(chars: Seq<char>)
    requires
        forall|i: int| 0 <= i < encode_utf8(chars).len() ==> #[trigger] encode_utf8(chars)[i] < 0x80,
    ensures
        is_ascii_chars(chars),
    decreases chars.len(),
{
    if chars.len() > 0 {
        let rest = chars.drop_first();
        let first = encode_scalar(chars[0] as u32);
        let bytes = encode_utf8(chars);
        assert(bytes == first + encode_utf8(rest));
        encode_utf8_first_scalar(chars);
        assert(bytes[0] < 0x80);
        assert(first.len() == 1);
        assert(chars[0] as u32 <= 0x7f);
        assert forall|i: int| 0 <= i < encode_utf8(rest).len() implies #[trigger] encode_utf8(
            rest,
        )[i] < 0x80 by {
            assert(bytes[i + 1] == encode_utf8(rest)[i]);
        }
        lemma_ascii_bytes(rest);
        assert forall|i: int| 0 <= i < chars.len() implies '\0' <= #[trigger] chars[i]
            <= '\u{7f}' by {
            if i > 0 {
                assert(chars[i] == rest[i - 1]);
            }
            lemma_char_range(chars[i]);
        }
    }
}

/// The bytes of a text of digits are its digits, and all of them lead.
proof fn lemma_digit_bytes(digits: Seq<char>)
    requires
        all_digits(digits),
    ensures
        encode_utf8(digits).len() == digits.len(),
        forall|i: int| 0 <= i < digits.len() ==> digits[i] as u8 == #[trigger] encode_utf8(digits)[i],
        leading_digits(encode_utf8(digits)) == digits.len(),
{
    assert forall|i: int| 0 <= i < digits.len() implies '\0' <= #[trigger] digits[i] <= '\u{7f}' by {
        assert(char_value(digits[i]) is Some);
        lemma_char_range(digits[i]);
    }
    is_ascii_chars_encode_utf8(digits);
    lemma_leading_digits(encode_utf8(digits));
    assert forall|i: int| 0 <= i < digits.len() implies digit_value(
        #[trigger] encode_utf8(digits)[i],
    ) is Some by {
        assert(char_value(digits[i]) is Some);
    }
}

/// A text of digits has no white space around it.
proof fn lemma_untrimmed(digits: Seq<char>)
    requires
        all_digits(digits),
    ensures
        trimmed(digits) == digits,
{
    if digits.len() > 0 {
        assert(char_value(digits[0]) is Some);
        assert(char_value(digits[digits.len() - 1]) is Some);
    }
}

/// Leading white space is dropped.
proof fn lemma_start_drops(before: Seq<char>, text: Seq<char>)
    requires
        forall|i: int| 0 <= i < before.len() ==> is_white_space(#[trigger] before[i]),
    ensures
        trimmed_start(before + text) == trimmed_start(text),
    decreases before.len(),
{
    if before.len() == 0 {
        assert(before + text == text);
    } else {
        assert((before + text).first() == before[0]);
        assert((before + text).drop_first() == before.drop_first() + text);
        lemma_start_drops(before.drop_first(), text);
    }
}

/// White space is dropped altogether.
proof fn lemma_start_all(text: Seq<char>)
    requires
        forall|i: int| 0 <= i < text.len() ==> is_white_space(#[trigger] text[i]),
    ensures
        trimmed_start(text) == Seq::<char>::empty(),
    decreases text.len(),
{
    if text.len() > 0 {
        assert(is_white_space(text[0]));
        lemma_start_all(text.drop_first());
    }
}

/// What follows the first character that is no white space stays.
proof fn lemma_start_keeps(text: Seq<char>, after: Seq<char>)
    ensures
        trimmed_start(text).len() > 0 ==> trimmed_start(text + after) == trimmed_start(text)
            + after,
        trimmed_start(text).len() == 0 ==> trimmed_start(text + after) == trimmed_start(after),
    decreases text.len(),
{
    if text.len() == 0 {
        assert(text + after == after);
    } else {
        assert((text + after).first() == text.first());
        if is_white_space(text.first()) {
            assert((text + after).drop_first() == text.drop_first() + after);
            lemma_start_keeps(text.drop_first(), after);
        }
    }
}

/// Trailing white space is dropped.
proof fn lemma_end_drops(text: Seq<char>, after: Seq<char>)
    requires
        forall|i: int| 0 <= i < after.len() ==> is_white_space(#[trigger] after[i]),
    ensures
        trimmed_end(text + after) == trimmed_end(text),
    decreases after.len(),
{
    if after.len() == 0 {
        assert(text + after == text);
    } else {
        assert((text + after).last() == after[after.len() - 1]);
        assert((text + after).drop_last() == text + after.drop_last());
        lemma_end_drops(text, after.drop_last());
    }
}

} // verus!
