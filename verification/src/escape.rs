//! Percent-encoding of text that is embedded in the query part of a URL.

use vstd::prelude::*;
use crate::text::push_char;

verus! {

/// The bytes that a URL carries as they are: ASCII letters, digits, `-`, `.`, `_` and `~`.
pub open spec fn is_unreserved(b: u8) -> bool {
    ||| 0x30 <= b <= 0x39
    ||| 0x41 <= b <= 0x5a
    ||| 0x61 <= b <= 0x7a
    ||| b == 0x2d
    ||| b == 0x2e
    ||| b == 0x5f
    ||| b == 0x7e
}

/// The upper-case hexadecimal digit for a value below sixteen.
pub open spec fn hex_digit(nibble: u8) -> char {
    if nibble < 10 {
        ((0x30 + nibble) as u8) as char
    } else {
        ((0x37 + nibble) as u8) as char
    }
}

/// What one byte becomes: itself when unreserved, else `%` and two hexadecimal digits.
pub open spec fn escaped_byte(b: u8) -> Seq<char> {
    if is_unreserved(b) {
        seq![b as char]
    } else {
        seq!['%', hex_digit(b / 16), hex_digit(b % 16)]
    }
}

/// The percent-encoding of a byte string.
pub open spec fn percent_encoded(bytes: Seq<u8>) -> Seq<char>
    decreases bytes.len(),
{
    if bytes.len() == 0 {
        Seq::empty()
    } else {
        percent_encoded(bytes.drop_last()) + escaped_byte(bytes.last())
    }
}

/// The percent-encoding of the UTF-8 form of `text`.
pub open spec fn escaped_text(text: Seq<char>) -> Seq<char> {
    percent_encoded(vstd::utf8::encode_utf8(text))
}

/// A character that may stand in a URL query value without changing its meaning.
pub open spec fn is_query_safe(c: char) -> bool {
    c == '%' || (c as u32 <= 0x7f && is_unreserved(c as u8))
}

fn unreserved(b: u8) -> (keep: bool)
    ensures
        keep == is_unreserved(b),
{
    (0x30 <= b && b <= 0x39) || (0x41 <= b && b <= 0x5a) || (0x61 <= b && b <= 0x7a) || b == 0x2d
        || b == 0x2e || b == 0x5f || b == 0x7e
}

fn hex_char(nibble: u8) -> (digit: char)
    requires
        nibble < 16,
    ensures
        digit == hex_digit(nibble),
{
    if nibble < 10 {
        (0x30u8 + nibble) as char
    } else {
        (0x37u8 + nibble) as char
    }
}

/// Percent-encodes `text` so that it can stand as one query value of a URL.
pub fn url_escape(text: &str) -> (escaped: String)
    ensures
        escaped@ == escaped_text(text@),
{
    let bytes = text.as_bytes();
    let mut escaped = String::new();
    let mut i: usize = 0;
    while i < bytes.len()
        invariant
            i <= bytes@.len(),
            escaped@ == percent_encoded(bytes@.take(i as int)),
        decreases bytes@.len() - i,
    {
        let b: u8 = bytes[i];
        proof {
            let next = bytes@.take(i + 1);
            assert(next.drop_last() =~= bytes@.take(i as int));
            assert(next.last() == b);
        }
        if unreserved(b) {
            push_char(&mut escaped, b as char);
            assert(escaped@ =~= percent_encoded(bytes@.take(i as int)) + seq![b as char]);
        } else {
            push_char(&mut escaped, '%');
            push_char(&mut escaped, hex_char(b / 16));
            push_char(&mut escaped, hex_char(b % 16));
            assert(escaped@ =~= percent_encoded(bytes@.take(i as int)) + seq![
                '%',
                hex_digit(b / 16),
                hex_digit(b % 16),
            ]);
        }
        i += 1;
    }
    assert(bytes@.take(bytes@.len() as int) =~= bytes@);
    escaped
}

/// Every character of a percent-encoding is query-safe, and each byte yields one or three
/// characters.
pub proof fn lemma_percent_encoded_is_safe(bytes: Seq<u8>)
    ensures
        forall|i: int|
            0 <= i < percent_encoded(bytes).len() ==> is_query_safe(
                #[trigger] percent_encoded(bytes)[i],
            ),
        bytes.len() <= percent_encoded(bytes).len() <= 3 * bytes.len(),
    decreases bytes.len(),
{
    if bytes.len() > 0 {
        lemma_percent_encoded_is_safe(bytes.drop_last());
        let b = bytes.last();
        let tail = escaped_byte(b);
        assert forall|k: int| 0 <= k < tail.len() implies is_query_safe(#[trigger] tail[k]) by {
            lemma_hex_digit_is_safe(b / 16);
            lemma_hex_digit_is_safe(b % 16);
        }
    }
}

/// A hexadecimal digit is an unreserved character.
proof fn lemma_hex_digit_is_safe(nibble: u8)
    requires
        nibble < 16,
    ensures
        is_query_safe(hex_digit(nibble)),
{
    let c = hex_digit(nibble);
    if nibble < 10 {
        assert(c as u32 == 0x30 + nibble);
    } else {
        assert(c as u32 == 0x37 + nibble);
    }
}

/// Escaping leaves nothing in the text that a URL would read as a delimiter.
pub proof fn lemma_escaped_text_is_safe(text: Seq<char>)
    ensures
        forall|i: int|
            0 <= i < escaped_text(text).len() ==> is_query_safe(#[trigger] escaped_text(text)[i]),
{
    lemma_percent_encoded_is_safe(vstd::utf8::encode_utf8(text));
}

} // verus!
