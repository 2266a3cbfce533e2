//! The `application/x-www-form-urlencoded` byte serialization that query
//! parameters go through, as a mathematical function, and what holds of it.
use vstd::prelude::*;

verus! {

/// Bytes that the serializer copies as they are: `*`, `-`, `.`, `_`, the
/// ASCII digits and the ASCII letters.
pub open spec fn is_unreserved_byte(b: u8) -> bool {
    ||| b == 0x2a
    ||| b == 0x2d
    ||| b == 0x2e
    ||| 0x30 <= b <= 0x39
    ||| 0x41 <= b <= 0x5a
    ||| b == 0x5f
    ||| 0x61 <= b <= 0x7a
}

/// A character that the serializer copies as it is.
pub open spec fn is_unreserved_char(c: char) -> bool {
    '\0' <= c <= '\u{7f}' && is_unreserved_byte(c as u8)
}

/// The upper-case hexadecimal digit for a value below 16.
pub open spec fn hex_digit(n: u8) -> char
    recommends
        n < 16,
{
    if n < 10 {
        ((n + 0x30) as u8) as char
    } else {
        ((n + 0x37) as u8) as char
    }
}

/// The text that one byte becomes: itself where it is unreserved, `+` for a
/// space, and `%` followed by two upper-case hexadecimal digits otherwise.
pub open spec fn encode_byte(b: u8) -> Seq<char> {
    if is_unreserved_byte(b) {
        seq![b as char]
    } else if b == 0x20 {
        seq!['+']
    } else {
        seq!['%', hex_digit(b / 16), hex_digit(b % 16)]
    }
}

/// The serialization of a byte sequence: the texts of its bytes, in order.
pub open spec fn form_urlencoded(bytes: Seq<u8>) -> Seq<char>
    decreases bytes.len(),
{
    if bytes.len() == 0 {
        Seq::empty()
    } else {
        encode_byte(bytes[0]) + form_urlencoded(bytes.drop_first())
    }
}

/// The value of a hexadecimal digit, of either case.
pub open spec fn hex_value(c: char) -> Option<u8> {
    let v = c as u32;
    if 0x30 <= v <= 0x39 {
        Some((v - 0x30) as u8)
    } else if 0x41 <= v <= 0x46 {
        Some((v - 0x37) as u8)
    } else if 0x61 <= v <= 0x66 {
        Some((v - 0x57) as u8)
    } else {
        None
    }
}

/// Decoding of form-encoded ASCII text: `+` is a space, `%` with two
/// hexadecimal digits is the byte they spell, any other character is its own
/// code.
pub open spec fn form_urldecoded(text: Seq<char>) -> Seq<u8>
    decreases text.len(),
{
    if text.len() == 0 {
        Seq::empty()
    } else if text[0] == '+' {
        seq![0x20u8] + form_urldecoded(text.drop_first())
    } else if text[0] == '%' && text.len() >= 3 && hex_value(text[1]) is Some && hex_value(
        text[2],
    ) is Some {
        seq![(hex_value(text[1]).unwrap() * 16 + hex_value(text[2]).unwrap()) as u8]
            + form_urldecoded(text.skip(3))
    } else {
        seq![(text[0] as u32) as u8] + form_urldecoded(text.drop_first())
    }
}

/// Characters that can stand in a query string without quoting: ASCII
/// letters and digits, `*`, `-`, `.`, `_`, `+` and `%`.
pub open spec fn is_query_safe_char(c: char) -> bool {
    let v = c as u32;
    ||| v == 0x2a
    ||| v == 0x2b
    ||| v == 0x25
    ||| v == 0x2d
    ||| v == 0x2e
    ||| 0x30 <= v <= 0x39
    ||| 0x41 <= v <= 0x5a
    ||| v == 0x5f
    ||| 0x61 <= v <= 0x7a
}

proof fn lemma_hex_digit(n: u8)
    requires
        n < 16,
    ensures
        hex_value(hex_digit(n)) == Some(n),
        is_query_safe_char(hex_digit(n)),
{
}

proof fn lemma_encode_byte_safe(b: u8)
    ensures
        forall|i: int| 0 <= i < encode_byte(b).len() ==> is_query_safe_char(#[trigger] encode_byte(b)[i]),
{
    if !is_unreserved_byte(b) && b != 0x20 {
        lemma_hex_digit(b / 16);
        lemma_hex_digit(b % 16);
    }
}

proof fn lemma_decode_encode_byte(b: u8, rest: Seq<char>)
    ensures
        form_urldecoded(encode_byte(b) + rest) == seq![b] + form_urldecoded(rest),
{
    let t = encode_byte(b) + rest;
    if is_unreserved_byte(b) {
        assert(t.drop_first() =~= rest);
    } else if b == 0x20 {
        assert(t.drop_first() =~= rest);
    } else {
        lemma_hex_digit(b / 16);
        lemma_hex_digit(b % 16);
        assert(t.skip(3) =~= rest);
        assert(seq![(hex_value(t[1]).unwrap() * 16 + hex_value(t[2]).unwrap()) as u8] =~= seq![b]);
    }
}

/// Every character of a serialization can stand in a query string unquoted:
/// none of them is a space, `&`, `=`, `#` or `?`.
pub proof fn lemma_form_urlencoded_query_safe(bytes: Seq<u8>)
    ensures
        forall|i: int|
            0 <= i < form_urlencoded(bytes).len() ==> is_query_safe_char(
                #[trigger] form_urlencoded(bytes)[i],
            ),
    decreases bytes.len(),
{
    if bytes.len() > 0 {
        lemma_encode_byte_safe(bytes[0]);
        lemma_form_urlencoded_query_safe(bytes.drop_first());
        let head = encode_byte(bytes[0]);
        let tail = form_urlencoded(bytes.drop_first());
        assert forall|i: int| 0 <= i < form_urlencoded(bytes).len() implies is_query_safe_char(
            #[trigger] form_urlencoded(bytes)[i],
        ) by {
            if i < head.len() {
                assert(form_urlencoded(bytes)[i] == head[i]);
            } else {
                assert(form_urlencoded(bytes)[i] == tail[i - head.len()]);
            }
        }
    }
}

/// Decoding a serialization gives back the bytes that were serialized.
pub proof fn lemma_form_urlencoded_roundtrip(bytes: Seq<u8>)
    ensures
        form_urldecoded(form_urlencoded(bytes)) == bytes,
    decreases bytes.len(),
{
    if bytes.len() == 0 {
    } else {
        lemma_form_urlencoded_roundtrip(bytes.drop_first());
        lemma_decode_encode_byte(bytes[0], form_urlencoded(bytes.drop_first()));
        assert(seq![bytes[0]] + bytes.drop_first() =~= bytes);
    }
}

/// Bytes made only of unreserved characters serialize to themselves.
pub proof fn lemma_form_urlencoded_unreserved(bytes: Seq<u8>)
    requires
        forall|i: int| 0 <= i < bytes.len() ==> is_unreserved_byte(#[trigger] bytes[i]),
    ensures
        form_urlencoded(bytes) == bytes.map_values(|b: u8| b as char),
    decreases bytes.len(),
{
    if bytes.len() > 0 {
        assert(is_unreserved_byte(bytes[0]));
        assert forall|i: int| 0 <= i < bytes.drop_first().len() implies is_unreserved_byte(
            #[trigger] bytes.drop_first()[i],
        ) by {
            assert(bytes.drop_first()[i] == bytes[i + 1]);
        }
        lemma_form_urlencoded_unreserved(bytes.drop_first());
        assert(form_urlencoded(bytes) =~= bytes.map_values(|b: u8| b as char));
    }
}

} // verus!
