//! Percent-encoding of URL components.
//!
//! Every byte of the UTF-8 encoding of the input is kept when it is an RFC 3986
//! unreserved character (`A-Z a-z 0-9 - _ . ~`) and written as `%XX`, with two
//! upper-case hexadecimal digits, otherwise. Spaces become `%20`; nothing is
//! turned into `+`. This is the safe set of Go's `url.PathEscape`.
use vstd::prelude::*;
use vstd::string::StringSliceAdditionalSpecFns;
use vstd::utf8::encode_utf8;

use crate::text::push_char;

verus! {

/// RFC 3986 unreserved bytes: ASCII letters and digits and `- _ . ~`.
pub open spec fn is_unreserved(b: u8) -> bool {
    ||| 48 <= b <= 57
    ||| 65 <= b <= 90
    ||| 97 <= b <= 122
    ||| b == 45
    ||| b == 95
    ||| b == 46
    ||| b == 126
}

/// The upper-case hexadecimal digit of `0 <= n < 16`.
pub open spec fn hex_upper(n: int) -> char {
    if n < 10 {
        ((48 + n) as u8) as char
    } else {
        ((55 + n) as u8) as char
    }
}

/// The value of an upper-case hexadecimal digit, if `c` is one.
pub open spec fn hex_value(c: char) -> Option<u8> {
    if '0' <= c <= '9' {
        Some(((c as int) - 48) as u8)
    } else if 'A' <= c <= 'F' {
        Some(((c as int) - 55) as u8)
    } else {
        None
    }
}

/// How one byte is written.
pub open spec fn encode_byte(b: u8) -> Seq<char> {
    if is_unreserved(b) {
        seq![b as char]
    } else {
        seq!['%', hex_upper((b / 16) as int), hex_upper((b % 16) as int)]
    }
}

/// The percent-encoding of a byte string.
pub open spec fn percent_encode(bytes: Seq<u8>) -> Seq<char>
    decreases bytes.len(),
{
    if bytes.len() == 0 {
        seq![]
    } else {
        encode_byte(bytes[0]) + percent_encode(bytes.drop_first())
    }
}

/// The percent-encoding of the UTF-8 bytes of a string.
pub open spec fn escaped(s: Seq<char>) -> Seq<char> {
    percent_encode(encode_utf8(s))
}

/// Reads back a percent-encoded text: `%XX` with upper-case hexadecimal
/// digits stands for one byte, and any other ASCII character for itself.
pub open spec fn percent_decode(s: Seq<char>) -> Option<Seq<u8>>
    decreases s.len(),
{
    if s.len() == 0 {
        Some(seq![])
    } else if s[0] == '%' {
        if s.len() >= 3 && hex_value(s[1]) is Some && hex_value(s[2]) is Some {
            match percent_decode(s.skip(3)) {
                Some(rest) => Some(
                    seq![(hex_value(s[1])->0 * 16 + hex_value(s[2])->0) as u8] + rest,
                ),
                None => None,
            }
        } else {
            None
        }
    } else if (s[0] as u32) < 128 {
        match percent_decode(s.drop_first()) {
            Some(rest) => Some(seq![s[0] as u8] + rest),
            None => None,
        }
    } else {
        None
    }
}

/// The characters that can appear in an encoding: unreserved ASCII, `%`, and
/// upper-case hexadecimal digits.
pub open spec fn is_encoded_char(c: char) -> bool {
    ||| is_unreserved(c as u8) && 0 <= (c as int) < 128
    ||| c == '%'
    ||| hex_value(c) is Some
}

fn is_unreserved_byte(b: u8) -> (r: bool)
    ensures
        r == is_unreserved(b),
{
    (48 <= b && b <= 57) || (65 <= b && b <= 90) || (97 <= b && b <= 122) || b == 45 || b == 95
        || b == 46 || b == 126
}

fn hex_digit(n: u8) -> (r: char)
    requires
        n < 16,
    ensures
        r == hex_upper(n as int),
{
    if n < 10 {
        (48u8 + n) as char
    } else {
        (55u8 + n) as char
    }
}

/// Encoding distributes over concatenation.
pub proof fn lemma_encode_concat(a: Seq<u8>, b: Seq<u8>)
    ensures
        percent_encode(a + b) == percent_encode(a) + percent_encode(b),
    decreases a.len(),
{
    if a.len() > 0 {
        assert((a + b).drop_first() == a.drop_first() + b);
        lemma_encode_concat(a.drop_first(), b);
        assert((a + b)[0] == a[0]);
    } else {
        assert(a + b == b);
    }
}

/// Percent-encodes the UTF-8 bytes of `s`.
pub fn encode_component(s: &str) -> (r: String)
    ensures
        r@ == escaped(s@),
{
    let bytes = s.as_bytes();
    let mut out = String::new();
    let mut i: usize = 0;
    while i < bytes.len()
        invariant
            bytes@ == encode_utf8(s@),
            0 <= i <= bytes@.len(),
            out@ == percent_encode(bytes@.take(i as int)),
        decreases bytes@.len() - i,
    {
        let b = bytes[i];
        proof {
            assert(bytes@.take(i + 1) == bytes@.take(i as int) + seq![b]);
            lemma_encode_concat(bytes@.take(i as int), seq![b]);
            assert(seq![b].drop_first() =~= Seq::<u8>::empty());
            assert(percent_encode(seq![b]) == encode_byte(b) + percent_encode(Seq::<u8>::empty()));
        }
        if is_unreserved_byte(b) {
            push_char(&mut out, b as char);
        } else {
            push_char(&mut out, '%');
            push_char(&mut out, hex_digit(b / 16));
            push_char(&mut out, hex_digit(b % 16));
        }
        i = i + 1;
    }
    assert(bytes@.take(bytes@.len() as int) == bytes@);
    out
}

proof fn lemma_hex_round_trip(n: int)
    requires
        0 <= n < 16,
    ensures
        hex_value(hex_upper(n)) == Some(n as u8),
        hex_upper(n) != '%',
{
}

proof fn lemma_decode_byte(b: u8, rest: Seq<char>)
    ensures
        percent_decode(encode_byte(b) + rest) == match percent_decode(rest) {
            Some(r) => Some(seq![b] + r),
            None => None::<Seq<u8>>,
        },
{
    let e = encode_byte(b);
    let s = e + rest;
    if is_unreserved(b) {
        assert(s[0] == b as char);
        assert(s.drop_first() == rest);
        assert((b as char) as u8 == b);
    } else {
        lemma_hex_round_trip((b / 16) as int);
        lemma_hex_round_trip((b % 16) as int);
        assert(s[0] == '%');
        assert(s[1] == hex_upper((b / 16) as int));
        assert(s[2] == hex_upper((b % 16) as int));
        assert(s.skip(3) == rest);
        assert(((b / 16) * 16 + b % 16) as u8 == b);
    }
}

/// Decoding an encoding gives back the bytes that were encoded.
pub proof fn lemma_percent_round_trip(bytes: Seq<u8>)
    ensures
        percent_decode(percent_encode(bytes)) == Some(bytes),
    decreases bytes.len(),
{
    if bytes.len() == 0 {
    } else {
        lemma_percent_round_trip(bytes.drop_first());
        lemma_decode_byte(bytes[0], percent_encode(bytes.drop_first()));
        assert(seq![bytes[0]] + bytes.drop_first() == bytes);
    }
}

/// Escaping a string can be undone: decoding the escaped text gives back the
/// string's UTF-8 bytes.
pub proof fn lemma_escape_round_trip(s: Seq<char>)
    ensures
        percent_decode(escaped(s)) == Some(encode_utf8(s)),
{
    lemma_percent_round_trip(encode_utf8(s));
}

/// Different strings have different escapes.
pub proof fn lemma_escape_injective(a: Seq<char>, b: Seq<char>)
    requires
        escaped(a) == escaped(b),
    ensures
        a == b,
{
    broadcast use vstd::utf8::encode_utf8_decode_utf8;

    lemma_escape_round_trip(a);
    lemma_escape_round_trip(b);
    assert(encode_utf8(a) == encode_utf8(b));
    assert(vstd::utf8::decode_utf8(encode_utf8(a)) == a);
}

/// An escape holds only unreserved ASCII characters, `%` and upper-case
/// hexadecimal digits; in particular no `/`, `?`, `&`, `=`, `+` or space.
pub proof fn lemma_escape_alphabet(bytes: Seq<u8>)
    ensures
        forall|i: int|
            0 <= i < percent_encode(bytes).len() ==> is_encoded_char(
                #[trigger] percent_encode(bytes)[i],
            ),
    decreases bytes.len(),
{
    if bytes.len() > 0 {
        lemma_escape_alphabet(bytes.drop_first());
        let b = bytes[0];
        lemma_hex_round_trip((b / 16) as int);
        lemma_hex_round_trip((b % 16) as int);
        let e = encode_byte(b);
        let r = percent_encode(bytes.drop_first());
        assert forall|i: int| 0 <= i < (e + r).len() implies is_encoded_char(#[trigger] (e + r)[i]) by {
            if i >= e.len() {
                assert((e + r)[i] == r[i - e.len()]);
            } else if is_unreserved(b) {
                assert((b as char) as u8 == b);
            }
        }
    }
}

/// The unreserved characters, as characters.
pub open spec fn is_unreserved_char(c: char) -> bool {
    ||| '0' <= c <= '9'
    ||| 'A' <= c <= 'Z'
    ||| 'a' <= c <= 'z'
    ||| c == '-'
    ||| c == '_'
    ||| c == '.'
    ||| c == '~'
}

/// Text made only of unreserved characters is left unchanged.
pub proof fn lemma_escape_unreserved_unchanged(s: Seq<char>)
    requires
        forall|i: int| 0 <= i < s.len() ==> is_unreserved_char(#[trigger] s[i]),
    ensures
        escaped(s) == s,
{
    broadcast use vstd::utf8::is_ascii_chars_encode_utf8;

    assert(vstd::utf8::is_ascii_chars(s)) by {
        assert forall|i: int| 0 <= i < s.len() implies '\0' <= #[trigger] s[i] <= '\u{7f}' by {
            assert(is_unreserved_char(s[i]));
        }
    }
    let bytes = encode_utf8(s);
    assert(bytes.len() == s.len());
    lemma_unreserved_bytes_unchanged(bytes, s);
}

proof fn lemma_unreserved_bytes_unchanged(bytes: Seq<u8>, s: Seq<char>)
    requires
        bytes.len() == s.len(),
        forall|i: int| 0 <= i < s.len() ==> #[trigger] bytes[i] == s[i] as u8,
        forall|i: int| 0 <= i < s.len() ==> is_unreserved_char(#[trigger] s[i]),
    ensures
        percent_encode(bytes) == s,
    decreases bytes.len(),
{
    if bytes.len() > 0 {
        lemma_unreserved_bytes_unchanged(bytes.drop_first(), s.drop_first());
        let c = s[0];
        assert(is_unreserved_char(c));
        assert(bytes[0] == c as u8);
        assert((c as u32) < 128);
        assert(is_unreserved(bytes[0]));
        assert(bytes[0] as char == c);
        assert(seq![c] + s.drop_first() == s);
    } else {
        assert(s =~= Seq::<char>::empty());
    }
}


/// An encoding is never shorter than the bytes it encodes, and is exactly as
/// long only when every byte is unreserved.
proof fn lemma_encode_len(bytes: Seq<u8>)
    ensures
        percent_encode(bytes).len() >= bytes.len(),
        percent_encode(bytes).len() == bytes.len() ==> forall|i: int|
            0 <= i < bytes.len() ==> is_unreserved(#[trigger] bytes[i]),
    decreases bytes.len(),
{
    if bytes.len() > 0 {
        let rest = bytes.drop_first();
        lemma_encode_len(rest);
        if percent_encode(bytes).len() == bytes.len() {
            assert(is_unreserved(bytes[0]));
            assert forall|i: int| 0 <= i < bytes.len() implies is_unreserved(#[trigger] bytes[i]) by {
                if i > 0 {
                    assert(bytes[i] == rest[i - 1]);
                }
            }
        }
    }
}

/// Escaping leaves a text unchanged only when it is made of unreserved
/// characters alone.
pub proof fn lemma_escape_unchanged_only_unreserved(s: Seq<char>)
    requires
        escaped(s) == s,
    ensures
        forall|i: int| 0 <= i < s.len() ==> is_unreserved_char(#[trigger] s[i]),
{
    broadcast use vstd::utf8::is_ascii_chars_encode_utf8;

    let bytes = encode_utf8(s);
    lemma_escape_alphabet(bytes);
    assert(vstd::utf8::is_ascii_chars(s)) by {
        assert forall|i: int| 0 <= i < s.len() implies '\0' <= #[trigger] s[i] <= '\u{7f}' by {
            assert(percent_encode(bytes) == s);
            assert(is_encoded_char(percent_encode(bytes)[i]));
            let c = s[i];
            if c == '%' {
                assert('\0' <= c <= '\u{7f}');
            } else if hex_value(c) is Some {
                assert('\0' <= c <= 'F');
            } else {
                assert('\0' <= c <= '\u{7f}');
            }
        }
    }
    assert(bytes.len() == s.len());
    lemma_encode_len(bytes);
    assert forall|i: int| 0 <= i < s.len() implies is_unreserved_char(#[trigger] s[i]) by {
        assert(is_unreserved(bytes[i]));
        assert(bytes[i] == s[i] as u8);
        assert(s[i] <= '\u{7f}');
    }
}

} // verus!
