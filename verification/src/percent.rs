//! Percent-decoding of URL text, byte by byte.

use crate::text::push_char;
use vstd::prelude::*;
use vstd::string::StringSliceAdditionalSpecFns;
use vstd::utf8::encode_utf8;

verus! {

/// An ASCII hexadecimal digit, in either case.
pub open spec fn is_hex_digit(b: u8) -> bool {
    (0x30 <= b <= 0x39) || (0x41 <= b <= 0x46) || (0x61 <= b <= 0x66)
}

/// The number that the hexadecimal digit `b` stands for.
pub open spec fn hex_value(b: u8) -> int {
    if b <= 0x39 {
        b - 0x30
    } else if b <= 0x46 {
        b - 0x41 + 10
    } else {
        b - 0x61 + 10
    }
}

/// The value of `b` as a hexadecimal digit, if it is one.
pub fn hex_digit(b: u8) -> (r: Option<u8>)
    ensures
        r is Some <==> is_hex_digit(b),
        r matches Some(v) ==> v == hex_value(b) && v < 16,
{
    if 0x30 <= b && b <= 0x39 {
        Some(b - 0x30)
    } else if 0x41 <= b && b <= 0x46 {
        Some(b - 0x41 + 10)
    } else if 0x61 <= b && b <= 0x66 {
        Some(b - 0x61 + 10)
    } else {
        None
    }
}

/// An escape starts at `i`: a `%` that two hexadecimal digits follow.
pub open spec fn is_escape_at(b: Seq<u8>, i: int) -> bool {
    &&& 0 <= i
    &&& i + 2 < b.len()
    &&& b[i] == 0x25
    &&& is_hex_digit(b[i + 1])
    &&& is_hex_digit(b[i + 2])
}

/// The byte that the escape at `i` spells out.
pub open spec fn escaped_byte(b: Seq<u8>, i: int) -> u8 {
    (16 * hex_value(b[i + 1]) + hex_value(b[i + 2])) as u8
}

/// Whether `b` holds an escape anywhere.
pub open spec fn has_escape(b: Seq<u8>) -> bool {
    exists|i: int| is_escape_at(b, i)
}

/// The bytes `b` read from left to right: an escape gives the character
/// whose code is the escaped byte, any other byte the character whose code
/// is that byte.
pub open spec fn unescaped(b: Seq<u8>) -> Seq<char>
    decreases b.len(),
{
    if b.len() == 0 {
        Seq::empty()
    } else if is_escape_at(b, 0) {
        seq![escaped_byte(b, 0) as char] + unescaped(b.skip(3))
    } else {
        seq![b[0] as char] + unescaped(b.skip(1))
    }
}

/// The percent-decoded form of the text `s`: `s` itself where its UTF-8
/// bytes hold no escape, and those bytes [`unescaped`] where they do.
pub open spec fn percent_decoded(s: Seq<char>) -> Seq<char> {
    if has_escape(encode_utf8(s)) {
        unescaped(encode_utf8(s))
    } else {
        s
    }
}

/// Percent-decodes `input`.
///
/// Text without an escape comes back unchanged. Otherwise every byte of the
/// input becomes one character of the output: an escape `%XX` the character
/// with code `XX`, any other byte the character with that byte's code.
pub fn percent_decode(input: &str) -> (out: String)
    ensures
        out@ == percent_decoded(input@),
        !has_escape(input.spec_bytes()) ==> out@ == input@,
{
    let bytes = input.as_bytes();
    let n: usize = bytes.len();
    let mut out = String::new();
    let mut changed = false;
    let mut i: usize = 0;
    proof {
        assert(bytes@.skip(0) =~= bytes@);
        assert(Seq::<char>::empty() + unescaped(bytes@) =~= unescaped(bytes@));
    }
    while i < n
        invariant
            i <= n,
            n == bytes@.len(),
            unescaped(bytes@) == out@ + unescaped(bytes@.skip(i as int)),
            changed <==> exists|j: int| 0 <= j < i && is_escape_at(bytes@, j),
        decreases n - i,
    {
        let ghost rest = bytes@.skip(i as int);
        let ghost before = out@;
        let mut step: usize = 1;
        let mut code: u8 = bytes[i];
        if bytes[i] == 0x25 && n - i > 2 {
            match (hex_digit(bytes[i + 1]), hex_digit(bytes[i + 2])) {
                (Some(high), Some(low)) => {
                    code = 16 * high + low;
                    step = 3;
                },
                _ => {},
            }
        }
        push_char(&mut out, code as char);
        proof {
            assert(rest[0] == bytes@[i as int]);
            if n - i > 2 {
                assert(rest[1] == bytes@[i + 1]);
                assert(rest[2] == bytes@[i + 2]);
            }
            assert(is_escape_at(rest, 0) == is_escape_at(bytes@, i as int));
            assert(is_escape_at(rest, 0) == (step == 3));
            assert(rest.skip(step as int) =~= bytes@.skip(i + step));
            assert(unescaped(rest) == seq![code as char] + unescaped(rest.skip(step as int)));
            assert(before + (seq![code as char] + unescaped(rest.skip(step as int)))
                =~= before.push(code as char) + unescaped(rest.skip(step as int)));
            if step == 3 {
                assert(is_escape_at(bytes@, i as int));
            }
        }
        if step == 3 {
            changed = true;
        }
        i = i + step;
    }
    proof {
        assert(bytes@.skip(n as int) =~= Seq::<u8>::empty());
        assert(out@ + Seq::<char>::empty() =~= out@);
        assert(changed == has_escape(bytes@));
    }
    if changed {
        out
    } else {
        input.to_owned()
    }
}

} // verus!
