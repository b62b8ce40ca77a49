//! Rendering of byte sequences for log lines.

use vstd::prelude::*;
use vstd::string::*;
use vstd::utf8::*;

verus! {

/// The character that stands for a decimal digit.
pub open spec fn spec_digit(d: nat) -> char {
    if d == 0 {
        '0'
    } else if d == 1 {
        '1'
    } else if d == 2 {
        '2'
    } else if d == 3 {
        '3'
    } else if d == 4 {
        '4'
    } else if d == 5 {
        '5'
    } else if d == 6 {
        '6'
    } else if d == 7 {
        '7'
    } else if d == 8 {
        '8'
    } else {
        '9'
    }
}

/// A number in decimal notation, without leading zeros.
pub open spec fn spec_decimal(n: nat) -> Seq<char>
    decreases n,
{
    if n < 10 {
        seq![spec_digit(n)]
    } else {
        spec_decimal(n / 10).push(spec_digit(n % 10))
    }
}

/// The numbers of a byte sequence in decimal notation, separated by a comma and
/// a space.
pub open spec fn spec_joined(bytes: Seq<u8>) -> Seq<char>
    decreases bytes.len(),
{
    if bytes.len() == 0 {
        Seq::empty()
    } else if bytes.len() == 1 {
        spec_decimal(bytes[0] as nat)
    } else {
        spec_joined(bytes.drop_last()) + seq![',', ' '] + spec_decimal(bytes.last() as nat)
    }
}

/// A byte sequence written as a list of numbers in square brackets, such as
/// `[0, 159, 146, 150]`.
pub open spec fn spec_byte_list(bytes: Seq<u8>) -> Seq<char> {
    seq!['['] + spec_joined(bytes) + seq![']']
}

/// What `format_bytes` returns: the text that the bytes encode where they are
/// valid UTF-8, else the bytes as a list of numbers.
pub open spec fn spec_format_bytes(bytes: Seq<u8>) -> Seq<char> {
    if valid_utf8(bytes) {
        decode_utf8(bytes)
    } else {
        spec_byte_list(bytes)
    }
}

/// Checks a byte slice with `core::str::from_utf8`. The standard library
/// hands the slice back as a string exactly when it is valid UTF-8, so the
/// string then has these very bytes.
#[verifier::external_body]
fn utf8_text(bytes: &[u8]) -> (text: Option<&str>)
    ensures
        text is Some <==> valid_utf8(bytes@),
        text matches Some(s) ==> s.spec_bytes() == bytes@,
{
    core::str::from_utf8(bytes).ok()
}

/// The text that a byte slice encodes, if it is valid UTF-8.
pub fn decode_text(bytes: &[u8]) -> (text: Option<String>)
    ensures
        text is Some <==> valid_utf8(bytes@),
        text matches Some(s) ==> s@ == decode_utf8(bytes@),
{
    match utf8_text(bytes) {
        Some(s) => {
            proof {
                encode_utf8_decode_utf8(s@);
            }
            Some(String::from_str(s))
        },
        None => None,
    }
}

fn digit_text(d: u8) -> (text: &'static str)
    requires
        d < 10,
    ensures
        text@ == seq![spec_digit(d as nat)],
{
    proof {
        reveal_strlit("0");
        reveal_strlit("1");
        reveal_strlit("2");
        reveal_strlit("3");
        reveal_strlit("4");
        reveal_strlit("5");
        reveal_strlit("6");
        reveal_strlit("7");
        reveal_strlit("8");
        reveal_strlit("9");
    }
    let text = if d == 0 {
        "0"
    } else if d == 1 {
        "1"
    } else if d == 2 {
        "2"
    } else if d == 3 {
        "3"
    } else if d == 4 {
        "4"
    } else if d == 5 {
        "5"
    } else if d == 6 {
        "6"
    } else if d == 7 {
        "7"
    } else if d == 8 {
        "8"
    } else {
        "9"
    };
    assert(text@ =~= seq![spec_digit(d as nat)]);
    text
}

fn append_decimal(out: &mut String, n: u8)
    ensures
        final(out)@ == old(out)@ + spec_decimal(n as nat),
{
    let ghost before = out@;
    if n >= 100 {
        out.append(digit_text(n / 100));
        out.append(digit_text((n / 10) % 10));
        out.append(digit_text(n % 10));
        proof {
            let h = (n / 100) as nat;
            let t = ((n / 10) % 10) as nat;
            let u = (n % 10) as nat;
            assert((n as nat) / 10 / 10 == h);
            assert(((n as nat) / 10) % 10 == t);
            assert(spec_decimal(h) =~= seq![spec_digit(h)]);
            assert(spec_decimal((n as nat) / 10) =~= seq![spec_digit(h), spec_digit(t)]);
            assert(spec_decimal(n as nat) =~= seq![spec_digit(h), spec_digit(t), spec_digit(u)]);
            assert(out@ =~= before + spec_decimal(n as nat));
        }
    } else if n >= 10 {
        out.append(digit_text(n / 10));
        out.append(digit_text(n % 10));
        proof {
            let t = (n / 10) as nat;
            let u = (n % 10) as nat;
            assert(spec_decimal(t) =~= seq![spec_digit(t)]);
            assert(spec_decimal(n as nat) =~= seq![spec_digit(t), spec_digit(u)]);
            assert(out@ =~= before + spec_decimal(n as nat));
        }
    } else {
        out.append(digit_text(n));
        proof {
            assert(out@ =~= before + spec_decimal(n as nat));
        }
    }
}

/// Writes a byte slice as a list of numbers in square brackets.
pub fn byte_list(bytes: &[u8]) -> (text: String)
    ensures
        text@ == spec_byte_list(bytes@),
{
    proof {
        reveal_strlit("[");
        reveal_strlit("]");
        reveal_strlit(", ");
    }
    let mut out = String::from_str("[");
    let mut i: usize = 0;
    while i < bytes.len()
        invariant
            i <= bytes@.len(),
            out@ == seq!['['] + spec_joined(bytes@.take(i as int)),
            ", "@ == seq![',', ' '],
        decreases bytes@.len() - i,
    {
        let ghost done = bytes@.take(i as int);
        let ghost next = bytes@.take(i + 1);
        proof {
            assert(next.drop_last() =~= done);
            assert(next.last() == bytes@[i as int]);
        }
        if i > 0 {
            out.append(", ");
        }
        append_decimal(&mut out, bytes[i]);
        proof {
            if i == 0 {
                assert(done.len() == 0);
                assert(out@ =~= seq!['['] + spec_joined(next));
            } else {
                assert(out@ =~= seq!['['] + spec_joined(next));
            }
        }
        i = i + 1;
    }
    proof {
        assert(bytes@.take(i as int) =~= bytes@);
    }
    out.append("]");
    proof {
        assert(out@ =~= spec_byte_list(bytes@));
    }
    out
}

/// Converts a byte sequence to a string if it is valid UTF-8, or writes it as a
/// list of numbers otherwise.
pub fn format_bytes(v: &[u8]) -> (text: String)
    ensures
        text@ == spec_format_bytes(v@),
{
    match decode_text(v) {
        Some(text) => text,
        None => byte_list(v),
    }
}

} // verus!
