//! Text helpers shared by the driver layer: decimal rendering of numbers and
//! conversion of strings to NUL-terminated byte strings.

use vstd::prelude::*;
use vstd::string::*;

verus! {

/// The character that writes the decimal digit `d`.
pub open spec fn digit_char(d: nat) -> char {
    if d == 0 {
        '0'
    } else if d == 1 {
        '1'
    } else if d == 2 {
        '2'
    } else if d == 3 {
        '3'
    } else if d == 4 {
        '4'
    } else if d == 5 {
        '5'
    } else if d == 6 {
        '6'
    } else if d == 7 {
        '7'
    } else if d == 8 {
        '8'
    } else {
        '9'
    }
}

/// The decimal digits of `n`, most significant first, without leading zeros.
pub open spec fn decimal_digits(n: nat) -> Seq<char>
    decreases n,
{
    if n < 10 {
        seq![digit_char(n)]
    } else {
        decimal_digits(n / 10).push(digit_char(n % 10))
    }
}

/// The decimal digits of `n` left-padded with zeros to at least three places.
pub open spec fn zero_padded3_digits(n: nat) -> Seq<char> {
    if n < 10 {
        seq!['0', '0', digit_char(n)]
    } else if n < 100 {
        seq!['0', digit_char(n / 10), digit_char(n % 10)]
    } else {
        decimal_digits(n)
    }
}

/// The decimal text of a signed number: a minus sign before the digits of its
/// magnitude when it is negative.
pub open spec fn signed_decimal_digits(n: int) -> Seq<char> {
    if n < 0 {
        seq!['-'] + decimal_digits((-n) as nat)
    } else {
        decimal_digits(n as nat)
    }
}

fn digit_str(d: u8) -> (s: &'static str)
    requires
        d < 10,
    ensures
        s@ == seq![digit_char(d as nat)],
{
    proof {
        reveal_strlit("0");
        reveal_strlit("1");
        reveal_strlit("2");
        reveal_strlit("3");
        reveal_strlit("4");
        reveal_strlit("5");
        reveal_strlit("6");
        reveal_strlit("7");
        reveal_strlit("8");
        reveal_strlit("9");
    }
    let s = if d == 0 {
        "0"
    } else if d == 1 {
        "1"
    } else if d == 2 {
        "2"
    } else if d == 3 {
        "3"
    } else if d == 4 {
        "4"
    } else if d == 5 {
        "5"
    } else if d == 6 {
        "6"
    } else if d == 7 {
        "7"
    } else if d == 8 {
        "8"
    } else {
        "9"
    };
    s
}

/// Writes `n` in decimal.
pub fn decimal_text(n: u64) -> (s: String)
    ensures
        s@ == decimal_digits(n as nat),
    decreases n,
{
    if n < 10 {
        String::from_str(digit_str(n as u8))
    } else {
        let mut s = decimal_text(n / 10);
        s.append(digit_str((n % 10) as u8));
        s
    }
}

/// Writes `n` in decimal with at least three digits, as interface version
/// suffixes are written (`5` becomes `005`).
pub fn zero_padded3_text(n: u64) -> (s: String)
    ensures
        s@ == zero_padded3_digits(n as nat),
{
    if n < 10 {
        let mut s = String::from_str("00");
        s.append(digit_str(n as u8));
        proof {
            reveal_strlit("00");
        }
        s
    } else if n < 100 {
        let mut s = String::from_str("0");
        s.append(digit_str((n / 10) as u8));
        s.append(digit_str((n % 10) as u8));
        proof {
            reveal_strlit("0");
        }
        s
    } else {
        decimal_text(n)
    }
}

/// Writes a signed number in decimal.
pub fn signed_decimal_text(n: i64) -> (s: String)
    ensures
        s@ == signed_decimal_digits(n as int),
{
    if n < 0 {
        let magnitude: u64 = if n == i64::MIN {
            9223372036854775808u64
        } else {
            (-n) as u64
        };
        let mut s = String::from_str("-");
        let digits = decimal_text(magnitude);
        s.append(digits.as_str());
        proof {
            reveal_strlit("-");
        }
        s
    } else {
        decimal_text(n as u64)
    }
}

/// Whether a byte string holds a NUL byte.
pub open spec fn contains_nul(bytes: Seq<u8>) -> bool {
    exists|i: int| 0 <= i < bytes.len() && bytes[i] == 0u8
}

/// Scans a byte string for a NUL byte.
pub fn has_interior_nul(bytes: &[u8]) -> (found: bool)
    ensures
        found == contains_nul(bytes@),
{
    let mut i: usize = 0;
    while i < bytes.len()
        invariant
            i <= bytes.len(),
            forall|j: int| 0 <= j < i ==> bytes@[j] != 0u8,
        decreases bytes.len() - i,
    {
        if bytes[i] == 0 {
            return true;
        }
        i += 1;
    }
    false
}

/// The NUL-terminated form of a byte string: the bytes followed by one NUL.
pub open spec fn nul_terminated(bytes: Seq<u8>) -> Seq<u8> {
    bytes.push(0u8)
}

/// Converts text to a NUL-terminated byte string for the host. Text that
/// already holds a NUL byte cannot be represented and gives `None`.
pub fn c_string_bytes(text: &str) -> (out: Option<Vec<u8>>)
    ensures
        contains_nul(text.spec_bytes()) ==> out is None,
        !contains_nul(text.spec_bytes()) ==> out is Some && out.unwrap()@ == nul_terminated(
            text.spec_bytes(),
        ),
{
    let bytes = text.as_bytes();
    if has_interior_nul(bytes) {
        return None;
    }
    let mut out: Vec<u8> = Vec::new();
    let mut i: usize = 0;
    while i < bytes.len()
        invariant
            i <= bytes.len(),
            out@ == bytes@.subrange(0, i as int),
        decreases bytes.len() - i,
    {
        out.push(bytes[i]);
        assert(out@ =~= bytes@.subrange(0, i + 1));
        i += 1;
    }
    assert(bytes@.subrange(0, bytes.len() as int) =~= bytes@);
    out.push(0u8);
    Some(out)
}

} // verus!

verus! {

/// Reads a byte string as UTF-8 text.
///
/// Calls `core::str::from_utf8`, which checks that the bytes are valid UTF-8
/// and, when they are, returns the same bytes as a string slice; it returns
/// an error for any other byte string.
#[verifier::external_body]
pub(crate) fn utf8_text(bytes: &[u8]) -> (text: Option<&str>)
    ensures
        text is Some <==> vstd::utf8::valid_utf8(bytes@),
        text is Some ==> text->0.spec_bytes() == bytes@,
{
    core::str::from_utf8(bytes).ok()
}

} // verus!
