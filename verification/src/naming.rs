//! Names of interface versions.
//!
//! The host asks for an interface by a name made of the interface's own name,
//! an underscore and the version number written with at least three digits,
//! such as `IServerTrackedDeviceProvider_005`.

use crate::text::{decimal_digits, digit_char, zero_padded3_digits, zero_padded3_text};
use vstd::prelude::*;
use vstd::string::*;

verus! {

/// The name under which `version` of `interface` is requested.
pub open spec fn version_name(interface: Seq<char>, version: nat) -> Seq<char> {
    interface + seq!['_'] + zero_padded3_digits(version)
}

/// The number that a decimal digit stands for; zero for any other character.
pub open spec fn digit_value(c: char) -> nat {
    if c == '1' {
        1
    } else if c == '2' {
        2
    } else if c == '3' {
        3
    } else if c == '4' {
        4
    } else if c == '5' {
        5
    } else if c == '6' {
        6
    } else if c == '7' {
        7
    } else if c == '8' {
        8
    } else if c == '9' {
        9
    } else {
        0
    }
}

/// The number that a sequence of decimal digits writes.
pub open spec fn digits_value(s: Seq<char>) -> nat
    decreases s.len(),
{
    if s.len() == 0 {
        0
    } else {
        digits_value(s.drop_last()) * 10 + digit_value(s.last())
    }
}

/// Reading the decimal digits of a number gives the number back.
pub proof fn lemma_decimal_digits_value(n: nat)
    ensures
        digits_value(decimal_digits(n)) == n,
    decreases n,
{
    if n < 10 {
        let s = decimal_digits(n);
        assert(digits_value(s.drop_last()) == 0);
    } else {
        lemma_decimal_digits_value(n / 10);
        let s = decimal_digits(n);
        assert(s.drop_last() =~= decimal_digits(n / 10));
    }
}

/// Reading a zero-padded version number gives the number back.
pub proof fn lemma_zero_padded3_value(n: nat)
    ensures
        digits_value(zero_padded3_digits(n)) == n,
{
    if n < 10 {
        let s = zero_padded3_digits(n);
        let s1 = s.drop_last();
        let s2 = s1.drop_last();
        assert(digits_value(s2.drop_last()) == 0);
        assert(digits_value(s2) == 0);
        assert(digits_value(s1) == 0);
    } else if n < 100 {
        let s = zero_padded3_digits(n);
        let s1 = s.drop_last();
        let s2 = s1.drop_last();
        assert(digits_value(s2.drop_last()) == 0);
        assert(digits_value(s2) == 0);
        assert(digits_value(s1) == n / 10);
    } else {
        lemma_decimal_digits_value(n);
    }
}

/// Two versions of one interface have the same name only if they are the
/// same version.
pub proof fn lemma_version_name_injective(interface: Seq<char>, a: nat, b: nat)
    requires
        version_name(interface, a) == version_name(interface, b),
    ensures
        a == b,
{
    let prefix = interface + seq!['_'];
    let na = version_name(interface, a);
    let nb = version_name(interface, b);
    assert(na.subrange(prefix.len() as int, na.len() as int) =~= zero_padded3_digits(a));
    assert(nb.subrange(prefix.len() as int, nb.len() as int) =~= zero_padded3_digits(b));
    lemma_zero_padded3_value(a);
    lemma_zero_padded3_value(b);
}

/// Writes the name under which `version` of `interface` is requested.
pub fn interface_version_name(interface: &str, version: u32) -> (name: String)
    ensures
        name@ == version_name(interface@, version as nat),
{
    let mut name = String::from_str(interface);
    name.append("_");
    let digits = zero_padded3_text(version as u64);
    name.append(digits.as_str());
    proof {
        reveal_strlit("_");
    }
    name
}

} // verus!
