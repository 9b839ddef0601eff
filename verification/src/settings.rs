//! Driver settings. No settings store is consulted: every lookup answers
//! with the default it was given.

use vstd::prelude::*;
use vstd::string::*;

verus! {

/// Read a string setting: the default.
pub fn get_string(section: &str, key: &str, default: &str) -> (value: String)
    ensures
        value@ == default@,
{
    String::from_str(default)
}

/// Read an integer setting: the default.
pub fn get_int32(section: &str, key: &str, default: i32) -> (value: i32)
    ensures
        value == default,
{
    default
}

/// Read a boolean setting: the default.
pub fn get_bool(section: &str, key: &str, default: bool) -> (value: bool)
    ensures
        value == default,
{
    default
}

} // verus!
