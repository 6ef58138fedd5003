//! The names and the symbols of the prefixes, by exponent.

use vstd::prelude::*;

verus! {

/// The name of the prefix with exponent `exp`, and nothing for an exponent
/// that has no name.
pub open spec fn longform_of(exp: int) -> Seq<char> {
    if exp == 24 {
        "yotta"@
    } else if exp == 21 {
        "zetta"@
    } else if exp == 18 {
        "exa"@
    } else if exp == 15 {
        "peta"@
    } else if exp == 12 {
        "tera"@
    } else if exp == 9 {
        "giga"@
    } else if exp == 6 {
        "mega"@
    } else if exp == 3 {
        "kilo"@
    } else if exp == 2 {
        "hecto"@
    } else if exp == 1 {
        "deca"@
    } else if exp == -1 {
        "deci"@
    } else if exp == -2 {
        "centi"@
    } else if exp == -3 {
        "milli"@
    } else if exp == -6 {
        "micro"@
    } else if exp == -9 {
        "nano"@
    } else if exp == -12 {
        "pico"@
    } else if exp == -15 {
        "femto"@
    } else if exp == -18 {
        "atto"@
    } else if exp == -21 {
        "zepto"@
    } else if exp == -24 {
        "yocto"@
    } else {
        ""@
    }
}

/// The symbol of the prefix with exponent `exp`, and nothing for an exponent
/// that has no symbol.
pub open spec fn shortform_of(exp: int) -> Seq<char> {
    if exp == 24 {
        "Y"@
    } else if exp == 21 {
        "Z"@
    } else if exp == 18 {
        "E"@
    } else if exp == 15 {
        "P"@
    } else if exp == 12 {
        "T"@
    } else if exp == 9 {
        "G"@
    } else if exp == 6 {
        "M"@
    } else if exp == 3 {
        "k"@
    } else if exp == 2 {
        "h"@
    } else if exp == 1 {
        "da"@
    } else if exp == -1 {
        "d"@
    } else if exp == -2 {
        "c"@
    } else if exp == -3 {
        "m"@
    } else if exp == -6 {
        "\u{3bc}"@
    } else if exp == -9 {
        "n"@
    } else if exp == -12 {
        "p"@
    } else if exp == -15 {
        "f"@
    } else if exp == -18 {
        "a"@
    } else if exp == -21 {
        "z"@
    } else if exp == -24 {
        "y"@
    } else {
        ""@
    }
}

/// The name of the prefix with exponent `exp`.
pub fn prefix_longform(exp: isize) -> (text: &'static str)
    ensures
        text@ == longform_of(exp as int),
{
    if exp == 24 {
        "yotta"
    } else if exp == 21 {
        "zetta"
    } else if exp == 18 {
        "exa"
    } else if exp == 15 {
        "peta"
    } else if exp == 12 {
        "tera"
    } else if exp == 9 {
        "giga"
    } else if exp == 6 {
        "mega"
    } else if exp == 3 {
        "kilo"
    } else if exp == 2 {
        "hecto"
    } else if exp == 1 {
        "deca"
    } else if exp == -1 {
        "deci"
    } else if exp == -2 {
        "centi"
    } else if exp == -3 {
        "milli"
    } else if exp == -6 {
        "micro"
    } else if exp == -9 {
        "nano"
    } else if exp == -12 {
        "pico"
    } else if exp == -15 {
        "femto"
    } else if exp == -18 {
        "atto"
    } else if exp == -21 {
        "zepto"
    } else if exp == -24 {
        "yocto"
    } else {
        ""
    }
}

/// The symbol of the prefix with exponent `exp`.
pub fn prefix_shortform(exp: isize) -> (text: &'static str)
    ensures
        text@ == shortform_of(exp as int),
{
    if exp == 24 {
        "Y"
    } else if exp == 21 {
        "Z"
    } else if exp == 18 {
        "E"
    } else if exp == 15 {
        "P"
    } else if exp == 12 {
        "T"
    } else if exp == 9 {
        "G"
    } else if exp == 6 {
        "M"
    } else if exp == 3 {
        "k"
    } else if exp == 2 {
        "h"
    } else if exp == 1 {
        "da"
    } else if exp == -1 {
        "d"
    } else if exp == -2 {
        "c"
    } else if exp == -3 {
        "m"
    } else if exp == -6 {
        "\u{3bc}"
    } else if exp == -9 {
        "n"
    } else if exp == -12 {
        "p"
    } else if exp == -15 {
        "f"
    } else if exp == -18 {
        "a"
    } else if exp == -21 {
        "z"
    } else if exp == -24 {
        "y"
    } else {
        ""
    }
}

} // verus!
