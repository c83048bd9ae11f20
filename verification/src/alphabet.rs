//! The 64 symbols shared by stored names and deletion keys: `A`–`Z`, `a`–`z`,
//! `0`–`9`, `-` and `_`, in that order.

use vstd::prelude::*;

verus! {

/// The symbol that stands for the six-bit value `v`.
pub open spec fn symbol(v: int) -> char {
    if v < 26 {
        (65 + v) as char
    } else if v < 52 {
        (71 + v) as char
    } else if v < 62 {
        (v - 4) as char
    } else if v == 62 {
        '-'
    } else {
        '_'
    }
}

/// Whether `c` is one of the 64 symbols.
pub open spec fn is_symbol(c: char) -> bool {
    ('A' <= c && c <= 'Z') || ('a' <= c && c <= 'z') || ('0' <= c && c <= '9') || c == '-' || c
        == '_'
}

/// The six-bit value that `c` stands for; meaningful where `c` is a symbol.
pub open spec fn value_of(c: char) -> int {
    if 'A' <= c && c <= 'Z' {
        c as int - 65
    } else if 'a' <= c && c <= 'z' {
        c as int - 71
    } else if '0' <= c && c <= '9' {
        c as int + 4
    } else if c == '-' {
        62
    } else {
        63
    }
}

/// Every six-bit value has a symbol, and the symbol gives the value back.
pub proof fn symbol_is_symbol(v: int)
    requires
        0 <= v < 64,
    ensures
        is_symbol(symbol(v)),
        value_of(symbol(v)) == v,
        symbol(v) != '.',
        symbol(v) != '=',
        symbol(v) != '+',
        symbol(v) != '/',
        (symbol(v) as int) < 128,
{
}

/// The symbol for the six-bit value `v`.
pub fn symbol_at(v: u8) -> (c: char)
    requires
        v < 64,
    ensures
        c == symbol(v as int),
{
    if v < 26 {
        (65u8 + v) as char
    } else if v < 52 {
        (71u8 + v) as char
    } else if v < 62 {
        (v - 4u8) as char
    } else if v == 62 {
        '-'
    } else {
        '_'
    }
}

} // verus!
