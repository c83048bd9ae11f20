//! Unpadded URL-safe base64, as a mathematical function on bytes, and what
//! follows from its definition.

use vstd::prelude::*;
use crate::alphabet::{is_symbol, symbol, symbol_is_symbol};

verus! {

/// The text that stands for `bytes`: each group of three bytes becomes four
/// symbols, most significant bits first; a last group of one or two bytes
/// becomes two or three symbols, and nothing is added for padding.
pub open spec fn encode(bytes: Seq<u8>) -> Seq<char>
    decreases bytes.len(),
{
    if bytes.len() == 0 {
        Seq::empty()
    } else if bytes.len() == 1 {
        seq![symbol(bytes[0] as int / 4), symbol((bytes[0] as int % 4) * 16)]
    } else if bytes.len() == 2 {
        seq![
            symbol(bytes[0] as int / 4),
            symbol((bytes[0] as int % 4) * 16 + bytes[1] as int / 16),
            symbol((bytes[1] as int % 16) * 4),
        ]
    } else {
        seq![
            symbol(bytes[0] as int / 4),
            symbol((bytes[0] as int % 4) * 16 + bytes[1] as int / 16),
            symbol((bytes[1] as int % 16) * 4 + bytes[2] as int / 64),
            symbol(bytes[2] as int % 64),
        ] + encode(bytes.skip(3))
    }
}

/// How many symbols stand for `n` bytes.
pub open spec fn encoded_len(n: nat) -> nat {
    ((4 * n + 2) / 3) as nat
}

/// Whether every character of `text` is one of the 64 symbols.
pub open spec fn all_symbols(text: Seq<char>) -> bool {
    forall|i: int| 0 <= i < text.len() ==> is_symbol(#[trigger] text[i])
}

/// The text for `n` bytes has `encoded_len(n)` characters.
pub proof fn encode_has_len(bytes: Seq<u8>)
    ensures
        encode(bytes).len() == encoded_len(bytes.len()),
    decreases bytes.len(),
{
    if bytes.len() >= 3 {
        encode_has_len(bytes.skip(3));
    }
}

/// The text for any bytes is made of symbols only, so it is ASCII and holds
/// no `+`, `/`, `=` or `.`.
pub proof fn encode_is_symbols(bytes: Seq<u8>)
    ensures
        all_symbols(encode(bytes)),
        forall|i: int|
            0 <= i < encode(bytes).len() ==> {
                let c = #[trigger] encode(bytes)[i];
                c != '+' && c != '/' && c != '=' && c != '.' && (c as int) < 128
            },
    decreases bytes.len(),
{
    let b0 = bytes[0] as int;
    let b1 = bytes[1] as int;
    let b2 = bytes[2] as int;
    if bytes.len() == 1 {
        symbol_is_symbol(b0 / 4);
        symbol_is_symbol((b0 % 4) * 16);
    } else if bytes.len() == 2 {
        symbol_is_symbol(b0 / 4);
        symbol_is_symbol((b0 % 4) * 16 + b1 / 16);
        symbol_is_symbol((b1 % 16) * 4);
    } else if bytes.len() >= 3 {
        symbol_is_symbol(b0 / 4);
        symbol_is_symbol((b0 % 4) * 16 + b1 / 16);
        symbol_is_symbol((b1 % 16) * 4 + b2 / 64);
        symbol_is_symbol(b2 % 64);
        encode_is_symbols(bytes.skip(3));
    }
}

/// Different bytes never share a text.
pub proof fn encode_is_injective(a: Seq<u8>, b: Seq<u8>)
    requires
        encode(a) == encode(b),
    ensures
        a == b,
    decreases a.len(),
{
    encode_has_len(a);
    encode_has_len(b);
    assert(a.len() == b.len());
    let ea = encode(a);
    let eb = encode(b);
    if a.len() == 0 {
        assert(a =~= b);
    } else {
        let a0 = a[0] as int;
        let c0 = b[0] as int;
        symbol_is_symbol(a0 / 4);
        symbol_is_symbol(c0 / 4);
        assert(ea[0] == eb[0]);
        if a.len() == 1 {
            symbol_is_symbol((a0 % 4) * 16);
            symbol_is_symbol((c0 % 4) * 16);
            assert(ea[1] == eb[1]);
            assert(a =~= b);
        } else {
            let a1 = a[1] as int;
            let c1 = b[1] as int;
            symbol_is_symbol((a0 % 4) * 16 + a1 / 16);
            symbol_is_symbol((c0 % 4) * 16 + c1 / 16);
            assert(ea[1] == eb[1]);
            if a.len() == 2 {
                symbol_is_symbol((a1 % 16) * 4);
                symbol_is_symbol((c1 % 16) * 4);
                assert(ea[2] == eb[2]);
                assert(a =~= b);
            } else {
                let a2 = a[2] as int;
                let c2 = b[2] as int;
                symbol_is_symbol((a1 % 16) * 4 + a2 / 64);
                symbol_is_symbol((c1 % 16) * 4 + c2 / 64);
                symbol_is_symbol(a2 % 64);
                symbol_is_symbol(c2 % 64);
                assert(ea[2] == eb[2]);
                assert(ea[3] == eb[3]);
                assert(ea.skip(4) =~= encode(a.skip(3)));
                assert(eb.skip(4) =~= encode(b.skip(3)));
                encode_is_injective(a.skip(3), b.skip(3));
                assert(a =~= a.take(3) + a.skip(3));
                assert(b =~= b.take(3) + b.skip(3));
                assert(a.take(3) =~= b.take(3));
            }
        }
    }
}

} // verus!
