//! Names for stored files: seven symbols, each chosen by six random bits.

use rand::RngCore;
use vstd::prelude::*;
use crate::alphabet::{is_symbol, symbol, symbol_at, symbol_is_symbol};
use crate::text::push_char;

verus! {

/// Number of symbols in a name.
pub const NAME_LEN: usize = 7;

/// The six-bit value that a random word chooses: its six highest bits.
pub open spec fn choice(word: u32) -> int {
    (word / 0x400_0000) as int
}

/// The name that a sequence of random words spells, one symbol a word.
pub open spec fn name_of(words: Seq<u32>) -> Seq<char> {
    Seq::new(words.len(), |i: int| symbol(choice(words[i])))
}

/// Whether `name` is fit to be the stem of a stored file: `NAME_LEN` symbols
/// of the alphabet, so in particular no dot.
pub open spec fn is_name(name: Seq<char>) -> bool {
    &&& name.len() == NAME_LEN
    &&& forall|i: int| 0 <= i < name.len() ==> is_symbol(#[trigger] name[i])
}

/// `rand::RngCore::next_u32` on `rand::thread_rng()`: the next 32 bits of the
/// thread's cryptographically secure generator. Nothing is claimed of them.
#[verifier::external_body]
fn random_word() -> u32 {
    rand::thread_rng().next_u32()
}

/// The symbol that a random word chooses.
pub fn symbol_for(word: u32) -> (c: char)
    ensures
        c == symbol(choice(word)),
        is_symbol(c),
{
    let v: u32 = word >> 26;
    assert(v == word / 0x400_0000 && v < 64) by (bit_vector)
        requires
            v == word >> 26,
    ;
    proof {
        symbol_is_symbol(v as int);
    }
    symbol_at(v as u8)
}

/// The name that `words` spell.
pub fn name_from_words(words: &[u32]) -> (name: String)
    ensures
        name@ == name_of(words@),
{
    let mut name = String::new();
    let mut i: usize = 0;
    while i < words.len()
        invariant
            i <= words.len(),
            name@ == name_of(words@.take(i as int)),
        decreases words.len() - i,
    {
        let c = symbol_for(words[i]);
        push_char(&mut name, c);
        proof {
            assert(name@ =~= name_of(words@.take(i as int + 1)));
        }
        i += 1;
    }
    assert(words@.take(i as int) =~= words@);
    name
}

/// Whatever the words, `NAME_LEN` of them spell a name.
pub proof fn words_spell_a_name(words: Seq<u32>)
    requires
        words.len() == NAME_LEN,
    ensures
        is_name(name_of(words)),
        name_of(words)[0] != '.',
{
    assert forall|i: int| 0 <= i < words.len() implies is_symbol(#[trigger] name_of(words)[i]) by {
        let w = words[i];
        assert(0 <= w / 0x400_0000 < 64) by (bit_vector);
        symbol_is_symbol(choice(w));
    }
}

/// A fresh random name: `NAME_LEN` symbols, each chosen by six bits of the
/// thread's secure generator. It never begins with a dot.
pub fn generate_name() -> (name: String)
    ensures
        is_name(name@),
        name@[0] != '.',
        exists|words: Seq<u32>| words.len() == NAME_LEN && name@ == name_of(words),
{
    let mut words: Vec<u32> = Vec::new();
    let mut i: usize = 0;
    while i < NAME_LEN
        invariant
            i <= NAME_LEN,
            words@.len() == i,
        decreases NAME_LEN - i,
    {
        words.push(random_word());
        i += 1;
    }
    proof {
        words_spell_a_name(words@);
    }
    name_from_words(words.as_slice())
}

} // verus!
