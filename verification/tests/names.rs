use filedrop::alphabet::symbol_at;
use filedrop::names::{generate_name, name_from_words, symbol_for, NAME_LEN};

const ALPHABET: &str = "ABCDEFGHIJKLMNOPQRSTUVWXYZabcdefghijklmnopqrstuvwxyz0123456789-_";

#[test]
fn alphabet_is_in_order() {
    let symbols: String = (0u8..64).map(symbol_at).collect();
    assert_eq!(symbols, ALPHABET);
}

#[test]
fn six_highest_bits_choose_the_symbol() {
    assert_eq!(symbol_for(0), 'A');
    assert_eq!(symbol_for(0x03FF_FFFF), 'A');
    assert_eq!(symbol_for(0x0400_0000), 'B');
    assert_eq!(symbol_for(25 << 26), 'Z');
    assert_eq!(symbol_for(26 << 26), 'a');
    assert_eq!(symbol_for(51 << 26), 'z');
    assert_eq!(symbol_for(52 << 26), '0');
    assert_eq!(symbol_for(61 << 26), '9');
    assert_eq!(symbol_for(62 << 26), '-');
    assert_eq!(symbol_for(u32::MAX), '_');
}

#[test]
fn words_spell_names() {
    let words = [0u32, 26 << 26, 52 << 26, 62 << 26, 63 << 26, 1 << 26, (27 << 26) | 12345];
    assert_eq!(name_from_words(&words), "Aa0-_Bb");
    assert_eq!(name_from_words(&[]), "");
}

#[test]
fn generated_names_are_well_formed() {
    for _ in 0..10_000 {
        let name = generate_name();
        assert_eq!(name.len(), 7);
        assert_eq!(name.chars().count(), NAME_LEN);
        assert!(name.chars().all(|c| ALPHABET.contains(c)));
        assert!(!name.starts_with('.'));
    }
}

#[test]
fn generated_names_differ() {
    let first = generate_name();
    let mut all_same = true;
    for _ in 0..20 {
        if generate_name() != first {
            all_same = false;
        }
    }
    assert!(!all_same);
}
