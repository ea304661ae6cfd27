use passgen::estimator::{estimate, Strength};
use passgen::generator::generate;
use passgen::registry::{CharsetEntry, CharsetRegistry, CoreError};

fn entry(label: &str, characters: &str) -> CharsetEntry {
    CharsetEntry::new(label.to_string(), characters.as_bytes().to_vec())
}

/// The stock four-subset configuration: lowercase first, so it doubles
/// as the fallback alphabet.
fn stock_registry() -> CharsetRegistry {
    CharsetRegistry::new(vec![
        entry("a-z", "abcdefghijklmnopqrstuvwxyz"),
        entry("A-Z", "ABCDEFGHIJKLMNOPQRSTUVWXYZ"),
        entry("0-9", "0123456789"),
        entry("%!$", ")(*&^%$#@!~"),
    ])
}

fn active_alphabet_of(reg: &CharsetRegistry) -> Vec<u8> {
    reg.active_alphabet()
}

fn entropy_bits(length: i64, alphabet_size: usize) -> f64 {
    length as f64 * (alphabet_size as f64).log2()
}

#[test]
fn generate_has_exact_length_and_symbols_from_alphabet() {
    let mut reg = stock_registry();
    for &len in &[1i64, 2, 6, 13, 64] {
        let pw = generate(len, &reg).unwrap();
        assert_eq!(pw.len(), len as usize);
        let alphabet = active_alphabet_of(&reg);
        assert!(pw.iter().all(|b| alphabet.contains(b)));
    }
    reg.toggle(1).unwrap();
    reg.toggle(2).unwrap();
    let pw = generate(40, &reg).unwrap();
    assert_eq!(pw.len(), 40);
    let alphabet = active_alphabet_of(&reg);
    assert_eq!(alphabet, "ABCDEFGHIJKLMNOPQRSTUVWXYZ0123456789".as_bytes());
    assert!(pw.iter().all(|b| alphabet.contains(b)));
}

#[test]
fn generate_zero_length_is_empty_never_an_error() {
    let mut reg = stock_registry();
    assert_eq!(generate(0, &reg), Ok(vec![]));
    for i in 0..reg.size() {
        reg.toggle(i).unwrap();
        assert_eq!(generate(0, &reg), Ok(vec![]));
    }
}

#[test]
fn generate_negative_length_is_invalid_argument() {
    let reg = stock_registry();
    assert_eq!(generate(-1, &reg), Err(CoreError::InvalidArgument));
    assert_eq!(generate(-64, &reg), Err(CoreError::InvalidArgument));
}

#[test]
fn all_disabled_alphabet_is_the_default_entry() {
    let reg = stock_registry();
    assert_eq!(
        active_alphabet_of(&reg),
        "abcdefghijklmnopqrstuvwxyz".as_bytes()
    );
}

#[test]
fn estimate_all_disabled_length_six() {
    let reg = stock_registry();
    let report = estimate(6, &reg);
    assert_eq!(report.alphabet_size, 26);
    assert_eq!(report.label, Strength::Weak);
    assert_eq!(report.label.text(), "weak");
    let bits = entropy_bits(6, report.alphabet_size);
    assert!((bits - 28.20).abs() < 0.01);
}

#[test]
fn estimate_uppercase_and_digits_length_twelve() {
    let mut reg = stock_registry();
    reg.toggle(1).unwrap();
    reg.toggle(2).unwrap();
    let report = estimate(12, &reg);
    assert_eq!(report.alphabet_size, 36);
    assert_eq!(report.label, Strength::Strong);
    assert_eq!(report.label.text(), "strong");
    let bits = entropy_bits(12, report.alphabet_size);
    assert!((bits - 62.04).abs() < 0.01);
}

#[test]
fn estimate_thresholds_are_strict() {
    let mut reg = stock_registry();
    reg.toggle(1).unwrap();
    reg.toggle(2).unwrap();
    // Alphabet size 36 but length exactly at the cutoff: still weak.
    assert_eq!(estimate(10, &reg).label, Strength::Weak);
    assert_eq!(estimate(11, &reg).label, Strength::Strong);
    // Length past the cutoff but alphabet size exactly 26: still weak.
    let mut lower_only = stock_registry();
    lower_only.toggle(0).unwrap();
    let report = estimate(12, &lower_only);
    assert_eq!(report.alphabet_size, 26);
    assert_eq!(report.label, Strength::Weak);
}

#[test]
fn toggle_twice_restores_the_registry() {
    let mut reg = stock_registry();
    reg.toggle(2).unwrap();
    let flags_before: Vec<bool> = reg.entries.iter().map(|e| e.enabled).collect();
    reg.toggle(3).unwrap();
    reg.toggle(3).unwrap();
    let flags_after: Vec<bool> = reg.entries.iter().map(|e| e.enabled).collect();
    assert_eq!(flags_before, flags_after);
    assert_eq!(flags_after, vec![false, false, true, false]);
}

#[test]
fn toggle_out_of_range_is_rejected_and_changes_nothing() {
    let mut reg = stock_registry();
    reg.toggle(1).unwrap();
    assert_eq!(reg.toggle(4), Err(CoreError::OutOfRange));
    assert_eq!(reg.toggle(usize::MAX), Err(CoreError::OutOfRange));
    let flags: Vec<bool> = reg.entries.iter().map(|e| e.enabled).collect();
    assert_eq!(flags, vec![false, true, false, false]);
    assert_eq!(active_alphabet_of(&reg), "ABCDEFGHIJKLMNOPQRSTUVWXYZ".as_bytes());
}

#[test]
fn single_symbol_alphabet_draws_only_that_symbol() {
    let reg = CharsetRegistry::new(vec![entry("x", "x")]);
    for _ in 0..50 {
        let pw = generate(20, &reg).unwrap();
        assert!(pw.iter().all(|&b| b == b'x'));
    }
}

#[test]
fn draws_cover_the_alphabet_roughly_uniformly() {
    let mut reg = CharsetRegistry::new(vec![
        entry("pad", "z"),
        entry("0-9", "0123456789"),
    ]);
    reg.toggle(1).unwrap();
    let pw = generate(10_000, &reg).unwrap();
    let mut counts = [0usize; 10];
    for &b in &pw {
        assert!(b.is_ascii_digit());
        counts[(b - b'0') as usize] += 1;
    }
    // Expected about 1000 per digit; far looser bounds so that chance
    // alone cannot fail the run, while a draw pinned to one position
    // or a truncated range still would.
    for &c in &counts {
        assert!(c > 700 && c < 1300, "skewed digit counts: {:?}", counts);
    }
}

#[test]
fn registry_size_reports_the_entry_count() {
    assert_eq!(stock_registry().size(), 4);
    assert_eq!(CharsetRegistry::new(vec![entry("x", "x")]).size(), 1);
}
