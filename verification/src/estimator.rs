//! Strength estimation: the alphabet size that feeds the entropy
//! formula `length * log2(alphabet_size)`, and a coarse two-way
//! strength label. The thresholds are deliberate, arbitrary cutoffs,
//! not a calibrated strength model.

use vstd::prelude::*;
use crate::registry::CharsetRegistry;

verus! {

/// A password counts as strong only above this alphabet size.
pub const STRONG_MIN_ALPHABET: usize = 26;

/// A password counts as strong only above this length.
pub const STRONG_MIN_LENGTH: i64 = 10;

/// The closed set of strength categories.
#[derive(Clone, Copy, Debug, PartialEq, Eq, Structural)]
pub enum Strength {
    Weak,
    Strong,
}

impl Strength {
    /// The label's display text.
    pub fn text(&self) -> (r: &'static str)
        ensures
            *self is Strong ==> r@ == "strong"@,
            *self is Weak ==> r@ == "weak"@,
    {
        match self {
            Strength::Strong => "strong",
            Strength::Weak => "weak",
        }
    }
}

/// What the threshold check yields for a given length and alphabet
/// size: strong exactly when both cutoffs are exceeded.
pub open spec fn spec_strength(length: i64, alphabet_size: int) -> Strength {
    if alphabet_size > STRONG_MIN_ALPHABET as int && length > STRONG_MIN_LENGTH as int {
        Strength::Strong
    } else {
        Strength::Weak
    }
}

/// The strength report for a requested length against a registry
/// state. `alphabet_size` is the base of the entropy estimate
/// `length * log2(alphabet_size)`; the caller owns that final
/// floating-point step, which depends on nothing but these two
/// numbers.
pub struct StrengthReport {
    pub alphabet_size: usize,
    pub label: Strength,
}

/// Computes the strength report: the effective alphabet size and the
/// two-way label. Purely a function of the requested length and the
/// registry's enabled flags; the registry is not changed.
pub fn estimate(length: i64, registry: &CharsetRegistry) -> (r: StrengthReport)
    requires
        registry.well_formed(),
    ensures
        r.alphabet_size == registry.spec_alphabet_size(),
        r.label == spec_strength(length, registry.spec_alphabet_size()),
        r.label is Strong <==> registry.spec_alphabet_size() > STRONG_MIN_ALPHABET as int
            && length > STRONG_MIN_LENGTH as int,
{
    let alphabet_size = registry.active_alphabet_size();
    let label = if alphabet_size > STRONG_MIN_ALPHABET && length > STRONG_MIN_LENGTH {
        Strength::Strong
    } else {
        Strength::Weak
    };
    StrengthReport { alphabet_size, label }
}

} // verus!
