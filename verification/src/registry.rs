//! The charset registry: an ordered, fixed collection of named character
//! subsets, each carrying an enabled flag. The registry computes the
//! active alphabet that generation and estimation draw on.

use vstd::prelude::*;

verus! {

/// Alphabet size assumed by the strength estimate when no entry is
/// enabled. A fixed constant rather than the default entry's actual
/// size; the two agree for the stock configuration, where the default
/// entry holds the 26 lowercase letters.
pub const FALLBACK_ALPHABET_SIZE: usize = 26;

/// Errors of the core: a toggle aimed outside the registry, or a
/// negative requested length.
#[derive(Clone, Copy, Debug, PartialEq, Eq, Structural)]
pub enum CoreError {
    OutOfRange,
    InvalidArgument,
}

/// One named subset of symbols (for example the lowercase letters) that
/// can be enabled or disabled as a source of password characters.
#[verifier::ext_equal]
pub struct CharsetEntry {
    /// Short human-readable name of the subset.
    pub label: String,
    /// The symbols the subset offers, in display order.
    pub characters: Vec<u8>,
    /// Whether the subset currently contributes to the active alphabet.
    pub enabled: bool,
}

impl CharsetEntry {
    /// An entry is well formed when it offers at least one symbol.
    pub open spec fn well_formed(self) -> bool {
        self.characters@.len() > 0
    }

    /// A fresh entry starts disabled.
    pub fn new(label: String, characters: Vec<u8>) -> (r: CharsetEntry)
        requires
            characters@.len() > 0,
        ensures
            r.label@ == label@,
            r.characters@ == characters@,
            !r.enabled,
            r.well_formed(),
    {
        CharsetEntry { label, characters, enabled: false }
    }
}

/// The entry with its enabled flag flipped; everything else unchanged.
pub open spec fn flip(e: CharsetEntry) -> CharsetEntry {
    CharsetEntry { enabled: !e.enabled, ..e }
}

/// The entry sequence after a toggle of position `i`.
pub open spec fn spec_toggle(entries: Seq<CharsetEntry>, i: int) -> Seq<CharsetEntry> {
    entries.update(i, flip(entries[i]))
}

/// The concatenation, in registry order, of the characters of every
/// enabled entry.
pub open spec fn enabled_concat(entries: Seq<CharsetEntry>) -> Seq<u8>
    decreases entries.len(),
{
    if entries.len() == 0 {
        Seq::empty()
    } else {
        enabled_concat(entries.drop_last()) + if entries.last().enabled {
            entries.last().characters@
        } else {
            Seq::empty()
        }
    }
}

/// Whether at least one entry is enabled.
pub open spec fn any_enabled(entries: Seq<CharsetEntry>) -> bool {
    exists|i: int| 0 <= i < entries.len() && entries[i].enabled
}

/// When every entry offers at least one symbol, the enabled entries
/// together contribute no symbol exactly when none of them is enabled.
pub proof fn lemma_enabled_concat_empty(entries: Seq<CharsetEntry>)
    requires
        forall|i: int| 0 <= i < entries.len() ==> entries[i].well_formed(),
    ensures
        enabled_concat(entries).len() == 0 <==> !any_enabled(entries),
    decreases entries.len(),
{
    if entries.len() > 0 {
        lemma_enabled_concat_empty(entries.drop_last());
        if any_enabled(entries) && !entries.last().enabled {
            let i = choose|i: int| 0 <= i < entries.len() && entries[i].enabled;
            assert(entries.drop_last()[i] == entries[i]);
        }
        if any_enabled(entries.drop_last()) {
            let i = choose|i: int| 0 <= i < entries.drop_last().len()
                && entries.drop_last()[i].enabled;
            assert(entries[i].enabled);
        }
    }
}

/// An ordered collection of character subsets. The first entry is the
/// designated default: it supplies the alphabet when nothing is enabled.
#[verifier::ext_equal]
pub struct CharsetRegistry {
    pub entries: Vec<CharsetEntry>,
}

impl CharsetRegistry {
    /// A registry is well formed when it has a default entry to fall
    /// back on and every entry offers at least one symbol.
    pub open spec fn well_formed(self) -> bool {
        &&& self.entries@.len() > 0
        &&& forall|i: int| 0 <= i < self.entries@.len() ==> self.entries@[i].well_formed()
    }

    pub fn new(entries: Vec<CharsetEntry>) -> (r: CharsetRegistry)
        requires
            entries@.len() > 0,
            forall|i: int| 0 <= i < entries@.len() ==> entries@[i].well_formed(),
        ensures
            r.entries@ == entries@,
            r.well_formed(),
    {
        CharsetRegistry { entries }
    }

    /// How many subsets the registry holds.
    pub fn size(&self) -> (r: usize)
        ensures
            r == self.entries@.len(),
    {
        self.entries.len()
    }

    /// Flips the enabled flag of the entry at `index`. An index outside
    /// the registry is rejected and leaves every entry untouched.
    pub fn toggle(&mut self, index: usize) -> (r: Result<(), CoreError>)
        ensures
            index < old(self).entries@.len() ==> r is Ok
                && final(self).entries@ == spec_toggle(old(self).entries@, index as int),
            index >= old(self).entries@.len() ==> r == Err::<(), CoreError>(CoreError::OutOfRange)
                && *final(self) == *old(self),
            final(self).entries@.len() == old(self).entries@.len(),
            old(self).well_formed() ==> final(self).well_formed(),
    {
        if index < self.entries.len() {
            let e = &mut self.entries[index];
            e.enabled = !e.enabled;
            assert(self.entries@ =~= spec_toggle(old(self).entries@, index as int));
            Ok(())
        } else {
            Err(CoreError::OutOfRange)
        }
    }
}

/// Appends every symbol of `src` to `dst`, in order.
fn append_bytes(dst: &mut Vec<u8>, src: &Vec<u8>)
    ensures
        final(dst)@ == old(dst)@ + src@,
{
    let mut j: usize = 0;
    assert(dst@ =~= old(dst)@ + src@.take(0));
    while j < src.len()
        invariant
            j <= src@.len(),
            dst@ == old(dst)@ + src@.take(j as int),
        decreases src@.len() - j,
    {
        dst.push(src[j]);
        j += 1;
        assert(dst@ =~= old(dst)@ + src@.take(j as int));
    }
    assert(src@.take(src@.len() as int) =~= src@);
}

impl CharsetRegistry {
    /// The alphabet generation draws on: the concatenation of every
    /// enabled entry's characters, or the default (first) entry's
    /// characters when nothing is enabled.
    pub open spec fn spec_active_alphabet(self) -> Seq<u8> {
        if any_enabled(self.entries@) {
            enabled_concat(self.entries@)
        } else {
            self.entries@[0].characters@
        }
    }

    /// The alphabet size the strength estimate uses: the total number
    /// of enabled symbols, or the fixed fallback when nothing is
    /// enabled.
    pub open spec fn spec_alphabet_size(self) -> int {
        if any_enabled(self.entries@) {
            enabled_concat(self.entries@).len() as int
        } else {
            FALLBACK_ALPHABET_SIZE as int
        }
    }

    /// Whether at least one entry is currently enabled.
    pub fn has_enabled(&self) -> (r: bool)
        ensures
            r == any_enabled(self.entries@),
    {
        let mut i: usize = 0;
        while i < self.entries.len()
            invariant
                i <= self.entries@.len(),
                forall|k: int| 0 <= k < i ==> !self.entries@[k].enabled,
            decreases self.entries@.len() - i,
        {
            if self.entries[i].enabled {
                return true;
            }
            i += 1;
        }
        false
    }

    /// Builds the active alphabet. It is never empty: a well-formed
    /// registry falls back to its default entry when nothing is
    /// enabled.
    pub fn active_alphabet(&self) -> (r: Vec<u8>)
        requires
            self.well_formed(),
        ensures
            r@ == self.spec_active_alphabet(),
            r@.len() > 0,
    {
        let mut acc: Vec<u8> = Vec::new();
        let mut i: usize = 0;
        assert(acc@ =~= enabled_concat(self.entries@.take(0)));
        while i < self.entries.len()
            invariant
                i <= self.entries@.len(),
                acc@ == enabled_concat(self.entries@.take(i as int)),
            decreases self.entries@.len() - i,
        {
            if self.entries[i].enabled {
                append_bytes(&mut acc, &self.entries[i].characters);
            }
            i += 1;
            proof {
                assert(self.entries@.take(i as int).drop_last()
                    =~= self.entries@.take(i - 1));
                assert(acc@ =~= enabled_concat(self.entries@.take(i as int)));
            }
        }
        proof {
            assert(self.entries@.take(self.entries@.len() as int) =~= self.entries@);
            lemma_enabled_concat_empty(self.entries@);
        }
        if acc.len() == 0 {
            append_bytes(&mut acc, &self.entries[0].characters);
            assert(acc@ =~= self.entries@[0].characters@);
        }
        acc
    }

    /// The alphabet size that feeds the entropy formula.
    pub fn active_alphabet_size(&self) -> (r: usize)
        requires
            self.well_formed(),
        ensures
            r == self.spec_alphabet_size(),
    {
        if self.has_enabled() {
            let alphabet = self.active_alphabet();
            alphabet.len()
        } else {
            FALLBACK_ALPHABET_SIZE
        }
    }
}

/// With every entry disabled, the active alphabet is exactly the
/// default (first) entry's characters.
pub proof fn lemma_all_disabled_alphabet(r: CharsetRegistry)
    requires
        r.well_formed(),
        forall|i: int| 0 <= i < r.entries@.len() ==> !r.entries@[i].enabled,
    ensures
        r.spec_active_alphabet() == r.entries@[0].characters@,
{
}

/// Toggling the same position twice restores the original entries.
pub proof fn lemma_toggle_twice(entries: Seq<CharsetEntry>, i: int)
    requires
        0 <= i < entries.len(),
    ensures
        spec_toggle(spec_toggle(entries, i), i) == entries,
{
    assert(flip(flip(entries[i])) == entries[i]);
    assert(spec_toggle(spec_toggle(entries, i), i) =~= entries);
}

} // verus!
