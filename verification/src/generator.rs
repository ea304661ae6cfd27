//! Password generation: independent uniform draws, with replacement,
//! from the registry's active alphabet.

use vstd::prelude::*;
use rand::Rng;
use crate::registry::CharsetRegistry;
use crate::registry::CoreError;

verus! {

/// Relies on rand::thread_rng and rand::Rng::gen_range over `0..n`:
/// the draw is a uniformly distributed index strictly below `n`, and
/// the call panics only on an empty range, which the precondition
/// rules out. Nothing is assumed beyond the bound: two calls on the
/// same `n` may differ.
#[verifier::external_body]
fn random_index(n: usize) -> (r: usize)
    requires
        n > 0,
    ensures
        r < n,
{
    rand::thread_rng().gen_range(0..n)
}

/// Draws a password of exactly `length` symbols from the registry's
/// active alphabet. A zero length yields an empty password; a negative
/// length is a caller error and is rejected. The registry is not
/// changed.
pub fn generate(length: i64, registry: &CharsetRegistry) -> (r: Result<Vec<u8>, CoreError>)
    requires
        registry.well_formed(),
        length as int <= usize::MAX as int,
    ensures
        r is Err <==> length < 0,
        length < 0 ==> r == Err::<Vec<u8>, CoreError>(CoreError::InvalidArgument),
        r matches Ok(pw) ==> pw@.len() == length
            && forall|k: int| 0 <= k < pw@.len()
                ==> registry.spec_active_alphabet().contains(#[trigger] pw@[k]),
{
    if length < 0 {
        return Err(CoreError::InvalidArgument);
    }
    let count = length as usize;
    let alphabet = registry.active_alphabet();
    let mut password: Vec<u8> = Vec::new();
    let mut i: usize = 0;
    while i < count
        invariant
            i <= count,
            alphabet@ == registry.spec_active_alphabet(),
            alphabet@.len() > 0,
            password@.len() == i,
            forall|k: int| 0 <= k < password@.len()
                ==> alphabet@.contains(#[trigger] password@[k]),
        decreases count - i,
    {
        let idx = random_index(alphabet.len());
        password.push(alphabet[idx]);
        i += 1;
    }
    Ok(password)
}

/// Over a single-symbol alphabet every generated symbol is that one
/// symbol: containment in an alphabet of size one pins each position.
pub proof fn lemma_single_symbol_draws(alphabet: Seq<u8>, password: Seq<u8>)
    requires
        alphabet.len() == 1,
        forall|k: int| 0 <= k < password.len() ==> alphabet.contains(#[trigger] password[k]),
    ensures
        forall|k: int| 0 <= k < password.len() ==> password[k] == alphabet[0],
{
    assert forall|k: int| 0 <= k < password.len() implies password[k] == alphabet[0] by {
        let j = choose|j: int| 0 <= j < alphabet.len() && alphabet[j] == password[k];
        assert(j == 0);
    }
}

} // verus!
