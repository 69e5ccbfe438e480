//! Random verification codes.

use vstd::prelude::*;
use vstd::string::*;

verus! {

/// The standard seeded random generator of the `rand` crate.
#[verifier::external_type_specification]
#[verifier::external_body]
pub struct ExStdRng(rand::rngs::StdRng);

/// The characters a random code is drawn from: upper-case letters,
/// lower-case letters and digits.
pub open spec fn code_alphabet() -> Seq<char> {
    "ABCDEFGHIJKLMNOPQRSTUVWXYZabcdefghijklmnopqrstuvwxyz0123456789"@
}

/// Why no random code could be drawn.
#[derive(Debug, Clone, Copy, PartialEq, Eq)]
pub enum RandomStringError {
    /// The operating system's random source failed.
    EntropyUnavailable,
}

/// Fills a 32-byte seed from the operating system's random source
/// (`rand::rngs::OsRng` through `TryRngCore::try_fill_bytes`); `None` when
/// the source fails. Nothing is promised of the bytes.
#[verifier::external_body]
fn os_seed() -> (r: Option<[u8; 32]>) {
    let mut seed = [0u8; 32];
    rand::TryRngCore::try_fill_bytes(&mut rand::rngs::OsRng, &mut seed).ok().map(|_| seed)
}

/// A generator seeded with `seed` (`SeedableRng::from_seed` for
/// `rand::rngs::StdRng`).
#[verifier::external_body]
fn rng_from_seed(seed: [u8; 32]) -> rand::rngs::StdRng {
    <rand::rngs::StdRng as rand::SeedableRng>::from_seed(seed)
}

/// A number drawn by `Rng::random_range` from `0..bound`; it is below
/// `bound`. Which number comes out depends on the generator's state.
#[verifier::external_body]
fn random_below(rng: &mut rand::rngs::StdRng, bound: usize) -> (r: usize)
    requires
        bound > 0,
    ensures
        r < bound,
{
    rand::Rng::random_range(rng, 0..bound)
}

/// A random code of `length` characters drawn from letters and digits,
/// with a generator seeded from the operating system. It fails only when
/// the operating system gives no seed.
pub fn generate_random_string(length: usize) -> (r: Result<String, RandomStringError>)
    ensures
        r matches Ok(s) ==> s@.len() == length && forall|i: int|
            0 <= i < length ==> code_alphabet().contains(#[trigger] s@[i]),
{
    match os_seed() {
        Some(seed) => Ok(random_string_from_seed(seed, length)),
        None => Err(RandomStringError::EntropyUnavailable),
    }
}

/// A random code of `length` characters drawn from letters and digits by a
/// generator seeded with `seed`. It always succeeds; which characters come
/// out depends on the generator.
pub fn random_string_from_seed(seed: [u8; 32], length: usize) -> (s: String)
    ensures
        s@.len() == length,
        forall|i: int| 0 <= i < length ==> code_alphabet().contains(#[trigger] s@[i]),
{
    let mut rng = rng_from_seed(seed);
    let alphabet = "ABCDEFGHIJKLMNOPQRSTUVWXYZabcdefghijklmnopqrstuvwxyz0123456789";
    proof {
        reveal_strlit("ABCDEFGHIJKLMNOPQRSTUVWXYZabcdefghijklmnopqrstuvwxyz0123456789");
    }
    assert(alphabet@.len() == 62);
    assert(alphabet.is_ascii());
    let mut s = String::new();
    let mut n: usize = 0;
    while n < length
        invariant
            n <= length,
            s@.len() == n,
            alphabet@ == code_alphabet(),
            alphabet@.len() == 62,
            alphabet.is_ascii(),
            forall|i: int| 0 <= i < n ==> code_alphabet().contains(#[trigger] s@[i]),
        decreases length - n,
    {
        let idx = random_below(&mut rng, 62);
        let piece = alphabet.substring_ascii(idx, idx + 1);
        let ghost before = s@;
        s.append(piece);
        assert(s@[n as int] == alphabet@[idx as int]);
        assert forall|i: int| 0 <= i < n + 1 implies code_alphabet().contains(#[trigger] s@[i]) by {
            if i < n {
                assert(s@[i] == before[i]);
            } else {
                assert(code_alphabet()[idx as int] == s@[i]);
            }
        }
        n = n + 1;
    }
    s
}

} // verus!
