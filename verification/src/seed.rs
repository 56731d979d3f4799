//! The topic seed: a fresh random token that makes each run ask for
//! something new.

use crate::text::string_of;
use vstd::prelude::*;

verus! {

/// How many characters a seed has.
pub const SEED_LENGTH: usize = 64;

/// Whether `c` is an ASCII letter or digit.
pub open spec fn is_alphanumeric(c: char) -> bool {
    let code = c as u32;
    ||| 0x30 <= code <= 0x39
    ||| 0x41 <= code <= 0x5a
    ||| 0x61 <= code <= 0x7a
}

/// Whether `text` can be a seed: 64 characters, each an ASCII letter or
/// digit.
pub open spec fn is_seed(text: Seq<char>) -> bool {
    &&& text.len() == SEED_LENGTH
    &&& forall|i: int| 0 <= i < text.len() ==> is_alphanumeric(#[trigger] text[i])
}

/// Trusted: the thread-local generator of `rand`, kept opaque.
#[verifier::external_type_specification]
#[verifier::external_body]
pub struct ExThreadRng(rand::rngs::ThreadRng);

/// Trusted: `rand::rng`, the handle to the thread-local generator. Nothing is
/// claimed of it. Where the operating system yields no entropy it does not
/// return: the process ends.
pub assume_specification[ rand::rng ]() -> (generator: rand::rngs::ThreadRng);

/// Trusted: `rand::Rng::sample` with `rand::distr::Alphanumeric`, which
/// yields one byte out of `a-z`, `A-Z` and `0-9`. Which one is left open.
#[verifier::external_body]
fn sample_alphanumeric(generator: &mut rand::rngs::ThreadRng) -> (byte: u8)
    ensures
        is_alphanumeric(byte as char),
{
    rand::Rng::sample(generator, rand::distr::Alphanumeric)
}

/// The seed that a run of draws spells: at each place the character of the
/// byte drawn for that place.
pub fn seed_of_draws(drawn: &Vec<u8>) -> (seed: String)
    ensures
        seed@.len() == drawn@.len(),
        forall|k: int| 0 <= k < drawn@.len() ==> seed@[k] == drawn@[k] as char,
{
    let mut spelled: Vec<char> = Vec::new();
    let mut at: usize = 0;
    while at < drawn.len()
        invariant
            at <= drawn.len(),
            spelled@.len() == at,
            forall|k: int| 0 <= k < at ==> spelled@[k] == drawn@[k] as char,
        decreases drawn.len() - at,
    {
        spelled.push(drawn[at] as char);
        at += 1;
    }
    string_of(&spelled)
}

/// Draws a fresh seed: 64 draws from the generator, spelled out.
pub fn get_random_seed() -> (seed: String)
    ensures
        is_seed(seed@),
{
    let mut generator = rand::rng();
    let mut drawn: Vec<u8> = Vec::new();
    while drawn.len() < SEED_LENGTH
        invariant
            drawn@.len() <= SEED_LENGTH,
            forall|k: int| 0 <= k < drawn@.len() ==> is_alphanumeric(#[trigger] drawn@[k] as char),
        decreases SEED_LENGTH - drawn@.len(),
    {
        let byte = sample_alphanumeric(&mut generator);
        drawn.push(byte);
    }
    seed_of_draws(&drawn)
}

/// Runs of draws that differ anywhere spell different seeds: two seeds agree
/// only where every draw agrees.
pub proof fn lemma_draws_tell_seeds_apart(
    drawn: Seq<u8>,
    seed: Seq<char>,
    other_drawn: Seq<u8>,
    other_seed: Seq<char>,
)
    requires
        seed.len() == drawn.len(),
        forall|k: int| 0 <= k < drawn.len() ==> seed[k] == drawn[k] as char,
        other_seed.len() == other_drawn.len(),
        forall|k: int| 0 <= k < other_drawn.len() ==> other_seed[k] == other_drawn[k] as char,
        drawn != other_drawn,
    ensures
        seed != other_seed,
{
    if seed == other_seed {
        assert forall|k: int| 0 <= k < drawn.len() implies drawn[k] == other_drawn[k] by {
            assert(seed[k] == other_seed[k]);
            assert(drawn[k] as char as u8 == drawn[k]);
            assert(other_drawn[k] as char as u8 == other_drawn[k]);
        }
        assert(drawn =~= other_drawn);
    }
}

} // verus!
