//! The random draws of the game, made from the thread-local generator.
//!
//! Nothing here is proved: each function states what the generator's
//! documentation promises of every outcome, and no more.

use rand::seq::SliceRandom;
use rand::Rng;
use vstd::prelude::*;

verus! {

/// `Rng::gen_ratio` on `rand::thread_rng()`: `true` with a chance of
/// `numerator` in `denominator`. The contract claims only the two outcomes
/// that are certain: never with a numerator of zero, always when numerator
/// and denominator are equal. The call panics on a zero denominator and on a
/// numerator above the denominator, so both are excluded.
#[verifier::external_body]
pub(crate) fn chance(numerator: u32, denominator: u32) -> (hit: bool)
    requires
        denominator > 0,
        numerator <= denominator,
    ensures
        numerator == 0 ==> !hit,
        numerator == denominator ==> hit,
{
    rand::thread_rng().gen_ratio(numerator, denominator)
}

/// `Rng::gen_range` on `rand::thread_rng()` with the half-open range
/// `low..high`: the contract claims that the number drawn lies in the range.
/// The call panics on an empty range, which is excluded.
#[verifier::external_body]
pub(crate) fn roll(low: u32, high: u32) -> (n: u32)
    requires
        low < high,
    ensures
        low <= n < high,
{
    rand::thread_rng().gen_range(low..high)
}

/// `SliceRandom::choose` on the glyphs with `rand::thread_rng()`: the
/// contract claims that one of the glyphs comes back, and none only when
/// there is none to choose from.
#[verifier::external_body]
pub(crate) fn pick(glyphs: &Vec<char>) -> (glyph: Option<char>)
    ensures
        glyph is None <==> glyphs@.len() == 0,
        glyph matches Some(c) ==> glyphs@.contains(c),
{
    glyphs.choose(&mut rand::thread_rng()).copied()
}

} // verus!
