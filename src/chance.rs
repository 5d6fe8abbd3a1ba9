use rand::rngs::StdRng;
use rand::seq::SliceRandom;
use rand::Rng;
use vstd::prelude::*;

use crate::game::MoveSelection;

verus! {

/// The seedable random source that every random decision of a battle draws
/// from, so that a fixed seed replays the same battle.
#[verifier::external_type_specification]
#[verifier::external_body]
pub struct ExStdRng(StdRng);

/// Relies on rand's `Rng::gen_range`: on an inclusive range `lo..=hi` with
/// `lo <= hi` it returns a value within the range (it panics on an empty one).
#[verifier::external_body]
pub(crate) fn roll(rng: &mut StdRng, lo: u32, hi: u32) -> (r: u32)
    requires
        lo <= hi,
    ensures
        lo <= r <= hi,
{
    rng.gen_range(lo..=hi)
}

/// Relies on rand's `SliceRandom::choose`: `None` exactly for an empty slice,
/// otherwise one of its elements.
#[verifier::external_body]
pub(crate) fn pick(choices: &Vec<MoveSelection>, rng: &mut StdRng) -> (r: Option<MoveSelection>)
    ensures
        r is None <==> choices@.len() == 0,
        r matches Some(c) ==> choices@.contains(c),
{
    choices.as_slice().choose(rng).copied()
}

} // verus!
