//! Chance, drawn from the thread's random number generator.

use vstd::prelude::*;
use rand::seq::SliceRandom;
use rand::Rng;
use crate::game::Sound;

verus! {

/// A number drawn by `Rng::gen_range` of the `rand` crate, on the generator
/// of `rand::thread_rng`, from the range `0..bound`. The range is not empty,
/// so the call does not panic on it, and what is drawn lies in it. Nothing
/// more is claimed: two draws may differ.
#[verifier::external_body]
pub(crate) fn random_below(bound: u32) -> (drawn: u32)
    requires
        bound > 0,
    ensures
        drawn < bound,
{
    rand::thread_rng().gen_range(0..bound)
}

/// A sound picked by `SliceRandom::choose` of the `rand` crate, on the
/// generator of `rand::thread_rng`: one of the given sounds, and none
/// exactly when none is given.
#[verifier::external_body]
pub(crate) fn choose_sound(sounds: &Vec<Sound>) -> (picked: Option<Sound>)
    ensures
        match picked {
            Some(sound) => sounds@.contains(sound),
            None => sounds@.len() == 0,
        },
{
    sounds.choose(&mut rand::thread_rng()).copied()
}

} // verus!
