//! Frame ranges of the player's sprite sheet and the stepping through them.
//! None of this feeds back into the physics.

use crate::state::Locomotion;
use vstd::prelude::*;

verus! {

/// The first and last frame of the animation that is playing.
#[derive(Clone, Copy, Debug, PartialEq, Eq, Structural)]
pub struct AnimationIndices {
    pub first: usize,
    pub last: usize,
}

/// The frame range that goes with a locomotion state.
pub open spec fn frames_spec(locomotion: Locomotion) -> AnimationIndices {
    match locomotion {
        Locomotion::Airborne => AnimationIndices { first: 17, last: 17 },
        Locomotion::Running => AnimationIndices { first: 18, last: 21 },
        Locomotion::Idle => AnimationIndices { first: 15, last: 15 },
    }
}

/// The frame after `index`: the next one inside the range, and the first
/// one from the last frame or from anywhere outside the range.
pub open spec fn next_frame_spec(index: usize, indices: AnimationIndices) -> int {
    if index == indices.last || index < indices.first || index > indices.last {
        indices.first as int
    } else {
        index + 1
    }
}

/// Selects the running frames.
pub fn run_animation(animation_indices: &mut AnimationIndices)
    ensures
        *final(animation_indices) == frames_spec(Locomotion::Running),
{
    animation_indices.first = 18;
    animation_indices.last = 21;
}

/// Selects the idle frame.
pub fn idle_animation(animation_indices: &mut AnimationIndices)
    ensures
        *final(animation_indices) == frames_spec(Locomotion::Idle),
{
    animation_indices.first = 15;
    animation_indices.last = 15;
}

/// Selects the jump frame.
pub fn jump_animation(animation_indices: &mut AnimationIndices)
    ensures
        *final(animation_indices) == frames_spec(Locomotion::Airborne),
{
    animation_indices.first = 17;
    animation_indices.last = 17;
}

/// Selects the frames for what the player is doing.
pub fn select_animation(locomotion: Locomotion, animation_indices: &mut AnimationIndices)
    ensures
        *final(animation_indices) == frames_spec(locomotion),
{
    match locomotion {
        Locomotion::Airborne => jump_animation(animation_indices),
        Locomotion::Running => run_animation(animation_indices),
        Locomotion::Idle => idle_animation(animation_indices),
    }
}

/// Advances the sprite by one frame, wrapping to the first frame of the
/// range.
pub fn next_frame(index: usize, indices: &AnimationIndices) -> (r: usize)
    ensures
        r == next_frame_spec(index, *indices),
        indices.first <= indices.last ==> indices.first <= r <= indices.last,
{
    if index == indices.last || index < indices.first || index > indices.last {
        indices.first
    } else {
        index + 1
    }
}

} // verus!
