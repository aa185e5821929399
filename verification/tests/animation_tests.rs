use platformer_physics::animation::{
    idle_animation, jump_animation, next_frame, run_animation, select_animation, AnimationIndices,
};
use platformer_physics::state::Locomotion;

#[test]
fn each_animation_has_its_frames() {
    let mut indices = AnimationIndices { first: 0, last: 0 };
    run_animation(&mut indices);
    assert_eq!(indices, AnimationIndices { first: 18, last: 21 });
    idle_animation(&mut indices);
    assert_eq!(indices, AnimationIndices { first: 15, last: 15 });
    jump_animation(&mut indices);
    assert_eq!(indices, AnimationIndices { first: 17, last: 17 });
}

#[test]
fn locomotion_selects_the_animation() {
    let mut indices = AnimationIndices { first: 0, last: 0 };
    select_animation(Locomotion::Running, &mut indices);
    assert_eq!(indices, AnimationIndices { first: 18, last: 21 });
    select_animation(Locomotion::Idle, &mut indices);
    assert_eq!(indices, AnimationIndices { first: 15, last: 15 });
    select_animation(Locomotion::Airborne, &mut indices);
    assert_eq!(indices, AnimationIndices { first: 17, last: 17 });
}

#[test]
fn frames_advance_and_wrap() {
    let run = AnimationIndices { first: 18, last: 21 };
    assert_eq!(next_frame(18, &run), 19);
    assert_eq!(next_frame(19, &run), 20);
    assert_eq!(next_frame(20, &run), 21);
    assert_eq!(next_frame(21, &run), 18);
}

#[test]
fn frames_outside_the_range_jump_to_the_first() {
    let run = AnimationIndices { first: 18, last: 21 };
    assert_eq!(next_frame(0, &run), 18);
    assert_eq!(next_frame(17, &run), 18);
    assert_eq!(next_frame(22, &run), 18);
    assert_eq!(next_frame(usize::MAX, &run), 18);
    let idle = AnimationIndices { first: 15, last: 15 };
    assert_eq!(next_frame(15, &idle), 15);
    assert_eq!(next_frame(18, &idle), 15);
}

#[test]
fn frames_of_an_empty_range_go_to_its_first() {
    let odd = AnimationIndices { first: 9, last: 3 };
    assert_eq!(next_frame(5, &odd), 9);
    assert_eq!(next_frame(9, &odd), 9);
    assert_eq!(next_frame(3, &odd), 9);
}
