use character_control::clip::{lookup_clip_path, AnimationProfile, PlayRequest};
use character_control::controller::{PlayerAnimationController, Transition};
use character_control::state::{PlayerAnimationEvent, PlayerAnimationState};
use character_control::table::next_state;
use num::FromPrimitive;

use PlayerAnimationEvent::{Dash, Jump, Punch, Stop, Walk};
use PlayerAnimationState::{Dashing, Idle, Jumping, Punching, Walking};

const STATES: [PlayerAnimationState; 5] = [Idle, Walking, Dashing, Punching, Jumping];
const EVENTS: [PlayerAnimationEvent; 5] = [Stop, Walk, Dash, Punch, Jump];

const WALK_CLIP: &str = "assets/mecha.glb/animations/walk_5.anim";

fn controller_at(state: PlayerAnimationState) -> PlayerAnimationController {
    PlayerAnimationController::restore(1, state.to_u32(), AnimationProfile::base())
}

#[test]
fn table_matches_every_entry() {
    let expected = [
        [Idle, Walking, Dashing, Punching, Jumping],
        [Idle, Walking, Dashing, Punching, Jumping],
        [Idle, Walking, Dashing, Punching, Jumping],
        [Idle, Walking, Dashing, Punching, Jumping],
        [Jumping, Walking, Dashing, Jumping, Jumping],
    ];
    for (row, state) in STATES.iter().enumerate() {
        for (column, event) in EVENTS.iter().enumerate() {
            assert_eq!(
                next_state(*state, *event),
                expected[row][column],
                "{:?} under {:?}",
                state,
                event
            );
        }
    }
}

#[test]
fn transition_returns_and_stores_the_tabulated_state() {
    for state in STATES {
        for event in EVENTS {
            let mut controller = controller_at(state);
            let outcome = controller.transition(event);
            assert_eq!(outcome.state, next_state(state, event));
            assert_eq!(controller.state(), outcome.state);
            assert_eq!(controller.stored(), outcome.state.to_u32());
            assert!(!outcome.recovered);
        }
    }
}

#[test]
fn self_transitions_play_nothing_and_leave_the_binding() {
    let mut seen = 0;
    for state in STATES {
        for event in EVENTS {
            if next_state(state, event) != state {
                continue;
            }
            seen += 1;
            let mut controller = controller_at(state);
            let outcome = controller.transition(event);
            assert_eq!(outcome.play, None);
            assert_eq!(outcome.state, state);
            assert_eq!(controller.stored(), state.to_u32());
            assert_eq!(controller.target_id(), 1);
            assert_eq!(controller.profile(), AnimationProfile::base());
        }
    }
    assert_eq!(seen, 7);
}

#[test]
fn real_transitions_play_the_clip_of_the_new_state_once() {
    let mut seen = 0;
    for state in STATES {
        for event in EVENTS {
            let next = next_state(state, event);
            if next == state {
                continue;
            }
            seen += 1;
            let mut controller = controller_at(state);
            let outcome = controller.transition(event);
            let request = outcome.play.expect("a change of state owes one play call");
            assert_eq!(request.state, next);
            assert_eq!(request.looping, next == Walking);
            assert_eq!(request.clip_path(), lookup_clip_path(next));
            assert_eq!(request, controller.requested());
        }
    }
    assert_eq!(seen, 18);
}

#[test]
fn idle_then_walk_plays_the_walk_clip_looping() {
    let mut controller = PlayerAnimationController::new(42);
    assert_eq!(controller.state(), Idle);
    let outcome = controller.transition(Walk);
    assert_eq!(
        outcome,
        Transition {
            state: Walking,
            play: Some(PlayRequest { state: Walking, looping: true }),
            recovered: false,
        }
    );
    assert_eq!(outcome.play.unwrap().clip_path(), WALK_CLIP);
    assert_eq!(controller.state(), Walking);
}

#[test]
fn walking_then_walk_plays_nothing_more() {
    let mut controller = PlayerAnimationController::new(42);
    let mut plays = 0;
    for _ in 0..10 {
        let outcome = controller.transition(Walk);
        if outcome.play.is_some() {
            plays += 1;
        }
        assert_eq!(outcome.state, Walking);
    }
    assert_eq!(plays, 1);
    assert_eq!(controller.state(), Walking);
}

#[test]
fn jumping_absorbs_stop() {
    let mut controller = controller_at(Jumping);
    let outcome = controller.transition(Stop);
    assert_eq!(outcome, Transition { state: Jumping, play: None, recovered: false });
    assert_eq!(controller.state(), Jumping);
}

#[test]
fn jumping_absorbs_punch_and_jump() {
    for event in [Punch, Jump] {
        let mut controller = controller_at(Jumping);
        let outcome = controller.transition(event);
        assert_eq!(outcome, Transition { state: Jumping, play: None, recovered: false });
    }
}

#[test]
fn jumping_then_walk_lands_in_walking() {
    let mut controller = controller_at(Jumping);
    let outcome = controller.transition(Walk);
    assert_eq!(outcome.state, Walking);
    let request = outcome.play.unwrap();
    assert_eq!(request.clip_path(), WALK_CLIP);
    assert!(request.looping);
    assert_eq!(controller.state(), Walking);
}

#[test]
fn jumping_then_dash_lands_in_dashing() {
    let mut controller = controller_at(Jumping);
    let outcome = controller.transition(Dash);
    assert_eq!(
        outcome,
        Transition {
            state: Dashing,
            play: Some(PlayRequest { state: Dashing, looping: false }),
            recovered: false,
        }
    );
}

#[test]
fn punching_then_walk_loops_the_walk_clip() {
    let mut controller = controller_at(Punching);
    let outcome = controller.transition(Walk);
    assert_eq!(outcome.play, Some(PlayRequest { state: Walking, looping: true }));
}

#[test]
fn new_binding_is_idle_and_owes_the_idle_clip_once() {
    let controller = PlayerAnimationController::new(9);
    assert_eq!(controller.target_id(), 9);
    assert_eq!(controller.stored(), 0);
    assert_eq!(controller.state(), Idle);
    assert!(controller.is_intact());
    assert_eq!(controller.profile(), AnimationProfile { idle_looping: false });
    let request = controller.requested();
    assert_eq!(request, PlayRequest { state: Idle, looping: false });
    assert_eq!(request.clip_path(), "assets/mecha.glb/animations/idle_2.anim");
}

#[test]
fn looping_idle_profile_loops_idle_and_walk_only() {
    let profile = AnimationProfile { idle_looping: true };
    assert!(profile.clip_looping(Idle));
    assert!(profile.clip_looping(Walking));
    assert!(!profile.clip_looping(Dashing));
    assert!(!profile.clip_looping(Punching));
    assert!(!profile.clip_looping(Jumping));

    let controller = PlayerAnimationController::with_profile(3, profile);
    assert_eq!(controller.requested(), PlayRequest { state: Idle, looping: true });

    let mut walking = PlayerAnimationController::restore(3, Walking.to_u32(), profile);
    let outcome = walking.transition(Stop);
    assert_eq!(outcome.play, Some(PlayRequest { state: Idle, looping: true }));
}

#[test]
fn base_profile_loops_walk_only() {
    let profile = AnimationProfile::base();
    assert_eq!(profile, AnimationProfile { idle_looping: false });
    for state in STATES {
        assert_eq!(profile.clip_looping(state), state == Walking);
    }
}

#[test]
fn damaged_store_counts_as_idle() {
    for raw in [5, 6, 99, u32::MAX] {
        let mut controller = PlayerAnimationController::restore(1, raw, AnimationProfile::base());
        assert!(!controller.is_intact());
        assert_eq!(controller.state(), Idle);
        let outcome = controller.transition(Dash);
        assert_eq!(
            outcome,
            Transition {
                state: Dashing,
                play: Some(PlayRequest { state: Dashing, looping: false }),
                recovered: true,
            }
        );
        assert_eq!(controller.stored(), 2);
        assert!(controller.is_intact());
    }
}

#[test]
fn damaged_store_is_left_alone_by_a_self_transition() {
    let mut controller = PlayerAnimationController::restore(1, 99, AnimationProfile::base());
    let outcome = controller.transition(Stop);
    assert_eq!(outcome, Transition { state: Idle, play: None, recovered: true });
    assert_eq!(controller.stored(), 99);
    assert_eq!(controller.state(), Idle);
}

#[test]
fn codes_follow_declaration_order_and_decode_back() {
    assert_eq!(Idle.to_u32(), 0);
    assert_eq!(Walking.to_u32(), 1);
    assert_eq!(Dashing.to_u32(), 2);
    assert_eq!(Punching.to_u32(), 3);
    assert_eq!(Jumping.to_u32(), 4);
    for state in STATES {
        assert_eq!(PlayerAnimationState::from_u32(state.to_u32()), Some(state));
    }
    assert_eq!(PlayerAnimationState::from_u32(5), None);
    assert_eq!(PlayerAnimationState::from_u32(u32::MAX), None);
}

#[test]
fn integers_of_any_width_decode_alike() {
    for state in STATES {
        let code = state.to_u32();
        assert_eq!(PlayerAnimationState::from_u64(code as u64), Some(state));
        assert_eq!(PlayerAnimationState::from_i64(code as i64), Some(state));
        assert_eq!(PlayerAnimationState::from_u8(code as u8), Some(state));
        assert_eq!(PlayerAnimationState::from_i32(code as i32), Some(state));
    }
    assert_eq!(PlayerAnimationState::from_i64(-1), None);
    assert_eq!(PlayerAnimationState::from_i64(i64::MIN), None);
    assert_eq!(PlayerAnimationState::from_i64(5), None);
    assert_eq!(PlayerAnimationState::from_u64(5), None);
    assert_eq!(PlayerAnimationState::from_u64(u64::MAX), None);
    assert_eq!(PlayerAnimationState::from_u64(1 << 32), None);
}

#[test]
fn stored_codes_decode_to_their_states() {
    for state in STATES {
        let controller =
            PlayerAnimationController::restore(1, state.to_u32(), AnimationProfile::base());
        assert!(controller.is_intact());
        assert_eq!(controller.state(), state);
    }
}

#[test]
fn clip_paths_are_exact() {
    assert_eq!(lookup_clip_path(Idle), "assets/mecha.glb/animations/idle_2.anim");
    assert_eq!(lookup_clip_path(Walking), "assets/mecha.glb/animations/walk_5.anim");
    assert_eq!(lookup_clip_path(Dashing), "assets/mecha.glb/animations/dash_0.anim");
    assert_eq!(lookup_clip_path(Punching), "assets/mecha.glb/animations/punch_4.anim");
    assert_eq!(lookup_clip_path(Jumping), "assets/mecha.glb/animations/dash_0.anim");
}

#[test]
fn three_state_profile_stays_within_its_states() {
    for state in [Idle, Walking, Dashing] {
        assert_eq!(next_state(state, Stop), Idle);
        assert_eq!(next_state(state, Walk), Walking);
        assert_eq!(next_state(state, Dash), Dashing);
    }
}

#[test]
fn held_event_changes_state_at_most_once() {
    for state in STATES {
        for event in EVENTS {
            let once = next_state(state, event);
            assert_eq!(next_state(once, event), once);
        }
    }
}

#[test]
fn restore_keeps_target_and_profile_through_transitions() {
    let profile = AnimationProfile { idle_looping: true };
    let mut controller = PlayerAnimationController::restore(u128::MAX, 3, profile);
    assert_eq!(controller.state(), Punching);
    controller.transition(Jump);
    controller.transition(Stop);
    controller.transition(Dash);
    assert_eq!(controller.target_id(), u128::MAX);
    assert_eq!(controller.profile(), profile);
    assert_eq!(controller.state(), Dashing);
}
