//! The canonical transition table of the five-state profile.
//!
//! The table is total: each of the twenty-five pairs of a state and an event
//! has an entry. Four rows send every event to the state it asks for. The
//! `Jumping` row is sticky: only `Walk` and `Dash` leave it, and `Stop`,
//! `Punch` and `Jump` are absorbed.

use vstd::prelude::*;
use crate::state::PlayerAnimationEvent;
use crate::state::PlayerAnimationState;

verus! {

/// The row of the table for `current`: the next state under `Stop`, `Walk`,
/// `Dash`, `Punch` and `Jump`, in that order.
pub open spec fn table_row(current: PlayerAnimationState) -> Seq<PlayerAnimationState> {
    match current {
        PlayerAnimationState::Idle => seq![
            PlayerAnimationState::Idle,
            PlayerAnimationState::Walking,
            PlayerAnimationState::Dashing,
            PlayerAnimationState::Punching,
            PlayerAnimationState::Jumping,
        ],
        PlayerAnimationState::Walking => seq![
            PlayerAnimationState::Idle,
            PlayerAnimationState::Walking,
            PlayerAnimationState::Dashing,
            PlayerAnimationState::Punching,
            PlayerAnimationState::Jumping,
        ],
        PlayerAnimationState::Dashing => seq![
            PlayerAnimationState::Idle,
            PlayerAnimationState::Walking,
            PlayerAnimationState::Dashing,
            PlayerAnimationState::Punching,
            PlayerAnimationState::Jumping,
        ],
        PlayerAnimationState::Punching => seq![
            PlayerAnimationState::Idle,
            PlayerAnimationState::Walking,
            PlayerAnimationState::Dashing,
            PlayerAnimationState::Punching,
            PlayerAnimationState::Jumping,
        ],
        PlayerAnimationState::Jumping => seq![
            PlayerAnimationState::Jumping,
            PlayerAnimationState::Walking,
            PlayerAnimationState::Dashing,
            PlayerAnimationState::Jumping,
            PlayerAnimationState::Jumping,
        ],
    }
}

/// The entry of the table for `current` and `event`.
pub open spec fn tabulated(
    current: PlayerAnimationState,
    event: PlayerAnimationEvent,
) -> PlayerAnimationState {
    table_row(current)[event.column()]
}

/// Looks up the state that follows `current` under `event`.
pub fn next_state(current: PlayerAnimationState, event: PlayerAnimationEvent) -> (next:
    PlayerAnimationState)
    ensures
        next == tabulated(current, event),
{
    match (current, event) {
        (PlayerAnimationState::Idle, PlayerAnimationEvent::Stop) => PlayerAnimationState::Idle,
        (PlayerAnimationState::Idle, PlayerAnimationEvent::Walk) => PlayerAnimationState::Walking,
        (PlayerAnimationState::Idle, PlayerAnimationEvent::Dash) => PlayerAnimationState::Dashing,
        (PlayerAnimationState::Idle, PlayerAnimationEvent::Punch) => PlayerAnimationState::Punching,
        (PlayerAnimationState::Idle, PlayerAnimationEvent::Jump) => PlayerAnimationState::Jumping,
        (PlayerAnimationState::Walking, PlayerAnimationEvent::Stop) => PlayerAnimationState::Idle,
        (PlayerAnimationState::Walking, PlayerAnimationEvent::Walk) => {
            PlayerAnimationState::Walking
        },
        (PlayerAnimationState::Walking, PlayerAnimationEvent::Dash) => {
            PlayerAnimationState::Dashing
        },
        (PlayerAnimationState::Walking, PlayerAnimationEvent::Punch) => {
            PlayerAnimationState::Punching
        },
        (PlayerAnimationState::Walking, PlayerAnimationEvent::Jump) => {
            PlayerAnimationState::Jumping
        },
        (PlayerAnimationState::Dashing, PlayerAnimationEvent::Stop) => PlayerAnimationState::Idle,
        (PlayerAnimationState::Dashing, PlayerAnimationEvent::Walk) => {
            PlayerAnimationState::Walking
        },
        (PlayerAnimationState::Dashing, PlayerAnimationEvent::Dash) => {
            PlayerAnimationState::Dashing
        },
        (PlayerAnimationState::Dashing, PlayerAnimationEvent::Punch) => {
            PlayerAnimationState::Punching
        },
        (PlayerAnimationState::Dashing, PlayerAnimationEvent::Jump) => {
            PlayerAnimationState::Jumping
        },
        (PlayerAnimationState::Punching, PlayerAnimationEvent::Stop) => PlayerAnimationState::Idle,
        (PlayerAnimationState::Punching, PlayerAnimationEvent::Walk) => {
            PlayerAnimationState::Walking
        },
        (PlayerAnimationState::Punching, PlayerAnimationEvent::Dash) => {
            PlayerAnimationState::Dashing
        },
        (PlayerAnimationState::Punching, PlayerAnimationEvent::Punch) => {
            PlayerAnimationState::Punching
        },
        (PlayerAnimationState::Punching, PlayerAnimationEvent::Jump) => {
            PlayerAnimationState::Jumping
        },
        (PlayerAnimationState::Jumping, PlayerAnimationEvent::Stop) => {
            PlayerAnimationState::Jumping
        },
        (PlayerAnimationState::Jumping, PlayerAnimationEvent::Walk) => {
            PlayerAnimationState::Walking
        },
        (PlayerAnimationState::Jumping, PlayerAnimationEvent::Dash) => {
            PlayerAnimationState::Dashing
        },
        (PlayerAnimationState::Jumping, PlayerAnimationEvent::Punch) => {
            PlayerAnimationState::Jumping
        },
        (PlayerAnimationState::Jumping, PlayerAnimationEvent::Jump) => {
            PlayerAnimationState::Jumping
        },
    }
}

/// The table is exhaustive: every row has one entry for each event, so
/// every pair of a state and an event has a defined next state.
pub proof fn lemma_table_exhaustive(current: PlayerAnimationState, event: PlayerAnimationEvent)
    ensures
        table_row(current).len() == 5,
        0 <= event.column() < table_row(current).len(),
{
}

/// The table in words: an event leads to the state it asks for, except
/// that `Jumping` absorbs every event but `Walk` and `Dash`.
pub proof fn lemma_sticky_jump(current: PlayerAnimationState, event: PlayerAnimationEvent)
    ensures
        tabulated(current, event) == if current is Jumping && !(event is Walk || event is Dash) {
            PlayerAnimationState::Jumping
        } else {
            event.target()
        },
{
}

/// The three-state profile is a sub-table of the canonical one: from
/// `Idle`, `Walking` or `Dashing`, the events `Stop`, `Walk` and `Dash` lead
/// to the state they ask for, which is again one of the three.
pub proof fn lemma_basic_profile_closed(current: PlayerAnimationState, event: PlayerAnimationEvent)
    requires
        current.is_basic(),
        event.is_basic(),
    ensures
        tabulated(current, event) == event.target(),
        tabulated(current, event).is_basic(),
{
}

/// A pair is a self-transition exactly when the event asks for the current
/// state, or the current state is `Jumping` and absorbs the event.
pub proof fn lemma_self_transitions(current: PlayerAnimationState, event: PlayerAnimationEvent)
    ensures
        tabulated(current, event) == current <==> event.target() == current || (current is Jumping
            && (event is Stop || event is Punch)),
{
}

/// A held event settles after one step: the state that an event leads to
/// is left unchanged by the same event, so input that is held from step to
/// step causes at most one change of state.
pub proof fn lemma_held_event_settles(current: PlayerAnimationState, event: PlayerAnimationEvent)
    ensures
        tabulated(tabulated(current, event), event) == tabulated(current, event),
{
}

} // verus!
