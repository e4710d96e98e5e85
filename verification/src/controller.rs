//! The binding between a character's stored motion state and the
//! animation player that shows it.
//!
//! The controller decides; it performs no playback itself. Each transition
//! reports the one play call that the caller owes the animation player, or
//! that none is owed.

use vstd::prelude::*;
use crate::clip::AnimationProfile;
use crate::clip::PlayRequest;
use crate::state::from_stored;
use crate::state::PlayerAnimationEvent;
use crate::state::PlayerAnimationState;
use crate::table::next_state;
use crate::table::tabulated;

verus! {

/// What a controller holds, as plain values.
pub struct ControllerView {
    /// The playback target that the binding drives.
    pub target: u128,
    /// The stored state, as an integer that may have been damaged.
    pub stored: u32,
    /// The playback options in force.
    pub profile: AnimationProfile,
}

impl ControllerView {
    /// The state that the stored value stands for.
    pub open spec fn state(self) -> PlayerAnimationState {
        PlayerAnimationState::decode_or_idle(self.stored)
    }

    /// Whether the stored value is the code of a state.
    pub open spec fn intact(self) -> bool {
        PlayerAnimationState::decode(self.stored as int) is Some
    }

    /// The play call that matches the stored state.
    pub open spec fn requested(self) -> PlayRequest {
        self.profile.request_for(self.state())
    }

    /// The state that `event` leads to: the table's entry for the current
    /// state and the event.
    pub open spec fn next(self, event: PlayerAnimationEvent) -> PlayerAnimationState {
        tabulated(self.state(), event)
    }

    /// The binding after `event`. A self-transition leaves it as it is,
    /// stored value and all; a change of state stores the new state's code.
    pub open spec fn after(self, event: PlayerAnimationEvent) -> ControllerView {
        if self.next(event) == self.state() {
            self
        } else {
            ControllerView {
                target: self.target,
                stored: self.next(event).code(),
                profile: self.profile,
            }
        }
    }

    /// The play call that `event` makes due: none on a self-transition, the
    /// call for the new state's clip on a change of state.
    pub open spec fn owed(self, event: PlayerAnimationEvent) -> Option<PlayRequest> {
        if self.next(event) == self.state() {
            None
        } else {
            Some(self.profile.request_for(self.next(event)))
        }
    }

    /// The binding after a run of events, taken in order.
    pub open spec fn after_all(self, events: Seq<PlayerAnimationEvent>) -> ControllerView
        decreases events.len(),
    {
        if events.len() == 0 {
            self
        } else {
            self.after_all(events.drop_last()).after(events.last())
        }
    }

    /// The play call most recently due after a run of events, where the
    /// call that matches the stored state was made before the run.
    pub open spec fn last_owed(self, events: Seq<PlayerAnimationEvent>) -> PlayRequest
        decreases events.len(),
    {
        if events.len() == 0 {
            self.requested()
        } else {
            match self.after_all(events.drop_last()).owed(events.last()) {
                Some(request) => request,
                None => self.last_owed(events.drop_last()),
            }
        }
    }
}

/// The outcome of one transition.
#[derive(Debug, Clone, Copy, PartialEq, Eq, Structural)]
pub struct Transition {
    /// The state after the transition.
    pub state: PlayerAnimationState,
    /// The play call owed to the animation player: one where the state
    /// changed, none where it did not.
    pub play: Option<PlayRequest>,
    /// Whether the stored value could not be decoded and `Idle` took its
    /// place.
    pub recovered: bool,
}

/// One character's animation binding: its playback target, its stored
/// state and its profile.
#[derive(Debug, Clone, Copy)]
pub struct PlayerAnimationController {
    target: u128,
    stored: u32,
    profile: AnimationProfile,
}

impl View for PlayerAnimationController {
    type V = ControllerView;

    closed spec fn view(&self) -> ControllerView {
        ControllerView { target: self.target, stored: self.stored, profile: self.profile }
    }
}

impl PlayerAnimationController {
    /// Binds `target_id` in the base profile. The character starts in
    /// `Idle`; the caller owes the player the call that `requested` returns.
    pub fn new(target_id: u128) -> (controller: PlayerAnimationController)
        ensures
            controller@ == (ControllerView {
                target: target_id,
                stored: PlayerAnimationState::Idle.code(),
                profile: AnimationProfile { idle_looping: false },
            }),
            controller@.state() == PlayerAnimationState::Idle,
            controller@.requested() == (PlayRequest {
                state: PlayerAnimationState::Idle,
                looping: false,
            }),
    {
        PlayerAnimationController {
            target: target_id,
            stored: PlayerAnimationState::Idle.to_u32(),
            profile: AnimationProfile::base(),
        }
    }

    /// Binds `target_id` under `profile`, starting in `Idle`.
    pub fn with_profile(target_id: u128, profile: AnimationProfile) -> (controller:
        PlayerAnimationController)
        ensures
            controller@ == (ControllerView {
                target: target_id,
                stored: PlayerAnimationState::Idle.code(),
                profile,
            }),
            controller@.state() == PlayerAnimationState::Idle,
            controller@.requested() == (PlayRequest {
                state: PlayerAnimationState::Idle,
                looping: profile.idle_looping,
            }),
    {
        PlayerAnimationController {
            target: target_id,
            stored: PlayerAnimationState::Idle.to_u32(),
            profile,
        }
    }

    /// Rebuilds a binding from a value read back from storage. The value is
    /// taken as it is, whether or not it is the code of a state.
    pub fn restore(target_id: u128, stored: u32, profile: AnimationProfile) -> (controller:
        PlayerAnimationController)
        ensures
            controller@ == (ControllerView { target: target_id, stored, profile }),
    {
        PlayerAnimationController { target: target_id, stored, profile }
    }

    /// The playback target that the binding drives.
    pub fn target_id(&self) -> (target: u128)
        ensures
            target == self@.target,
    {
        self.target
    }

    /// The stored value, to be written back to storage.
    pub fn stored(&self) -> (stored: u32)
        ensures
            stored == self@.stored,
    {
        self.stored
    }

    /// The playback options in force.
    pub fn profile(&self) -> (profile: AnimationProfile)
        ensures
            profile == self@.profile,
    {
        self.profile
    }

    /// Whether the stored value is the code of a state.
    pub fn is_intact(&self) -> (intact: bool)
        ensures
            intact == self@.intact(),
    {
        from_stored(self.stored).is_some()
    }

    /// The current state. A stored value that cannot be decoded counts as
    /// `Idle`.
    pub fn state(&self) -> (state: PlayerAnimationState)
        ensures
            state == self@.state(),
    {
        match from_stored(self.stored) {
            Some(state) => state,
            None => PlayerAnimationState::Idle,
        }
    }

    /// The play call that matches the current state: what the animation
    /// player was last asked for.
    pub fn requested(&self) -> (request: PlayRequest)
        ensures
            request == self@.requested(),
    {
        let state = self.state();
        PlayRequest { state, looping: self.profile.clip_looping(state) }
    }

    /// Applies `event` to the current state.
    ///
    /// The next state is the table's entry for the current state and the
    /// event, and it is the state of the binding afterwards. Where it
    /// equals the current state, nothing is played and the binding is left
    /// as it was. Where it differs, the new state is stored and exactly one
    /// play call is owed, for the new state's clip. A stored value that
    /// cannot be decoded is reported and treated as `Idle`.
    pub fn transition(&mut self, event: PlayerAnimationEvent) -> (outcome: Transition)
        ensures
            outcome.state == old(self)@.next(event),
            outcome.play == old(self)@.owed(event),
            outcome.recovered == !old(self)@.intact(),
            final(self)@ == old(self)@.after(event),
            final(self)@.state() == outcome.state,
            outcome.state == old(self)@.state() ==> outcome.play is None && final(self)@ == old(
                self,
            )@,
            outcome.play matches Some(request) ==> request == final(self)@.requested(),
    {
        let decoded = from_stored(self.stored);
        let recovered = decoded.is_none();
        let current = match decoded {
            Some(state) => state,
            None => PlayerAnimationState::Idle,
        };
        let next = next_state(current, event);
        if current == next {
            return Transition { state: next, play: None, recovered };
        }
        let request = PlayRequest { state: next, looping: self.profile.clip_looping(next) };
        self.stored = next.to_u32();
        Transition { state: next, play: Some(request), recovered }
    }
}

/// One step keeps the player and the stored state together: the state
/// after an event is the one the table gives, a self-transition owes no
/// call and changes nothing, and a call that is owed is the one that
/// matches the state then stored.
pub proof fn lemma_step_keeps_pace(view: ControllerView, event: PlayerAnimationEvent)
    ensures
        view.after(event).state() == view.next(event),
        view.next(event) == view.state() ==> view.owed(event) is None && view.after(event) == view,
        view.next(event) != view.state() ==> view.owed(event) == Some(
            view.after(event).requested(),
        ),
        view.after(event).target == view.target,
        view.after(event).profile == view.profile,
{
}

/// The player never drifts from the stored state: after any run of
/// events, the play call most recently due is the one that matches the
/// stored state.
pub proof fn lemma_no_drift(view: ControllerView, events: Seq<PlayerAnimationEvent>)
    ensures
        view.last_owed(events) == view.after_all(events).requested(),
    decreases events.len(),
{
    if events.len() > 0 {
        lemma_no_drift(view, events.drop_last());
        lemma_step_keeps_pace(view.after_all(events.drop_last()), events.last());
    }
}

} // verus!
