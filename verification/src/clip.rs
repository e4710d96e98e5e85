//! Which clip a state plays, and whether it loops.

use vstd::prelude::*;
use crate::state::PlayerAnimationState;

verus! {

/// The asset path of the clip that animates `state`. `Jumping` has no clip
/// of its own and shares the dash clip.
pub open spec fn clip_path(state: PlayerAnimationState) -> Seq<char> {
    match state {
        PlayerAnimationState::Idle => "assets/mecha.glb/animations/idle_2.anim"@,
        PlayerAnimationState::Walking => "assets/mecha.glb/animations/walk_5.anim"@,
        PlayerAnimationState::Dashing => "assets/mecha.glb/animations/dash_0.anim"@,
        PlayerAnimationState::Punching => "assets/mecha.glb/animations/punch_4.anim"@,
        PlayerAnimationState::Jumping => "assets/mecha.glb/animations/dash_0.anim"@,
    }
}

/// Looks up the asset path of the clip that animates `animation_state`.
pub fn lookup_clip_path(animation_state: PlayerAnimationState) -> (path: &'static str)
    ensures
        path@ == clip_path(animation_state),
{
    match animation_state {
        PlayerAnimationState::Idle => "assets/mecha.glb/animations/idle_2.anim",
        PlayerAnimationState::Walking => "assets/mecha.glb/animations/walk_5.anim",
        PlayerAnimationState::Dashing => "assets/mecha.glb/animations/dash_0.anim",
        PlayerAnimationState::Punching => "assets/mecha.glb/animations/punch_4.anim",
        PlayerAnimationState::Jumping => "assets/mecha.glb/animations/dash_0.anim",
    }
}

/// The playback options that differ between profiles.
#[derive(Debug, Clone, Copy, PartialEq, Eq, Structural)]
pub struct AnimationProfile {
    /// Whether the idle clip repeats. The base profile plays it once.
    pub idle_looping: bool,
}

impl AnimationProfile {
    /// Whether the clip of `state` repeats: the walk clip always does, the
    /// idle clip where the profile says so, and no other.
    pub open spec fn loops(self, state: PlayerAnimationState) -> bool {
        state is Walking || (state is Idle && self.idle_looping)
    }

    /// The base profile, in which only the walk clip loops.
    pub fn base() -> (profile: AnimationProfile)
        ensures
            profile == (AnimationProfile { idle_looping: false }),
    {
        AnimationProfile { idle_looping: false }
    }

    /// Whether the clip of `state` repeats under this profile.
    pub fn clip_looping(&self, state: PlayerAnimationState) -> (looping: bool)
        ensures
            looping == self.loops(state),
    {
        match state {
            PlayerAnimationState::Walking => true,
            PlayerAnimationState::Idle => self.idle_looping,
            _ => false,
        }
    }

    /// The play call that puts the playback target into `state`.
    pub open spec fn request_for(self, state: PlayerAnimationState) -> PlayRequest {
        PlayRequest { state, looping: self.loops(state) }
    }
}

/// One call owed to the animation player: play the clip of `state`, looping
/// or not.
#[derive(Debug, Clone, Copy, PartialEq, Eq, Structural)]
pub struct PlayRequest {
    /// The state whose clip is to be played.
    pub state: PlayerAnimationState,
    /// Whether the clip repeats.
    pub looping: bool,
}

impl PlayRequest {
    /// The asset path of the clip to play.
    pub fn clip_path(&self) -> (path: &'static str)
        ensures
            path@ == clip_path(self.state),
    {
        lookup_clip_path(self.state)
    }
}

} // verus!
