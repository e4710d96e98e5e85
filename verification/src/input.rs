//! Decoding of one step's raw input: the movement intent held on the keys,
//! the motion event it amounts to, and the action flags that a client
//! latches from taps and clicks.

use vstd::prelude::*;
use crate::state::PlayerAnimationEvent;

verus! {

/// The number of steps after a forward tap within which a second tap
/// starts a dash.
pub const DASH_WINDOW: u32 = 50;

/// What one axis amounts to when its two opposite keys are read together:
/// each held key counts one step its way, so both held cancel out.
pub open spec fn axis(positive: bool, negative: bool) -> int {
    (if positive { 1int } else { 0int }) - (if negative { 1int } else { 0int })
}

/// The movement asked for in one step. Each axis is -1, 0 or 1.
#[derive(Debug, Clone, Copy, PartialEq, Eq, Structural)]
pub struct MovementIntent {
    /// Along the character's heading: 1 forward, -1 back.
    pub forward: i8,
    /// Across the character's heading: 1 right, -1 left.
    pub strafe: i8,
}

impl MovementIntent {
    /// Whether both axes are within -1..=1.
    pub open spec fn wf(self) -> bool {
        -1 <= self.forward <= 1 && -1 <= self.strafe <= 1
    }

    /// Whether the intent asks for no movement.
    pub open spec fn is_still(self) -> bool {
        self.forward == 0 && self.strafe == 0
    }

    /// The motion event that the intent amounts to: `Stop` where it asks
    /// for no movement, `Walk` otherwise.
    pub open spec fn motion_event(self) -> PlayerAnimationEvent {
        if self.is_still() {
            PlayerAnimationEvent::Stop
        } else {
            PlayerAnimationEvent::Walk
        }
    }

    /// Decodes the four movement keys. Keys are read as held, not as
    /// pressed: a held key counts in every step.
    pub fn from_keys(forward: bool, back: bool, left: bool, right: bool) -> (intent:
        MovementIntent)
        ensures
            intent.forward == axis(forward, back),
            intent.strafe == axis(right, left),
            intent.wf(),
    {
        let mut along: i8 = 0;
        let mut across: i8 = 0;
        if forward {
            along = along + 1;
        }
        if back {
            along = along - 1;
        }
        if left {
            across = across - 1;
        }
        if right {
            across = across + 1;
        }
        MovementIntent { forward: along, strafe: across }
    }

    /// Classifies the intent as a motion event.
    pub fn event(&self) -> (event: PlayerAnimationEvent)
        ensures
            event == self.motion_event(),
    {
        if self.forward == 0 && self.strafe == 0 {
            PlayerAnimationEvent::Stop
        } else {
            PlayerAnimationEvent::Walk
        }
    }
}

/// What changed on keys and buttons in one step, as far as the action
/// flags depend on it.
#[derive(Debug, Clone, Copy, PartialEq, Eq, Structural)]
pub struct FrameInput {
    /// The forward key went down in this step.
    pub forward_tapped: bool,
    /// The jump key went down in this step.
    pub jump_tapped: bool,
    /// The punch button went down in this step.
    pub punch_clicked: bool,
    /// At least one key is held.
    pub any_key_held: bool,
}

/// The action flags that a client reports with its movement.
#[derive(Debug, Clone, Copy, PartialEq, Eq, Structural)]
pub struct ActionFlags {
    pub is_dashing: bool,
    pub is_jumping: bool,
    pub is_punching: bool,
}

/// What an input tracker holds, as plain values.
pub struct TrackerView {
    /// Steps left in which a forward tap starts a dash.
    pub dash_timer: u32,
    /// The flags as last reported.
    pub flags: ActionFlags,
}

impl TrackerView {
    /// The dash timer after one step has passed, before taps are looked at.
    pub open spec fn ticked(self) -> int {
        if self.dash_timer > 0 {
            self.dash_timer - 1
        } else {
            0
        }
    }

    /// Whether a forward tap in this step completes a double tap.
    pub open spec fn completes_dash(self, frame: FrameInput) -> bool {
        frame.forward_tapped && self.ticked() > 0
    }

    /// The tracker after one step with `frame`.
    ///
    /// A forward tap while the timer runs starts a dash and stops the
    /// timer; a forward tap while it does not run starts the timer. Dashing
    /// ends when no key is held. Jumping and punching, once set, stay set.
    pub open spec fn advanced(self, frame: FrameInput) -> TrackerView {
        TrackerView {
            dash_timer: if !frame.forward_tapped {
                self.ticked() as u32
            } else if self.ticked() > 0 {
                0
            } else {
                DASH_WINDOW
            },
            flags: ActionFlags {
                is_dashing: frame.any_key_held && (self.flags.is_dashing || self.completes_dash(
                    frame,
                )),
                is_jumping: self.flags.is_jumping || frame.jump_tapped,
                is_punching: self.flags.is_punching || frame.punch_clicked,
            },
        }
    }
}

/// Follows taps and clicks from step to step and latches the action flags.
#[derive(Debug, Clone, Copy)]
pub struct InputTracker {
    dash_timer: u32,
    is_dashing: bool,
    is_jumping: bool,
    is_punching: bool,
}

impl View for InputTracker {
    type V = TrackerView;

    closed spec fn view(&self) -> TrackerView {
        TrackerView {
            dash_timer: self.dash_timer,
            flags: ActionFlags {
                is_dashing: self.is_dashing,
                is_jumping: self.is_jumping,
                is_punching: self.is_punching,
            },
        }
    }
}

impl InputTracker {
    /// A tracker with the timer stopped and no flag set.
    pub fn new() -> (tracker: InputTracker)
        ensures
            tracker@ == (TrackerView {
                dash_timer: 0,
                flags: ActionFlags { is_dashing: false, is_jumping: false, is_punching: false },
            }),
    {
        InputTracker { dash_timer: 0, is_dashing: false, is_jumping: false, is_punching: false }
    }

    /// The flags as last reported.
    pub fn flags(&self) -> (flags: ActionFlags)
        ensures
            flags == self@.flags,
    {
        ActionFlags {
            is_dashing: self.is_dashing,
            is_jumping: self.is_jumping,
            is_punching: self.is_punching,
        }
    }

    /// Steps left in which a forward tap starts a dash.
    pub fn dash_timer(&self) -> (steps: u32)
        ensures
            steps == self@.dash_timer,
    {
        self.dash_timer
    }

    /// Takes in one step's input and returns the flags to report.
    pub fn update(&mut self, frame: FrameInput) -> (flags: ActionFlags)
        ensures
            final(self)@ == old(self)@.advanced(frame),
            flags == final(self)@.flags,
            old(self)@.dash_timer <= DASH_WINDOW ==> final(self)@.dash_timer <= DASH_WINDOW,
    {
        if self.dash_timer > 0 {
            self.dash_timer = self.dash_timer - 1;
        }
        if frame.forward_tapped {
            if self.dash_timer > 0 {
                self.is_dashing = true;
                self.dash_timer = 0;
            } else {
                self.dash_timer = DASH_WINDOW;
            }
        }
        if !frame.any_key_held {
            self.is_dashing = false;
        }
        if frame.punch_clicked {
            self.is_punching = true;
        }
        if frame.jump_tapped {
            self.is_jumping = true;
        }
        self.flags()
    }
}

} // verus!
