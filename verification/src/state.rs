//! The discrete motion states of a character, the events that move it
//! between them, and the integer code under which a state is stored.

use vstd::prelude::*;

verus! {

/// The animation mode a character is in. Exactly one holds at any time.
#[derive(Debug, Clone, Copy, PartialEq, Eq, Hash, Structural)]
pub enum PlayerAnimationState {
    Idle,
    Walking,
    Dashing,
    Punching,
    Jumping,
}

/// A classification of one step's input. Events are consumed as they are
/// produced and never stored.
#[derive(Debug, Clone, Copy, PartialEq, Eq, Hash, Structural)]
pub enum PlayerAnimationEvent {
    Stop,
    Walk,
    Dash,
    Punch,
    Jump,
}

impl PlayerAnimationState {
    /// The integer under which the state is stored: its position in the
    /// declaration, counted from zero.
    pub open spec fn code(self) -> u32 {
        match self {
            PlayerAnimationState::Idle => 0,
            PlayerAnimationState::Walking => 1,
            PlayerAnimationState::Dashing => 2,
            PlayerAnimationState::Punching => 3,
            PlayerAnimationState::Jumping => 4,
        }
    }

    /// The state whose code is `raw`, if there is one.
    pub open spec fn decode(raw: int) -> Option<PlayerAnimationState> {
        if raw == 0 {
            Some(PlayerAnimationState::Idle)
        } else if raw == 1 {
            Some(PlayerAnimationState::Walking)
        } else if raw == 2 {
            Some(PlayerAnimationState::Dashing)
        } else if raw == 3 {
            Some(PlayerAnimationState::Punching)
        } else if raw == 4 {
            Some(PlayerAnimationState::Jumping)
        } else {
            None
        }
    }

    /// The state that a stored value stands for. A value that is no state's
    /// code stands for `Idle`, so that a damaged store never leaves a
    /// character without a state.
    pub open spec fn decode_or_idle(raw: u32) -> PlayerAnimationState {
        match Self::decode(raw as int) {
            Some(state) => state,
            None => PlayerAnimationState::Idle,
        }
    }

    /// Whether the state belongs to the three-state profile.
    pub open spec fn is_basic(self) -> bool {
        self is Idle || self is Walking || self is Dashing
    }

    /// Encodes the state for storage.
    pub fn to_u32(self) -> (raw: u32)
        ensures
            raw == self.code(),
    {
        match self {
            PlayerAnimationState::Idle => 0,
            PlayerAnimationState::Walking => 1,
            PlayerAnimationState::Dashing => 2,
            PlayerAnimationState::Punching => 3,
            PlayerAnimationState::Jumping => 4,
        }
    }
}

/// Conversion from integers, for callers that hold a state as a number:
/// an integer converts to the state whose code it is, and to `None` where
/// it is no state's code.
impl num::FromPrimitive for PlayerAnimationState {
    fn from_i64(n: i64) -> (decoded: Option<PlayerAnimationState>)
        ensures
            decoded == PlayerAnimationState::decode(n as int),
    {
        match n {
            0 => Some(PlayerAnimationState::Idle),
            1 => Some(PlayerAnimationState::Walking),
            2 => Some(PlayerAnimationState::Dashing),
            3 => Some(PlayerAnimationState::Punching),
            4 => Some(PlayerAnimationState::Jumping),
            _ => None,
        }
    }

    fn from_u64(n: u64) -> (decoded: Option<PlayerAnimationState>)
        ensures
            decoded == PlayerAnimationState::decode(n as int),
    {
        match n {
            0 => Some(PlayerAnimationState::Idle),
            1 => Some(PlayerAnimationState::Walking),
            2 => Some(PlayerAnimationState::Dashing),
            3 => Some(PlayerAnimationState::Punching),
            4 => Some(PlayerAnimationState::Jumping),
            _ => None,
        }
    }
}

/// Decodes a stored value by `num::FromPrimitive::from_u32`.
///
/// Taken on trust: that the trait's provided `from_u32` widens its argument
/// to `u64`, hands it to this type's `from_u64` above and returns the answer
/// as it is.
#[verifier::external_body]
pub(crate) fn from_stored(raw: u32) -> (decoded: Option<PlayerAnimationState>)
    ensures
        decoded == PlayerAnimationState::decode(raw as int),
{
    num::FromPrimitive::from_u32(raw)
}

impl PlayerAnimationEvent {
    /// The table column of the event: its position in the declaration.
    pub open spec fn column(self) -> int {
        match self {
            PlayerAnimationEvent::Stop => 0,
            PlayerAnimationEvent::Walk => 1,
            PlayerAnimationEvent::Dash => 2,
            PlayerAnimationEvent::Punch => 3,
            PlayerAnimationEvent::Jump => 4,
        }
    }

    /// The state that the event asks for.
    pub open spec fn target(self) -> PlayerAnimationState {
        match self {
            PlayerAnimationEvent::Stop => PlayerAnimationState::Idle,
            PlayerAnimationEvent::Walk => PlayerAnimationState::Walking,
            PlayerAnimationEvent::Dash => PlayerAnimationState::Dashing,
            PlayerAnimationEvent::Punch => PlayerAnimationState::Punching,
            PlayerAnimationEvent::Jump => PlayerAnimationState::Jumping,
        }
    }

    /// Whether the event belongs to the three-state profile.
    pub open spec fn is_basic(self) -> bool {
        self is Stop || self is Walk || self is Dash
    }
}

/// Encoding and decoding are inverse to each other: every state is found
/// again under its code, a value decodes only to the state whose code it
/// is, and the values that decode to nothing are those outside 0..=4.
pub proof fn lemma_code_roundtrip(state: PlayerAnimationState, raw: int)
    ensures
        PlayerAnimationState::decode(state.code() as int) == Some(state),
        PlayerAnimationState::decode(raw) == Some(state) <==> state.code() == raw,
        PlayerAnimationState::decode(raw) is None <==> !(0 <= raw <= 4),
        PlayerAnimationState::decode_or_idle(state.code()) == state,
{
}

} // verus!
