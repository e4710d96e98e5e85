//! Per-player character control: the animation state machine that decides
//! which clip a character plays, and the decoding of raw input into the
//! events that drive it.

pub mod clip;
pub mod controller;
pub mod input;
pub mod state;
pub mod table;
