//! Decision logic of a capture organiser for a recording host: which folder a
//! capture belongs to, when an unattended screenshot is due, and how a stalled
//! replay buffer is brought back. Every function here works on plain values;
//! the caller performs the operating-system and host calls.

pub mod error;
pub mod idle;
pub mod paths;
pub mod replay;
pub mod router;
mod text;
pub mod window;
