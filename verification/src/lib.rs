//! Core of an interval-training countdown timer.
//!
//! The library owns the round state machine (`BoxingTimer`), its
//! configuration value (`BoxingRounds`), the bell mute model
//! (`BoxingBell`), and the display formatting helpers. Everything here
//! is plain in-memory computation with verified contracts; rendering,
//! audio playback and URL access live in the surrounding application.

pub mod boxing_bell;
pub mod boxing_rounds;
pub mod boxing_timer;
pub mod display;
pub mod parse;
pub mod state;

pub use boxing_bell::{BellMsg, BoxingBell};
pub use boxing_rounds::BoxingRounds;
pub use boxing_timer::{BoxingTimer, Msg};
pub use state::State;
