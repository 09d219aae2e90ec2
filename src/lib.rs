//! Board support for the bluepill (STM32F103) and a two-axis stepper motion
//! engine.
//!
//! The motion engine splits each waypoint delta into equal sub-moves
//! (`planner`), hands each to the pending-step counters of both axes
//! (`counters`), which tasks at different priorities share under a
//! priority ceiling (`gate`), and drains them one step per tick through a
//! phase sequencer per axis (`sequencer`, `executor`).
//!
//! The board modules compute what the register-level drivers write: clock
//! speeds and setups (`frequency`), timer periods (`timer`), pin
//! configuration, levels and PWM settings (`pin`, `led`) and baud-rate
//! dividers (`serial`).

pub mod counters;
pub mod executor;
pub mod gate;
pub mod planner;
pub mod sequencer;

pub mod frequency;
pub mod led;
mod narrowing;
pub mod pin;
pub mod serial;
pub mod timer;
