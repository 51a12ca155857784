//! A single-track audio looper engine: record a loop, play it back, overdub
//! onto it and undo the last overdub, one sample per call.
//!
//! [`Looper`] holds a primary buffer, which is read and written, and for
//! undo a shadow buffer of the same length, which keeps the loop as it was
//! before the last overdub. Undo exchanges the roles of the two; no sample
//! is ever copied.
//! [`Looper::process`] handles one audio frame, [`Looper::update`] one
//! request to change state.
//!
//! The engine is generic in the sample type and is handed the function that
//! sums two samples, so the same verified logic serves any sample format.
//!
//! - `state`: the controller states and the legal transitions.
//! - `model`: the engine as a mathematical value, and the meaning of both
//!   operations on it.
//! - `engine`: the executable engine, verified against the model.
//! - `laws`: theorems about one request and about one frame.
//! - `runs`: theorems about several frames in a row.
//! - `control`: the one-button policy that drives the engine on a pedal.

pub mod control;
pub mod engine;
pub mod laws;
pub mod model;
pub mod runs;
pub mod state;

pub use engine::{Buffer, Looper};
pub use state::{LooperError, LooperState};
