//! Signal-processing core of a real-time audio spectrum visualizer.
//!
//! - [`scale`]: decibel and amplitude scaling of engine readings.
//! - [`smooth`]: exponential smoothing of successive frames.
//! - [`lifecycle`]: the session state machine and the controller that owns
//!   the session parameters.
//! - [`engine`]: the session-side state of one capture session, which turns
//!   each reading into the frame a consumer is shown, and the polling
//!   bridge's per-tick decision.
//! - [`bridge`]: the single-slot handoff cell between bridge and consumer.
//!
//! All real-valued quantities are fixed-point integers in millionths
//! (see [`scale::UNIT`]).
use vstd::prelude::*;

pub mod bridge;
pub mod engine;
pub mod lifecycle;
pub mod scale;
pub mod smooth;

verus! {

} // verus!
