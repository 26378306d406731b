//! Control logic of a vacuum-tube amplifier simulator: the line protocol
//! of its control socket, the parameters that the socket shares with the
//! audio engine, the engine's decisions, audio-device bookkeeping, circuit
//! node identifiers and the error type.
use vstd::prelude::*;

pub mod engine;
pub mod error;
pub mod laws;
pub mod monitor;
pub mod node;
pub mod params;
pub mod protocol;
pub mod text;

pub use error::DanjiError;
pub use node::{DiodeInstance, NodeId, PentodeInstance, TriodeInstance};

verus! {

} // verus!
