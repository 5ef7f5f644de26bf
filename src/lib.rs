//! A bridge between a controlling parent process and one child process.
//!
//! The parent describes a command over a binary framed protocol; the bridge
//! launches it, relays its standard streams as frames and reports how it ended.
//! The verified parts are the frame codec, the accumulation of the launch
//! description and the state machine that decides, event by event, what the
//! bridge does while the child runs.
use vstd::prelude::*;

pub mod codec;
pub mod session;
pub mod bridge;

verus! {

} // verus!
