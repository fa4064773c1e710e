//! A verified core for an interactive voice-assistant loop.
//!
//! The library owns the two pieces of the loop whose behaviour is worth
//! pinning down precisely: the recording-session controller (a start/stop
//! state machine plus the capture-buffer accumulator that the capture
//! thread fills) and the response chunker (a lossless, bounded-length
//! partition of the assistant's reply for sequential playback).  Device
//! I/O, network gateways and speech output live outside the library and
//! talk to it through plain values.

pub mod chunker;
pub mod completion;
pub mod errors;
pub mod iteration;
pub mod session;

use vstd::prelude::*;

verus! {

/// Number of audio samples in one capture frame, negotiated once at startup.
pub const FRAME_LENGTH: usize = 512;

/// Hard upper bound on the character length of one playback chunk.
pub const MAX_CHUNK_LEN: usize = 99;

} // verus!
