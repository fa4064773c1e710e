//! Error taxonomy for one loop iteration.
//!
//! Every failure is fatal to the current iteration and is reported with
//! enough context to tell the failing stage apart: capture, transcription,
//! completion, speech output, or the user-signal read.  No error is retried.

use vstd::prelude::*;

verus! {

/// A failure of the audio frame source: it would not start, a frame read
/// failed mid-session, or it would not stop.
#[derive(Clone, Copy, Debug, PartialEq, Eq, Structural)]
pub enum CaptureError {
    StartFailed,
    ReadFailed,
    StopFailed,
}

/// The transcription gateway rejected or failed on a finished buffer.
#[derive(Clone, Copy, Debug, PartialEq, Eq, Structural)]
pub struct TranscriptionError;

/// The completion gateway failed to produce a response.
#[derive(Clone, Copy, Debug, PartialEq, Eq, Structural)]
pub struct CompletionError;

/// The speech output gateway failed while speaking a chunk.
#[derive(Clone, Copy, Debug, PartialEq, Eq, Structural)]
pub struct SpeechError;

/// A malformed or failed read of the user's start/stop signal.
#[derive(Clone, Copy, Debug, PartialEq, Eq, Structural)]
pub struct SignalError;

/// The stage of an iteration at which a failure arose.
#[derive(Clone, Copy, Debug, PartialEq, Eq, Structural)]
pub enum Stage {
    Capture,
    Transcription,
    Completion,
    Speech,
    Signal,
}

/// A fatal error of one iteration, tagged with the failing stage.
#[derive(Clone, Copy, Debug, PartialEq, Eq, Structural)]
pub enum IterationError {
    Capture(CaptureError),
    Transcription(TranscriptionError),
    Completion(CompletionError),
    Speech(SpeechError),
    Signal(SignalError),
}

impl CaptureError {
    /// The report line for each device failure.
    pub open spec fn describe_spec(self) -> Seq<char> {
        match self {
            CaptureError::StartFailed => "capture error: the frame source failed to start"@,
            CaptureError::ReadFailed => "capture error: a frame read failed"@,
            CaptureError::StopFailed => "capture error: the frame source failed to stop"@,
        }
    }

    /// Renders the error as a message that names the capture stage.
    pub fn describe(&self) -> (r: String)
        ensures
            r@ == self.describe_spec(),
    {
        match self {
            CaptureError::StartFailed => "capture error: the frame source failed to start".to_owned(),
            CaptureError::ReadFailed => "capture error: a frame read failed".to_owned(),
            CaptureError::StopFailed => "capture error: the frame source failed to stop".to_owned(),
        }
    }
}

impl IterationError {
    /// The stage a given error belongs to.
    pub open spec fn stage_spec(self) -> Stage {
        match self {
            IterationError::Capture(_) => Stage::Capture,
            IterationError::Transcription(_) => Stage::Transcription,
            IterationError::Completion(_) => Stage::Completion,
            IterationError::Speech(_) => Stage::Speech,
            IterationError::Signal(_) => Stage::Signal,
        }
    }

    /// Returns the stage at which this iteration failed.
    pub fn stage(&self) -> (s: Stage)
        ensures
            s == self.stage_spec(),
    {
        match self {
            IterationError::Capture(_) => Stage::Capture,
            IterationError::Transcription(_) => Stage::Transcription,
            IterationError::Completion(_) => Stage::Completion,
            IterationError::Speech(_) => Stage::Speech,
            IterationError::Signal(_) => Stage::Signal,
        }
    }

    /// The report line for each failing stage.
    pub open spec fn describe_spec(self) -> Seq<char> {
        match self {
            IterationError::Capture(e) => e.describe_spec(),
            IterationError::Transcription(_) => "transcription error: no transcript was produced"@,
            IterationError::Completion(_) => "completion error: no response was produced"@,
            IterationError::Speech(_) => "speech error: a chunk could not be spoken"@,
            IterationError::Signal(_) => "signal error: the start/stop signal could not be read"@,
        }
    }

    /// Renders the error as a message that names the failing stage.
    pub fn describe(&self) -> (r: String)
        ensures
            r@ == self.describe_spec(),
    {
        match self {
            IterationError::Capture(e) => e.describe(),
            IterationError::Transcription(_) => "transcription error: no transcript was produced".to_owned(),
            IterationError::Completion(_) => "completion error: no response was produced".to_owned(),
            IterationError::Speech(_) => "speech error: a chunk could not be spoken".to_owned(),
            IterationError::Signal(_) => "signal error: the start/stop signal could not be read".to_owned(),
        }
    }
}

} // verus!
