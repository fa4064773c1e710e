//! The interaction loop's decision core.
//!
//! One iteration runs capture, transcription, completion and speech in that
//! order, failing fast at the first error.  The gateways themselves are
//! external; the loop driver performs each [`IterationAction`], hands the
//! outcome back as an [`IterationEvent`], and [`step`] decides what happens
//! next.  The contract pins every transition: a buffer reaches the
//! transcription gateway only when capture succeeded in full, the prompt
//! sent for completion is exactly the one built from the transcript, and
//! the chunks are spoken in order, one speech call per chunk.

use vstd::prelude::*;

use crate::MAX_CHUNK_LEN;
use crate::chunker::chunk;
use crate::chunker::chunk_spec;
use crate::completion::build_prompt;
use crate::completion::prompt_prefix;
use crate::completion::prompt_suffix;
use crate::errors::CaptureError;
use crate::errors::CompletionError;
use crate::errors::IterationError;
use crate::errors::SpeechError;
use crate::errors::Stage;
use crate::errors::TranscriptionError;

verus! {

/// Where one iteration stands between two gateway calls.
pub enum IterationState {
    /// The session is recording; the next event is the capture outcome.
    AwaitCapture,
    /// The buffer went to the transcription gateway.
    AwaitTranscript,
    /// The prompt went to the completion gateway.
    AwaitCompletion,
    /// The response is chunked; chunks before `next` have been sent to the
    /// speech gateway.
    Speaking { chunks: Vec<String>, next: usize },
    /// The iteration completed.
    Done,
    /// The iteration failed at the given stage.
    Failed { stage: Stage },
}

/// The outcome of the action the driver just performed.
pub enum IterationEvent {
    CaptureResult(Result<Vec<i16>, CaptureError>),
    TranscriptResult(Result<String, TranscriptionError>),
    CompletionResult(Result<String, CompletionError>),
    SpeechResult(Result<(), SpeechError>),
}

/// What the driver must do next.
pub enum IterationAction {
    /// Send this finished buffer to the transcription gateway.
    Transcribe(Vec<i16>),
    /// Send this prompt to the completion gateway.
    Complete(String),
    /// Speak this one chunk, blocking until spoken.
    Speak(String),
    /// Report this error to the user; the iteration is over.
    Report(IterationError),
    /// The iteration is over; wait for the next start signal.
    Finish,
}

/// Which event a state is waiting for.
pub open spec fn accepts(state: IterationState, event: IterationEvent) -> bool {
    match state {
        IterationState::AwaitCapture => event is CaptureResult,
        IterationState::AwaitTranscript => event is TranscriptResult,
        IterationState::AwaitCompletion => event is CompletionResult,
        IterationState::Speaking { .. } => event is SpeechResult,
        IterationState::Done => false,
        IterationState::Failed { .. } => false,
    }
}

/// The states `step` produces are well formed: while speaking, the spoken
/// prefix never outruns the chunk list.
pub open spec fn state_wf(state: IterationState) -> bool {
    match state {
        IterationState::Speaking { chunks, next } => next <= chunks.len(),
        _ => true,
    }
}

/// Advances one iteration by one gateway outcome.  Success moves to the
/// next stage with exactly the value the stage owes — the whole buffer, the
/// prompt built from the transcript, each chunk in order — and any failure
/// moves to `Failed` at that stage with a report and nothing else: in
/// particular, no buffer is ever sent for transcription unless capture
/// succeeded.
pub fn step(state: IterationState, event: IterationEvent) -> (r: (IterationState, IterationAction))
    requires
        accepts(state, event),
        state_wf(state),
    ensures
        state_wf(r.0),
        (event matches IterationEvent::CaptureResult(res) ==> match res {
            Ok(audio) => {
                &&& r.0 is AwaitTranscript
                &&& r.1 matches IterationAction::Transcribe(a) && a@ == audio@
            },
            Err(e) => {
                &&& r.0 matches IterationState::Failed { stage } && stage == Stage::Capture
                &&& r.1 == IterationAction::Report(IterationError::Capture(e))
            },
        }),
        (event matches IterationEvent::TranscriptResult(res) ==> match res {
            Ok(transcript) => {
                &&& r.0 is AwaitCompletion
                &&& r.1 matches IterationAction::Complete(p) && p@ == prompt_prefix()
                    + transcript@ + prompt_suffix()
            },
            Err(e) => {
                &&& r.0 matches IterationState::Failed { stage } && stage == Stage::Transcription
                &&& r.1 == IterationAction::Report(IterationError::Transcription(e))
            },
        }),
        (event matches IterationEvent::CompletionResult(res) ==> match res {
            Ok(response) => {
                let cs = chunk_spec(response@, MAX_CHUNK_LEN as int);
                if cs.len() == 0 {
                    r.0 is Done && r.1 is Finish
                } else {
                    &&& r.0 matches IterationState::Speaking { chunks, next }
                        && chunks.deep_view() == cs && next == 1
                    &&& r.1 matches IterationAction::Speak(c) && c@ == cs[0]
                }
            },
            Err(e) => {
                &&& r.0 matches IterationState::Failed { stage } && stage == Stage::Completion
                &&& r.1 == IterationAction::Report(IterationError::Completion(e))
            },
        }),
        (event matches IterationEvent::SpeechResult(res) ==> match res {
            Ok(()) => {
                let prev_chunks = state->Speaking_chunks;
                let prev_next = state->Speaking_next as int;
                if prev_next < prev_chunks.len() {
                    &&& r.0 matches IterationState::Speaking { chunks, next }
                        && chunks.deep_view() == prev_chunks.deep_view() && next == prev_next + 1
                    &&& r.1 matches IterationAction::Speak(c) && c@ == prev_chunks.deep_view()[
                        prev_next]
                } else {
                    r.0 is Done && r.1 is Finish
                }
            },
            Err(e) => {
                &&& r.0 matches IterationState::Failed { stage } && stage == Stage::Speech
                &&& r.1 == IterationAction::Report(IterationError::Speech(e))
            },
        }),
{
    match event {
        IterationEvent::CaptureResult(res) => match res {
            Ok(audio) => (IterationState::AwaitTranscript, IterationAction::Transcribe(audio)),
            Err(e) => (
                IterationState::Failed { stage: Stage::Capture },
                IterationAction::Report(IterationError::Capture(e)),
            ),
        },
        IterationEvent::TranscriptResult(res) => match res {
            Ok(transcript) => {
                let prompt = build_prompt(transcript.as_str());
                (IterationState::AwaitCompletion, IterationAction::Complete(prompt))
            },
            Err(e) => (
                IterationState::Failed { stage: Stage::Transcription },
                IterationAction::Report(IterationError::Transcription(e)),
            ),
        },
        IterationEvent::CompletionResult(res) => match res {
            Ok(response) => {
                let chunks = chunk(response.as_str(), MAX_CHUNK_LEN);
                if chunks.len() == 0 {
                    (IterationState::Done, IterationAction::Finish)
                } else {
                    let first = chunks[0].clone();
                    (
                        IterationState::Speaking { chunks, next: 1 },
                        IterationAction::Speak(first),
                    )
                }
            },
            Err(e) => (
                IterationState::Failed { stage: Stage::Completion },
                IterationAction::Report(IterationError::Completion(e)),
            ),
        },
        IterationEvent::SpeechResult(res) => match res {
            Ok(()) => match state {
                IterationState::Speaking { chunks, next } => {
                    if next < chunks.len() {
                        let c = chunks[next].clone();
                        (
                            IterationState::Speaking { chunks, next: next + 1 },
                            IterationAction::Speak(c),
                        )
                    } else {
                        (IterationState::Done, IterationAction::Finish)
                    }
                },
                _ => (IterationState::Done, IterationAction::Finish),
            },
            Err(e) => (
                IterationState::Failed { stage: Stage::Speech },
                IterationAction::Report(IterationError::Speech(e)),
            ),
        },
    }
}

} // verus!
