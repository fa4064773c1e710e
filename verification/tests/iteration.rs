use voice_assistant::completion::build_prompt;
use voice_assistant::errors::CaptureError;
use voice_assistant::errors::CompletionError;
use voice_assistant::errors::IterationError;
use voice_assistant::errors::Stage;
use voice_assistant::iteration::IterationAction;
use voice_assistant::iteration::IterationEvent;
use voice_assistant::iteration::IterationState;
use voice_assistant::iteration::step;

/// Drives one whole iteration against stub gateways, as the loop driver
/// would, and reports what was called with what.
struct DriverLog {
    transcribe_calls: usize,
    complete_calls: usize,
    spoken: Vec<String>,
    reported: Vec<IterationError>,
}

fn drive(
    capture: Result<Vec<i16>, CaptureError>,
    transcript: Result<String, ()>,
    response: Result<String, ()>,
) -> DriverLog {
    let mut log = DriverLog {
        transcribe_calls: 0,
        complete_calls: 0,
        spoken: Vec::new(),
        reported: Vec::new(),
    };
    let mut state = IterationState::AwaitCapture;
    let mut event = IterationEvent::CaptureResult(capture);
    loop {
        let (next_state, action) = step(state, event);
        state = next_state;
        event = match action {
            IterationAction::Transcribe(_audio) => {
                log.transcribe_calls += 1;
                match &transcript {
                    Ok(t) => IterationEvent::TranscriptResult(Ok(t.clone())),
                    Err(()) => IterationEvent::TranscriptResult(Err(
                        voice_assistant::errors::TranscriptionError,
                    )),
                }
            }
            IterationAction::Complete(_prompt) => {
                log.complete_calls += 1;
                match &response {
                    Ok(r) => IterationEvent::CompletionResult(Ok(r.clone())),
                    Err(()) => IterationEvent::CompletionResult(Err(CompletionError)),
                }
            }
            IterationAction::Speak(chunk) => {
                log.spoken.push(chunk);
                IterationEvent::SpeechResult(Ok(()))
            }
            IterationAction::Report(e) => {
                log.reported.push(e);
                return log;
            }
            IterationAction::Finish => {
                return log;
            }
        };
    }
}

#[test]
fn a_failed_start_aborts_before_transcription() {
    let log = drive(
        Err(CaptureError::StartFailed),
        Ok("unused".to_string()),
        Ok("unused".to_string()),
    );
    assert_eq!(log.transcribe_calls, 0);
    assert_eq!(log.complete_calls, 0);
    assert_eq!(log.spoken.len(), 0);
    assert_eq!(log.reported, vec![IterationError::Capture(CaptureError::StartFailed)]);
    assert_eq!(log.reported[0].stage(), Stage::Capture);
}

#[test]
fn an_empty_response_is_never_spoken() {
    let log = drive(Ok(vec![1, 2, 3]), Ok("hello".to_string()), Ok(String::new()));
    assert_eq!(log.transcribe_calls, 1);
    assert_eq!(log.complete_calls, 1);
    assert_eq!(log.spoken.len(), 0);
    assert_eq!(log.reported.len(), 0);
}

#[test]
fn a_long_response_is_spoken_in_order_in_three_chunks() {
    let response: String = std::iter::repeat("abcde").take(50).collect();
    let log = drive(Ok(vec![0; 512]), Ok("hi".to_string()), Ok(response.clone()));
    assert_eq!(log.spoken.len(), 3);
    let lengths: Vec<usize> = log.spoken.iter().map(|c| c.chars().count()).collect();
    assert_eq!(lengths, vec![99, 99, 52]);
    assert_eq!(log.spoken.concat(), response);
    assert_eq!(log.reported.len(), 0);
}

#[test]
fn a_successful_capture_hands_the_whole_buffer_to_transcription() {
    let (state, action) = step(
        IterationState::AwaitCapture,
        IterationEvent::CaptureResult(Ok(vec![1, 2, 3, 4, 5, 6, 7, 8])),
    );
    assert!(matches!(state, IterationState::AwaitTranscript));
    match action {
        IterationAction::Transcribe(audio) => assert_eq!(audio, vec![1, 2, 3, 4, 5, 6, 7, 8]),
        _ => panic!("expected a transcription request"),
    }
}

#[test]
fn the_prompt_wraps_the_transcript_verbatim() {
    let (state, action) = step(
        IterationState::AwaitTranscript,
        IterationEvent::TranscriptResult(Ok("what time is it".to_string())),
    );
    assert!(matches!(state, IterationState::AwaitCompletion));
    match action {
        IterationAction::Complete(prompt) => {
            assert_eq!(prompt, build_prompt("what time is it"));
            assert_eq!(
                prompt,
                "The following is a conversation with a sarcastic AI assistant. \
                 The assistant is helpful, creative, clever, and very friendly.\n\
                 Human:what time is it?\nAI:"
            );
        }
        _ => panic!("expected a completion request"),
    }
}

#[test]
fn a_failed_transcription_aborts_before_completion() {
    let log = drive(
        Ok(vec![1, 2, 3]),
        Err(()),
        Ok("unused".to_string()),
    );
    assert_eq!(log.transcribe_calls, 1);
    assert_eq!(log.complete_calls, 0);
    assert_eq!(log.spoken.len(), 0);
    assert_eq!(log.reported[0].stage(), Stage::Transcription);
}

#[test]
fn a_failed_completion_aborts_before_speech() {
    let log = drive(Ok(vec![1, 2, 3]), Ok("hello".to_string()), Err(()));
    assert_eq!(log.spoken.len(), 0);
    assert_eq!(log.reported[0].stage(), Stage::Completion);
}

#[test]
fn a_speech_failure_is_reported_as_such() {
    let response: String = std::iter::repeat("x").take(120).collect();
    let (state, first) = step(
        IterationState::AwaitCompletion,
        IterationEvent::CompletionResult(Ok(response)),
    );
    assert!(matches!(first, IterationAction::Speak(_)));
    let (state, action) = step(
        state,
        IterationEvent::SpeechResult(Err(voice_assistant::errors::SpeechError)),
    );
    assert!(matches!(state, IterationState::Failed { stage: Stage::Speech }));
    match action {
        IterationAction::Report(e) => assert_eq!(e.stage(), Stage::Speech),
        _ => panic!("expected a report"),
    }
}
