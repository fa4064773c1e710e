use voice_assistant::completion::build_prompt;
use voice_assistant::completion::default_params;

#[test]
fn the_prompt_is_prefix_transcript_suffix() {
    let p = build_prompt("how are you");
    assert_eq!(
        p,
        "The following is a conversation with a sarcastic AI assistant. \
         The assistant is helpful, creative, clever, and very friendly.\n\
         Human:how are you?\nAI:"
    );
}

#[test]
fn an_empty_transcript_still_gets_the_frame() {
    let p = build_prompt("");
    assert!(p.starts_with("The following is a conversation"));
    assert!(p.ends_with("Human:?\nAI:"));
}

#[test]
fn the_default_parameters_are_the_fixed_constants() {
    let p = default_params();
    assert_eq!(p.engine, "text-davinci-003");
    assert_eq!(p.max_tokens, 45);
    assert_eq!(p.stop, vec!["\n".to_string()]);
    assert_eq!(p.top_p_hundredths, 50);
    assert_eq!(p.temperature_hundredths, 90);
    assert_eq!(p.frequency_penalty_hundredths, 50);
}

#[test]
fn the_fractional_parameters_convert_to_their_float_values() {
    let p = default_params();
    assert_eq!(f64::from(p.top_p_hundredths) / 100.0, 0.5);
    assert_eq!(f64::from(p.temperature_hundredths) / 100.0, 0.9);
    assert_eq!(f64::from(p.frequency_penalty_hundredths) / 100.0, 0.5);
}
