//! Prompt construction and the fixed parameters of the completion gateway.
//!
//! The gateway itself is an external collaborator; the library only fixes
//! what is sent to it: the exact prompt built around the transcript and the
//! constant sampling parameters.  Fractional parameters are carried in
//! hundredths so that their values are exact plain integers; the caller
//! divides by one hundred at the gateway boundary.

use vstd::prelude::*;

verus! {

/// The text placed before the transcript in every prompt.
pub open spec fn prompt_prefix() -> Seq<char> {
    "The following is a conversation with a sarcastic AI assistant. The assistant is helpful, creative, clever, and very friendly.\nHuman:"@
}

/// The text placed after the transcript in every prompt.
pub open spec fn prompt_suffix() -> Seq<char> {
    "?\nAI:"@
}

/// Builds the completion prompt: the fixed prefix, then the transcript
/// verbatim, then the fixed suffix — nothing else.
pub fn build_prompt(transcript: &str) -> (r: String)
    ensures
        r@ == prompt_prefix() + transcript@ + prompt_suffix(),
{
    let mut r =
        "The following is a conversation with a sarcastic AI assistant. The assistant is helpful, creative, clever, and very friendly.\nHuman:".to_owned();
    r.append(transcript);
    r.append("?\nAI:");
    r
}

/// The fixed parameters of one completion request.  `top_p`, `temperature`
/// and `frequency_penalty` are in hundredths of their fractional values.
pub struct CompletionParams {
    /// Model identifier sent to the gateway.
    pub engine: String,
    /// Hard cap on the length of the generated output.
    pub max_tokens: u32,
    /// Sequences at which generation stops.
    pub stop: Vec<String>,
    /// Nucleus-sampling threshold, in hundredths (at most 100).
    pub top_p_hundredths: u8,
    /// Sampling temperature, in hundredths (at most 200).
    pub temperature_hundredths: u8,
    /// Repetition suppression, in hundredths (at most 200).
    pub frequency_penalty_hundredths: u8,
}

impl CompletionParams {
    /// The documented ranges of the gateway's sampling parameters.
    pub open spec fn valid(self) -> bool {
        &&& self.max_tokens > 0
        &&& self.top_p_hundredths <= 100
        &&& self.temperature_hundredths <= 200
        &&& self.frequency_penalty_hundredths <= 200
    }
}

/// The one parameter set this assistant uses, fixed at startup: the
/// `text-davinci-003` engine, at most 45 output tokens, generation stopped
/// at a newline, `top_p` 0.50, `temperature` 0.90, `frequency_penalty`
/// 0.50.
pub fn default_params() -> (p: CompletionParams)
    ensures
        p.valid(),
        p.engine@ == "text-davinci-003"@,
        p.max_tokens == 45,
        p.stop@.len() == 1,
        p.stop@[0]@ == "\n"@,
        p.top_p_hundredths == 50,
        p.temperature_hundredths == 90,
        p.frequency_penalty_hundredths == 50,
{
    let mut stop: Vec<String> = Vec::new();
    stop.push("\n".to_owned());
    CompletionParams {
        engine: "text-davinci-003".to_owned(),
        max_tokens: 45,
        stop,
        top_p_hundredths: 50,
        temperature_hundredths: 90,
        frequency_penalty_hundredths: 50,
    }
}

} // verus!
