//! Providers that do nothing: no transcript, no reply, no speech.

use crate::meet_agent::providers::ConversationTurn;
use crate::pcm;
use crate::text;
use vstd::prelude::*;

verus! {

/// Speech to text that hears nothing.
#[derive(Debug, Clone, Copy)]
pub struct NoopStt;

impl NoopStt {
    /// An empty transcript, whatever was said.
    pub fn transcribe(&self, _pcm: &[i16], _sample_rate: u32) -> (r: Result<String, String>)
        ensures
            text::text_result(r) == Ok::<Seq<char>, Seq<char>>(Seq::empty()),
    {
        Ok(String::new())
    }
}

/// A language model that keeps silent.
#[derive(Debug, Clone, Copy)]
pub struct NoopLlm;

impl NoopLlm {
    /// An empty reply, whatever was asked.
    pub fn reply(
        &self,
        _prompt: &str,
        _history: &[ConversationTurn],
        _system_prompt: &str,
        _max_tokens: u32,
    ) -> (r: Result<String, String>)
        ensures
            text::text_result(r) == Ok::<Seq<char>, Seq<char>>(Seq::empty()),
    {
        Ok(String::new())
    }
}

/// Text to speech that says nothing.
#[derive(Debug, Clone, Copy)]
pub struct NoopTts;

impl NoopTts {
    /// No samples, whatever the text.
    pub fn synthesize(&self, _text: &str, _sample_rate: u32) -> (r: Result<Vec<i16>, String>)
        ensures
            pcm::pcm_result(r) == Ok::<Seq<i16>, Seq<char>>(Seq::empty()),
    {
        Ok(Vec::new())
    }
}

} // verus!
