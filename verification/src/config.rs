//! Settings of the Google Meet integration.

use crate::name_map::NameMap;
use vstd::prelude::*;

verus! {

/// Settings of the Google Meet integration.
#[derive(Debug, Clone)]
pub struct MeetConfig {
    /// When `true`, the orchestrator agent receives the transcript of every
    /// completed Google Meet call as a fresh chat thread and is invited to
    /// take proactive actions on it. When `false`, which is the default,
    /// transcripts still land in memory but nothing is handed over.
    pub auto_orchestrator_handoff: bool,
    /// Which providers the meeting agent uses.
    pub meet_agent: MeetAgentConfig,
}

/// Whether transcripts are handed over where nothing is said about it: never
/// without the user's consent.
pub fn default_auto_orchestrator_handoff() -> (r: bool)
    ensures
        !r,
{
    false
}

/// Which providers the meeting agent uses for speech to text, replies and text
/// to speech, each chosen on its own, and their settings.
#[derive(Debug, Clone)]
pub struct MeetAgentConfig {
    pub stt_provider: String,
    pub llm_provider: String,
    pub tts_provider: String,
    pub providers: NameMap<ProviderConfig>,
}

/// The provider that is used where none is named.
pub fn default_tinyhumans() -> (r: String)
    ensures
        r@ == "tinyhumans"@,
{
    "tinyhumans".to_string()
}

/// The settings of one provider. A provider reads what it needs and ignores the
/// rest.
#[derive(Debug, Clone)]
pub struct ProviderConfig {
    pub api_key: Option<String>,
    pub model: Option<String>,
    pub base_url: Option<String>,
    pub voice_id: Option<String>,
    pub stt_model: Option<String>,
    pub tts_voice: Option<String>,
    pub tts_model: Option<String>,
}

impl MeetAgentConfig {
    /// The settings of the provider called `name`, where there are any.
    pub open spec fn settings(self, name: Seq<char>) -> Option<ProviderConfig> {
        if self.providers@.contains_key(name) {
            Some(self.providers@[name])
        } else {
            None
        }
    }
}

impl Default for MeetConfig {
    fn default() -> (r: Self)
        ensures
            !r.auto_orchestrator_handoff,
            r.meet_agent.stt_provider@ == "tinyhumans"@,
            r.meet_agent.llm_provider@ == "tinyhumans"@,
            r.meet_agent.tts_provider@ == "tinyhumans"@,
            r.meet_agent.providers@ == Map::<Seq<char>, ProviderConfig>::empty(),
    {
        MeetConfig {
            auto_orchestrator_handoff: default_auto_orchestrator_handoff(),
            meet_agent: MeetAgentConfig::default(),
        }
    }
}

impl Default for MeetAgentConfig {
    fn default() -> (r: Self)
        ensures
            r.stt_provider@ == "tinyhumans"@,
            r.llm_provider@ == "tinyhumans"@,
            r.tts_provider@ == "tinyhumans"@,
            r.providers@ == Map::<Seq<char>, ProviderConfig>::empty(),
    {
        MeetAgentConfig {
            stt_provider: default_tinyhumans(),
            llm_provider: default_tinyhumans(),
            tts_provider: default_tinyhumans(),
            providers: NameMap::new(),
        }
    }
}

impl Default for ProviderConfig {
    fn default() -> (r: Self)
        ensures
            r.api_key is None,
            r.model is None,
            r.base_url is None,
            r.voice_id is None,
            r.stt_model is None,
            r.tts_voice is None,
            r.tts_model is None,
    {
        ProviderConfig {
            api_key: None,
            model: None,
            base_url: None,
            voice_id: None,
            stt_model: None,
            tts_voice: None,
            tts_model: None,
        }
    }
}

} // verus!
