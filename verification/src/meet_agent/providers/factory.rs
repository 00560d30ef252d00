//! Which providers are used: those of the tinyhumans backend, unless the
//! settings name others that can be set up.

use crate::config::MeetAgentConfig;
use crate::meet_agent::providers::gemini_llm::{self, GeminiLlm, GeminiLlmView};
use crate::meet_agent::providers::google_stt::{self, GoogleStt, GoogleSttView};
use crate::meet_agent::providers::google_tts::{self, GoogleTts, GoogleTtsView};
use crate::meet_agent::providers::noop::{NoopLlm, NoopStt, NoopTts};
use crate::meet_agent::providers::tinyhumans::{TinyhumansLlm, TinyhumansStt, TinyhumansTts};
use crate::text::{self, str_eq};
use vstd::prelude::*;

verus! {

/// A provider of speech to text.
pub enum SttProvider {
    Noop(NoopStt),
    Google(GoogleStt),
    Tinyhumans(TinyhumansStt),
}

/// Which [`SttProvider`] it is, and how it is set up.
pub enum SttView {
    Noop,
    Google(GoogleSttView),
    Tinyhumans,
}

impl View for SttProvider {
    type V = SttView;

    open spec fn view(&self) -> SttView {
        match *self {
            SttProvider::Noop(_) => SttView::Noop,
            SttProvider::Google(p) => SttView::Google(p@),
            SttProvider::Tinyhumans(_) => SttView::Tinyhumans,
        }
    }
}

/// A provider of replies.
pub enum LlmProvider {
    Noop(NoopLlm),
    Gemini(GeminiLlm),
    Tinyhumans(TinyhumansLlm),
}

/// Which [`LlmProvider`] it is, and how it is set up.
pub enum LlmView {
    Noop,
    Gemini(GeminiLlmView),
    Tinyhumans,
}

impl View for LlmProvider {
    type V = LlmView;

    open spec fn view(&self) -> LlmView {
        match *self {
            LlmProvider::Noop(_) => LlmView::Noop,
            LlmProvider::Gemini(p) => LlmView::Gemini(p@),
            LlmProvider::Tinyhumans(_) => LlmView::Tinyhumans,
        }
    }
}

/// A provider of text to speech.
pub enum TtsProvider {
    Noop(NoopTts),
    Google(GoogleTts),
    Tinyhumans(TinyhumansTts),
}

/// Which [`TtsProvider`] it is, and how it is set up.
pub enum TtsView {
    Noop,
    Google(GoogleTtsView),
    Tinyhumans,
}

impl View for TtsProvider {
    type V = TtsView;

    open spec fn view(&self) -> TtsView {
        match *self {
            TtsProvider::Noop(_) => TtsView::Noop,
            TtsProvider::Google(p) => TtsView::Google(p@),
            TtsProvider::Tinyhumans(_) => TtsView::Tinyhumans,
        }
    }
}

/// What the environment says that the providers look for.
pub struct ProviderEnv {
    /// Under [`google_stt::ENV_API_KEY`].
    pub google_api_key: Option<String>,
    /// Under [`gemini_llm::ENV_API_KEY`].
    pub gemini_api_key: Option<String>,
}

/// The provider of speech to text that the settings give. A name that is not
/// known, and a provider that cannot be set up, give the tinyhumans backend.
pub open spec fn stt_of(config: MeetAgentConfig, env: ProviderEnv) -> SttView {
    if config.stt_provider@ == "noop"@ {
        SttView::Noop
    } else if config.stt_provider@ == "google"@ {
        match google_stt::configured(
            config.settings("google"@),
            text::opt_text(env.google_api_key),
        ) {
            Ok(p) => SttView::Google(p),
            Err(_) => SttView::Tinyhumans,
        }
    } else {
        SttView::Tinyhumans
    }
}

/// The provider of replies that the settings give. A name that is not known,
/// and a provider that cannot be set up, give the tinyhumans backend.
pub open spec fn llm_of(config: MeetAgentConfig, env: ProviderEnv) -> LlmView {
    if config.llm_provider@ == "noop"@ {
        LlmView::Noop
    } else if config.llm_provider@ == "gemini"@ {
        match gemini_llm::configured(
            config.settings("gemini"@),
            text::opt_text(env.gemini_api_key),
        ) {
            Ok(p) => LlmView::Gemini(p),
            Err(_) => LlmView::Tinyhumans,
        }
    } else {
        LlmView::Tinyhumans
    }
}

/// The provider of text to speech that the settings give. A name that is not
/// known, and a provider that cannot be set up, give the tinyhumans backend.
pub open spec fn tts_of(config: MeetAgentConfig, env: ProviderEnv) -> TtsView {
    if config.tts_provider@ == "noop"@ {
        TtsView::Noop
    } else if config.tts_provider@ == "google"@ {
        match google_tts::configured(
            config.settings("google"@),
            text::opt_text(env.google_api_key),
        ) {
            Ok(p) => TtsView::Google(p),
            Err(_) => TtsView::Tinyhumans,
        }
    } else {
        TtsView::Tinyhumans
    }
}

/// Whether a name, where there is one, is the one of the providers that do
/// nothing.
pub open spec fn is_noop(name: Option<&str>) -> bool {
    name is Some && (name->0)@ == "noop"@
}

/// The providers of the tinyhumans backend.
pub fn create_default_providers() -> (r: (SttProvider, LlmProvider, TtsProvider))
    ensures
        r.0@ == SttView::Tinyhumans,
        r.1@ == LlmView::Tinyhumans,
        r.2@ == TtsView::Tinyhumans,
{
    (
        SttProvider::Tinyhumans(TinyhumansStt),
        LlmProvider::Tinyhumans(TinyhumansLlm),
        TtsProvider::Tinyhumans(TinyhumansTts),
    )
}

/// Providers that do nothing, for tests.
pub fn create_noop_providers() -> (r: (SttProvider, LlmProvider, TtsProvider))
    ensures
        r.0@ == SttView::Noop,
        r.1@ == LlmView::Noop,
        r.2@ == TtsView::Noop,
{
    (SttProvider::Noop(NoopStt), LlmProvider::Noop(NoopLlm), TtsProvider::Noop(NoopTts))
}

fn google_key(env: &ProviderEnv) -> (r: Option<String>)
    ensures
        text::opt_text(r) == text::opt_text(env.google_api_key),
{
    match &env.google_api_key {
        Some(k) => Some(k.clone()),
        None => None,
    }
}

fn gemini_key(env: &ProviderEnv) -> (r: Option<String>)
    ensures
        text::opt_text(r) == text::opt_text(env.gemini_api_key),
{
    match &env.gemini_api_key {
        Some(k) => Some(k.clone()),
        None => None,
    }
}

/// The providers that the settings name, each on its own. Names are matched
/// with case: `noop` for providers that do nothing, `google` for Google's
/// speech services, `gemini` for replies by Gemini, and `tinyhumans` for the
/// backend, which also stands in for a name that is not known and for a
/// provider that cannot be set up.
pub fn create_providers_from_config(config: &MeetAgentConfig, env: &ProviderEnv) -> (r: (
    SttProvider,
    LlmProvider,
    TtsProvider,
))
    ensures
        r.0@ == stt_of(*config, *env),
        r.1@ == llm_of(*config, *env),
        r.2@ == tts_of(*config, *env),
{
    let stt: SttProvider = if str_eq(config.stt_provider.as_str(), "noop") {
        SttProvider::Noop(NoopStt)
    } else if str_eq(config.stt_provider.as_str(), "google") {
        match GoogleStt::from_config(config, google_key(env)) {
            Ok(p) => SttProvider::Google(p),
            Err(_) => SttProvider::Tinyhumans(TinyhumansStt),
        }
    } else {
        SttProvider::Tinyhumans(TinyhumansStt)
    };
    let llm: LlmProvider = if str_eq(config.llm_provider.as_str(), "noop") {
        LlmProvider::Noop(NoopLlm)
    } else if str_eq(config.llm_provider.as_str(), "gemini") {
        match GeminiLlm::from_config(config, gemini_key(env)) {
            Ok(p) => LlmProvider::Gemini(p),
            Err(_) => LlmProvider::Tinyhumans(TinyhumansLlm),
        }
    } else {
        LlmProvider::Tinyhumans(TinyhumansLlm)
    };
    let tts: TtsProvider = if str_eq(config.tts_provider.as_str(), "noop") {
        TtsProvider::Noop(NoopTts)
    } else if str_eq(config.tts_provider.as_str(), "google") {
        match GoogleTts::from_config(config, google_key(env)) {
            Ok(p) => TtsProvider::Google(p),
            Err(_) => TtsProvider::Tinyhumans(TinyhumansTts),
        }
    } else {
        TtsProvider::Tinyhumans(TinyhumansTts)
    };
    (stt, llm, tts)
}

/// The providers that the settings name, or those of the tinyhumans backend where
/// the settings cannot be loaded.
pub fn load_providers(config: &Result<MeetAgentConfig, String>, env: &ProviderEnv) -> (r: (
    SttProvider,
    LlmProvider,
    TtsProvider,
))
    ensures
        match *config {
            Ok(c) => r.0@ == stt_of(c, *env) && r.1@ == llm_of(c, *env) && r.2@ == tts_of(c, *env),
            Err(_) => r.0@ == SttView::Tinyhumans && r.1@ == LlmView::Tinyhumans && r.2@
                == TtsView::Tinyhumans,
        },
{
    match config {
        Ok(c) => create_providers_from_config(c, env),
        Err(_) => create_default_providers(),
    }
}

/// Providers by name alone, where there are no settings: `noop`, or else the
/// tinyhumans backend, since the other providers need a key from the settings.
pub fn create_providers_by_name(
    stt_name: Option<&str>,
    llm_name: Option<&str>,
    tts_name: Option<&str>,
) -> (r: (SttProvider, LlmProvider, TtsProvider))
    ensures
        r.0@ == if is_noop(stt_name) {
            SttView::Noop
        } else {
            SttView::Tinyhumans
        },
        r.0@ is Noop <==> stt_name is Some && (stt_name->0)@ == "noop"@,
        r.0@ is Noop || r.0@ is Tinyhumans,
        r.1@ == if is_noop(llm_name) {
            LlmView::Noop
        } else {
            LlmView::Tinyhumans
        },
        r.1@ is Noop <==> llm_name is Some && (llm_name->0)@ == "noop"@,
        r.1@ is Noop || r.1@ is Tinyhumans,
        r.2@ == if is_noop(tts_name) {
            TtsView::Noop
        } else {
            TtsView::Tinyhumans
        },
        r.2@ is Noop <==> tts_name is Some && (tts_name->0)@ == "noop"@,
        r.2@ is Noop || r.2@ is Tinyhumans,
{
    let stt: SttProvider = match stt_name {
        Some(name) => if str_eq(name, "noop") {
            SttProvider::Noop(NoopStt)
        } else {
            SttProvider::Tinyhumans(TinyhumansStt)
        },
        None => SttProvider::Tinyhumans(TinyhumansStt),
    };
    let llm: LlmProvider = match llm_name {
        Some(name) => if str_eq(name, "noop") {
            LlmProvider::Noop(NoopLlm)
        } else {
            LlmProvider::Tinyhumans(TinyhumansLlm)
        },
        None => LlmProvider::Tinyhumans(TinyhumansLlm),
    };
    let tts: TtsProvider = match tts_name {
        Some(name) => if str_eq(name, "noop") {
            TtsProvider::Noop(NoopTts)
        } else {
            TtsProvider::Tinyhumans(TinyhumansTts)
        },
        None => TtsProvider::Tinyhumans(TinyhumansTts),
    };
    (stt, llm, tts)
}

/// A name that is none of the known ones stands for the tinyhumans backend.
pub proof fn law_unknown_names_fall_back(config: MeetAgentConfig, env: ProviderEnv)
    ensures
        config.stt_provider@ != "noop"@ && config.stt_provider@ != "google"@ ==> stt_of(config, env)
            == SttView::Tinyhumans,
        config.llm_provider@ != "noop"@ && config.llm_provider@ != "gemini"@ ==> llm_of(config, env)
            == LlmView::Tinyhumans,
        config.tts_provider@ != "noop"@ && config.tts_provider@ != "google"@ ==> tts_of(config, env)
            == TtsView::Tinyhumans,
{
}

/// Without a key, in the settings or in the environment, a provider that needs
/// one gives way to the tinyhumans backend.
pub proof fn law_no_key_falls_back(config: MeetAgentConfig, env: ProviderEnv)
    requires
        env.google_api_key is None,
        env.gemini_api_key is None,
        config.settings("google"@) is None || config.settings("google"@)->0.api_key is None,
        config.settings("gemini"@) is None || config.settings("gemini"@)->0.api_key is None,
    ensures
        config.stt_provider@ != "noop"@ ==> stt_of(config, env) == SttView::Tinyhumans,
        config.llm_provider@ != "noop"@ ==> llm_of(config, env) == LlmView::Tinyhumans,
        config.tts_provider@ != "noop"@ ==> tts_of(config, env) == TtsView::Tinyhumans,
{
}

/// Each provider is chosen on its own: settings that agree on what one choice
/// depends on give the same provider there, whatever else they say.
pub proof fn law_choices_are_independent(
    a: MeetAgentConfig,
    b: MeetAgentConfig,
    env: ProviderEnv,
    other: ProviderEnv,
)
    ensures
        a.stt_provider@ == b.stt_provider@ && a.settings("google"@) == b.settings("google"@)
            && env.google_api_key == other.google_api_key ==> stt_of(a, env) == stt_of(b, other),
        a.llm_provider@ == b.llm_provider@ && a.settings("gemini"@) == b.settings("gemini"@)
            && env.gemini_api_key == other.gemini_api_key ==> llm_of(a, env) == llm_of(b, other),
        a.tts_provider@ == b.tts_provider@ && a.settings("google"@) == b.settings("google"@)
            && env.google_api_key == other.google_api_key ==> tts_of(a, env) == tts_of(b, other),
{
}

/// The settings that are used where none are given name the tinyhumans backend
/// throughout, whatever keys the environment holds.
pub proof fn law_default_is_tinyhumans(config: MeetAgentConfig, env: ProviderEnv)
    requires
        config.stt_provider@ == "tinyhumans"@,
        config.llm_provider@ == "tinyhumans"@,
        config.tts_provider@ == "tinyhumans"@,
    ensures
        stt_of(config, env) == SttView::Tinyhumans,
        llm_of(config, env) == LlmView::Tinyhumans,
        tts_of(config, env) == TtsView::Tinyhumans,
{
    reveal_strlit("tinyhumans");
    reveal_strlit("noop");
    reveal_strlit("google");
    reveal_strlit("gemini");
    assert("tinyhumans"@.len() == 10 && "noop"@.len() == 4);
    assert("google"@.len() == 6 && "gemini"@.len() == 6);
}

/// A provider that the settings name is the one that is used: "noop" gives the one
/// that does nothing, and "google" or "gemini" the one that its settings and its own
/// key of the environment set up, where they do.
pub proof fn law_named_provider_is_used(config: MeetAgentConfig, env: ProviderEnv)
    ensures
        config.stt_provider@ == "noop"@ ==> stt_of(config, env) == SttView::Noop,
        config.llm_provider@ == "noop"@ ==> llm_of(config, env) == LlmView::Noop,
        config.tts_provider@ == "noop"@ ==> tts_of(config, env) == TtsView::Noop,
        config.stt_provider@ == "google"@ ==> match google_stt::configured(
            config.settings("google"@),
            text::opt_text(env.google_api_key),
        ) {
            Ok(p) => stt_of(config, env) == SttView::Google(p),
            Err(_) => stt_of(config, env) == SttView::Tinyhumans,
        },
        config.llm_provider@ == "gemini"@ ==> match gemini_llm::configured(
            config.settings("gemini"@),
            text::opt_text(env.gemini_api_key),
        ) {
            Ok(p) => llm_of(config, env) == LlmView::Gemini(p),
            Err(_) => llm_of(config, env) == LlmView::Tinyhumans,
        },
        config.tts_provider@ == "google"@ ==> match google_tts::configured(
            config.settings("google"@),
            text::opt_text(env.google_api_key),
        ) {
            Ok(p) => tts_of(config, env) == TtsView::Google(p),
            Err(_) => tts_of(config, env) == TtsView::Tinyhumans,
        },
        forall|name: Seq<char>| #[trigger]
            config.settings(name) == if config.providers@.contains_key(name) {
                Some(config.providers@[name])
            } else {
                None
            },
{
    reveal_strlit("noop");
    reveal_strlit("google");
    reveal_strlit("gemini");
    assert("noop"@.len() == 4);
    assert("google"@.len() == 6 && "gemini"@.len() == 6);
}

/// A provider is modelled as the one that it is.
pub proof fn law_model_is_what_is_held(stt: SttProvider, llm: LlmProvider, tts: TtsProvider)
    ensures
        stt is Noop <==> stt@ is Noop,
        stt is Tinyhumans <==> stt@ is Tinyhumans,
        stt matches SttProvider::Google(p) ==> stt@ == SttView::Google(p@),
        llm is Noop <==> llm@ is Noop,
        llm is Tinyhumans <==> llm@ is Tinyhumans,
        llm matches LlmProvider::Gemini(p) ==> llm@ == LlmView::Gemini(p@),
        tts is Noop <==> tts@ is Noop,
        tts is Tinyhumans <==> tts@ is Tinyhumans,
        tts matches TtsProvider::Google(p) ==> tts@ == TtsView::Google(p@),
{
}

} // verus!
