use openhuman_meet::config::{
    default_auto_orchestrator_handoff, default_tinyhumans, MeetAgentConfig, MeetConfig,
    ProviderConfig,
};
use openhuman_meet::name_map::NameMap;

#[test]
fn default_disables_handoff() {
    let cfg = MeetConfig::default();
    assert!(
        !cfg.auto_orchestrator_handoff,
        "auto_orchestrator_handoff must default to false (privacy-conservative)"
    );
}

#[test]
fn default_helper_returns_false() {
    assert!(!default_auto_orchestrator_handoff());
}

#[test]
fn meet_agent_config_defaults_to_tinyhumans() {
    let cfg = MeetAgentConfig::default();
    assert_eq!(cfg.stt_provider, "tinyhumans");
    assert_eq!(cfg.llm_provider, "tinyhumans");
    assert_eq!(cfg.tts_provider, "tinyhumans");
    assert!(cfg.providers.is_empty());
}

#[test]
fn default_provider_name_is_tinyhumans() {
    assert_eq!(default_tinyhumans(), "tinyhumans");
}

#[test]
fn default_provider_settings_are_empty() {
    let p = ProviderConfig::default();
    assert!(p.api_key.is_none() && p.model.is_none() && p.base_url.is_none());
    assert!(p.voice_id.is_none() && p.stt_model.is_none());
    assert!(p.tts_voice.is_none() && p.tts_model.is_none());
}

#[test]
fn name_map_keeps_one_value_per_name() {
    let mut m: NameMap<u32> = NameMap::new();
    assert_eq!(m.insert("a".to_string(), 1), None);
    assert_eq!(m.insert("b".to_string(), 2), None);
    assert_eq!(m.insert("a".to_string(), 3), Some(1));
    assert_eq!(m.len(), 2);
    assert_eq!(m.get("a"), Some(&3));
    assert_eq!(m.get("c"), None);
    assert!(m.contains_key("b"));
    assert_eq!(m.remove("a"), Some(3));
    assert_eq!(m.remove("a"), None);
    assert_eq!(m.len(), 1);
    assert_eq!(m.get("b"), Some(&2));
    assert!(!m.is_empty());
    let copy = m.clone();
    assert_eq!(copy.get("b"), Some(&2));
    assert_eq!(m.into_entries(), vec![("b".to_string(), 2)]);
}
