use cowboy::profiles::{resolve_llm_profile, LlmProfile, LlmProfilesConfig};
use cowboy::types::PlayerName;

fn profile(base_url: Option<&str>, model: Option<&str>) -> LlmProfile {
    LlmProfile {
        base_url: base_url.map(|s| s.to_string()),
        model: model.map(|s| s.to_string()),
        api_key: None,
        output_mode: None,
    }
}

#[test]
fn seat_profile_overrides_default_field_by_field() {
    let config = LlmProfilesConfig {
        default: Some(profile(Some(" http://llm "), Some("base-model"))),
        players: vec![(PlayerName::B, profile(None, Some(" fast ")))],
    };
    let b = resolve_llm_profile(&config, PlayerName::B).unwrap();
    assert_eq!(b.base_url, Some("http://llm".to_string()));
    assert_eq!(b.model, Some("fast".to_string()));
    let c = resolve_llm_profile(&config, PlayerName::C).unwrap();
    assert_eq!(c.model, Some("base-model".to_string()));
}

#[test]
fn blank_profile_resolves_to_none() {
    let config = LlmProfilesConfig { default: Some(profile(Some("  "), None)), players: vec![] };
    assert!(resolve_llm_profile(&config, PlayerName::A).is_none());
    let blank_seat = LlmProfilesConfig {
        default: Some(profile(None, Some("m"))),
        players: vec![(PlayerName::A, profile(None, Some("   ")))],
    };
    assert!(resolve_llm_profile(&blank_seat, PlayerName::A).is_none());
    assert!(profile(None, None).normalized().is_none());
}
