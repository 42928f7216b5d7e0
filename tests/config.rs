use bigfive::config::{
    default_analysis_max_tokens, default_safeguard_max_tokens, default_translation_max_tokens,
    AiConfig, ApiConfig, ConfigError, EffortLevel, ModelPreset, Provider, SafeguardConfig,
    SourceLanguage, TranslationConfig,
};
use bigfive::AnalysisError;

fn api(provider: Provider, url: Option<&str>) -> ApiConfig {
    ApiConfig { provider, api_key_env: "K".to_string(), api_url: url.map(|u| u.to_string()) }
}

fn preset(id: &str, default: bool) -> ModelPreset {
    ModelPreset {
        id: id.to_string(),
        display_name: id.to_uppercase(),
        model: "m".to_string(),
        source_lang: SourceLanguage::En,
        max_tokens: default_analysis_max_tokens(),
        default,
        api: api(Provider::Anthropic, None),
        thinking: None,
        translation: None,
    }
}

fn validation(r: Result<AiConfig, ConfigError>) -> String {
    match r {
        Err(ConfigError::Validation(m)) => m,
        Err(other) => panic!("unexpected {other:?}"),
        Ok(_) => panic!("accepted"),
    }
}

#[test]
fn no_presets_is_rejected() {
    assert_eq!(validation(AiConfig::new(None, vec![])), "At least one model preset is required");
}

#[test]
fn openai_without_url_is_rejected() {
    let mut bad = preset("b", false);
    bad.api = api(Provider::OpenAiCompatible, None);
    assert_eq!(
        validation(AiConfig::new(None, vec![preset("a", false), bad])),
        "[models[1].api] api_url is required for 'openai' provider"
    );
    let mut good = preset("c", false);
    good.api = api(Provider::OpenAiCompatible, Some("http://x"));
    assert!(AiConfig::new(None, vec![good]).is_ok());
}

#[test]
fn translation_without_url_is_rejected() {
    let mut p = preset("a", false);
    p.translation = Some(TranslationConfig {
        model: "t".to_string(),
        max_tokens: default_translation_max_tokens(),
        api: api(Provider::OpenAiCompatible, None),
    });
    let mut presets = vec![];
    for i in 0..11 {
        presets.push(preset(&format!("p{i}"), false));
    }
    presets.push(p);
    assert_eq!(
        validation(AiConfig::new(None, presets)),
        "[models[11].translation.api] api_url is required for 'openai' provider"
    );
}

#[test]
fn safeguard_without_url_is_rejected() {
    let sg = SafeguardConfig {
        enabled: true,
        model: "g".to_string(),
        max_tokens: default_safeguard_max_tokens(),
        api: api(Provider::OpenAiCompatible, None),
    };
    assert_eq!(
        validation(AiConfig::new(Some(sg.clone()), vec![preset("a", false)])),
        "[safeguard.api] api_url is required for 'openai' provider"
    );
    let disabled = SafeguardConfig { enabled: false, ..sg.clone() };
    assert_eq!(
        validation(AiConfig::new(Some(disabled), vec![preset("a", false)])),
        "[safeguard.api] api_url is required for 'openai' provider"
    );
    let with_url = SafeguardConfig {
        api: api(Provider::OpenAiCompatible, Some("http://guard")),
        ..sg
    };
    assert!(AiConfig::new(Some(with_url), vec![preset("a", false)]).is_ok());
}

#[test]
fn at_most_one_default() {
    assert_eq!(
        validation(AiConfig::new(None, vec![preset("a", true), preset("b", true)])),
        "Only one model can be marked as default"
    );
}

#[test]
fn default_model_and_lookup() {
    let none_marked = AiConfig::new(None, vec![preset("a", false), preset("b", false)]).unwrap();
    assert_eq!(none_marked.default_model().id, "a");
    let second = AiConfig::new(None, vec![preset("a", false), preset("b", true)]).unwrap();
    assert_eq!(second.default_model().id, "b");
    assert_eq!(second.get_model("b").unwrap().display_name, "B");
    assert!(second.get_model("c").is_none());
    let infos = second.list_models();
    assert_eq!(infos.len(), 2);
    assert_eq!(infos[1].id, "b");
    assert_eq!(infos[1].display_name, "B");
    assert!(infos[1].default);
    assert!(!infos[0].default);
}

#[test]
fn names_and_defaults() {
    assert_eq!(EffortLevel::Max.as_str(), "max");
    assert_eq!(EffortLevel::Medium.as_str(), "medium");
    assert_eq!(EffortLevel::default(), EffortLevel::High);
    assert_eq!(SourceLanguage::Ru.code(), "ru");
    assert_eq!(SourceLanguage::Zh.name(), "Chinese");
    assert_eq!(default_safeguard_max_tokens(), 1024);
    assert_eq!(default_analysis_max_tokens(), 8192);
    assert_eq!(default_translation_max_tokens(), 8192);
}

#[test]
fn error_messages() {
    let v = ConfigError::Validation("bad".to_string());
    assert_eq!(v.message(), "Invalid configuration: bad");
    assert_eq!(
        AnalysisError::Config(v).message(),
        "Configuration error: Invalid configuration: bad"
    );
    let r = ConfigError::ReadFile { path: "a.toml".to_string(), message: "gone".to_string() };
    assert_eq!(r.message(), "Failed to read config file 'a.toml': gone");
    assert_eq!(AnalysisError::Request("timeout".to_string()).message(), "API request failed: timeout");
    assert_eq!(AnalysisError::EmptyResponse.message(), "Empty response from API");
    assert_eq!(AnalysisError::InvalidModel("x".to_string()).message(), "Invalid model: x");
    assert_eq!(
        AnalysisError::ParseResponse("eof".to_string()).message(),
        "Failed to parse API response: eof"
    );
    assert_eq!(
        AnalysisError::ApiError { status: 0, body: String::new() }.message(),
        "API error (0): "
    );
}
