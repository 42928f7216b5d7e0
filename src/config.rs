//! AI configuration: provider endpoints, model presets, the optional
//! safeguard, and their validation. Parsing the configuration document is the
//! caller's part; this module holds the parsed values and the rules on them.

use vstd::prelude::*;
use vstd::string::*;

use crate::text::{decimal, push_decimal, str_eq};

verus! {

/// API provider type.
#[derive(Debug, Clone, Copy, PartialEq, Eq, Structural)]
pub enum Provider {
    /// The fixed-endpoint provider with its own request/response envelope.
    Anthropic,
    /// An OpenAI-compatible endpoint reachable at a configured URL.
    OpenAiCompatible,
}

/// API configuration for a provider.
#[derive(Debug, Clone)]
pub struct ApiConfig {
    /// API provider type.
    pub provider: Provider,
    /// Name of the environment variable that holds the API key.
    pub api_key_env: String,
    /// API endpoint URL (required for OpenAI-compatible providers).
    pub api_url: Option<String>,
}

/// Effort level for adaptive thinking.
#[derive(Debug, Clone, Copy, PartialEq, Eq, Structural)]
pub enum EffortLevel {
    Max,
    High,
    Medium,
    Low,
}

/// Thinking mode configuration.
#[derive(Debug, Clone, Copy, PartialEq, Eq, Structural)]
pub enum ThinkingConfig {
    /// The model decides when and how much to think, guided by an effort level.
    Adaptive { effort: EffortLevel },
    /// Thinking with an explicit token budget.
    Enabled { budget_tokens: u32 },
}

/// Language a model writes its analysis in.
#[derive(Debug, Clone, Copy, PartialEq, Eq, Structural)]
pub enum SourceLanguage {
    /// English
    En,
    /// Russian
    Ru,
    /// Chinese
    Zh,
}

/// Translation configuration for the two-step pipeline.
#[derive(Debug, Clone)]
pub struct TranslationConfig {
    /// Model to use for translation.
    pub model: String,
    /// Maximum tokens for the translation response.
    pub max_tokens: u32,
    /// API configuration for translation.
    pub api: ApiConfig,
}

/// Safeguard configuration for prompt injection protection.
#[derive(Debug, Clone)]
pub struct SafeguardConfig {
    /// Whether the safeguard is enabled.
    pub enabled: bool,
    /// Model to use for safeguard checks.
    pub model: String,
    /// Maximum tokens for the safeguard response.
    pub max_tokens: u32,
    /// API configuration for the safeguard.
    pub api: ApiConfig,
}

/// Model preset configuration.
#[derive(Debug, Clone)]
pub struct ModelPreset {
    /// Unique identifier for this preset.
    pub id: String,
    /// Display name shown in the UI.
    pub display_name: String,
    /// Model identifier sent to the provider.
    pub model: String,
    /// The language the model writes its analysis in.
    pub source_lang: SourceLanguage,
    /// Maximum tokens for the analysis response.
    pub max_tokens: u32,
    /// Whether this is the default model.
    pub default: bool,
    /// API configuration for this model.
    pub api: ApiConfig,
    /// Optional thinking configuration.
    pub thinking: Option<ThinkingConfig>,
    /// Optional translation configuration.
    pub translation: Option<TranslationConfig>,
}

/// Root AI configuration.
#[derive(Debug, Clone)]
pub struct AiConfig {
    /// Optional safeguard shared by all models.
    pub safeguard: Option<SafeguardConfig>,
    /// Available model presets.
    pub models: Vec<ModelPreset>,
}

/// Model info for clients (a subset of `ModelPreset`).
#[derive(Debug, Clone, PartialEq)]
pub struct ModelInfo {
    pub id: String,
    pub display_name: String,
    pub default: bool,
}

/// Configuration loading errors.
#[derive(Debug, Clone, PartialEq)]
pub enum ConfigError {
    /// The configuration file could not be read.
    ReadFile { path: String, message: String },
    /// The configuration file could not be parsed.
    Parse { path: String, message: String },
    /// The configuration breaks a rule.
    Validation(String),
}

pub open spec fn effort_str(e: EffortLevel) -> Seq<char> {
    match e {
        EffortLevel::Max => "max"@,
        EffortLevel::High => "high"@,
        EffortLevel::Medium => "medium"@,
        EffortLevel::Low => "low"@,
    }
}

pub open spec fn language_code(l: SourceLanguage) -> Seq<char> {
    match l {
        SourceLanguage::En => "en"@,
        SourceLanguage::Ru => "ru"@,
        SourceLanguage::Zh => "zh"@,
    }
}

pub open spec fn language_name(l: SourceLanguage) -> Seq<char> {
    match l {
        SourceLanguage::En => "English"@,
        SourceLanguage::Ru => "Russian"@,
        SourceLanguage::Zh => "Chinese"@,
    }
}

impl EffortLevel {
    /// The effort level as sent to the API.
    pub fn as_str(&self) -> (r: &'static str)
        ensures
            r@ == effort_str(*self),
    {
        match self {
            EffortLevel::Max => "max",
            EffortLevel::High => "high",
            EffortLevel::Medium => "medium",
            EffortLevel::Low => "low",
        }
    }
}

impl Default for EffortLevel {
    fn default() -> (r: Self)
        ensures
            r == EffortLevel::High,
    {
        EffortLevel::High
    }
}

impl SourceLanguage {
    /// The language code.
    pub fn code(&self) -> (r: &'static str)
        ensures
            r@ == language_code(*self),
    {
        match self {
            SourceLanguage::En => "en",
            SourceLanguage::Ru => "ru",
            SourceLanguage::Zh => "zh",
        }
    }

    /// The language name used in prompts.
    pub fn name(&self) -> (r: &'static str)
        ensures
            r@ == language_name(*self),
    {
        match self {
            SourceLanguage::En => "English",
            SourceLanguage::Ru => "Russian",
            SourceLanguage::Zh => "Chinese",
        }
    }
}

/// Default maximum tokens of a safeguard response.
pub fn default_safeguard_max_tokens() -> (r: u32)
    ensures
        r == 1024,
{
    1024
}

/// Default maximum tokens of an analysis response.
pub fn default_analysis_max_tokens() -> (r: u32)
    ensures
        r == 8192,
{
    8192
}

/// Default maximum tokens of a translation response.
pub fn default_translation_max_tokens() -> (r: u32)
    ensures
        r == 8192,
{
    8192
}

/// An API configuration names an endpoint URL wherever its provider needs one.
pub open spec fn api_ok(a: ApiConfig) -> bool {
    !(a.provider == Provider::OpenAiCompatible && a.api_url is None)
}

/// Message for an API configuration in `section` without its URL.
pub open spec fn missing_url_message(section: Seq<char>) -> Seq<char> {
    "["@ + section + "] api_url is required for 'openai' provider"@
}

/// Name of the section of preset `i`'s API configuration.
pub open spec fn preset_api_section(i: nat) -> Seq<char> {
    "models["@ + decimal(i) + "].api"@
}

/// Name of the section of preset `i`'s translation API configuration.
pub open spec fn translation_api_section(i: nat) -> Seq<char> {
    "models["@ + decimal(i) + "].translation.api"@
}

/// The first rule that presets `i..` break, in order, as its message.
pub open spec fn presets_check(models: Seq<ModelPreset>, i: nat) -> Option<Seq<char>>
    decreases models.len() - i,
{
    if i >= models.len() {
        None
    } else if !api_ok(models[i as int].api) {
        Some(missing_url_message(preset_api_section(i)))
    } else if models[i as int].translation is Some && !api_ok(
        models[i as int].translation->0.api,
    ) {
        Some(missing_url_message(translation_api_section(i)))
    } else {
        presets_check(models, i + 1)
    }
}

/// Number of presets marked default.
pub open spec fn default_count(models: Seq<ModelPreset>) -> nat
    decreases models.len(),
{
    if models.len() == 0 {
        0
    } else {
        default_count(models.drop_last()) + if models.last().default {
            1nat
        } else {
            0nat
        }
    }
}

pub open spec fn no_models_message() -> Seq<char> {
    "At least one model preset is required"@
}

pub open spec fn many_defaults_message() -> Seq<char> {
    "Only one model can be marked as default"@
}

/// The first rule a configuration breaks, as its message, checked in this
/// order: no presets; a safeguard (enabled or not) without its URL; each preset in
/// turn (its API, then its translation API); more than one default preset.
pub open spec fn config_violation(safeguard: Option<SafeguardConfig>, models: Seq<ModelPreset>) -> Option<
    Seq<char>,
> {
    if models.len() == 0 {
        Some(no_models_message())
    } else if safeguard is Some && !api_ok(safeguard->0.api) {
        Some(missing_url_message("safeguard.api"@))
    } else if presets_check(models, 0) is Some {
        presets_check(models, 0)
    } else if default_count(models) > 1 {
        Some(many_defaults_message())
    } else {
        None
    }
}

/// The preset that `default_model` picks: the first one marked default, else the first.
pub open spec fn default_index(models: Seq<ModelPreset>) -> int {
    if exists|i: int| 0 <= i < models.len() && #[trigger] models[i].default {
        choose|i: int|
            0 <= i < models.len() && #[trigger] models[i].default && forall|j: int|
                0 <= j < i ==> !models[j].default
    } else {
        0
    }
}

/// `i` is the first preset with id `id`.
pub open spec fn is_first_with_id(models: Seq<ModelPreset>, id: Seq<char>, i: int) -> bool {
    0 <= i < models.len() && models[i].id@ == id && forall|j: int|
        0 <= j < i ==> models[j].id@ != id
}

fn validation_error(msg: String) -> (r: ConfigError)
    ensures
        r == ConfigError::Validation(msg),
{
    ConfigError::Validation(msg)
}

impl ApiConfig {
    /// Check that the configuration in `section` names an endpoint URL where
    /// its provider needs one.
    pub fn validate(&self, section: &str) -> (r: Result<(), ConfigError>)
        ensures
            api_ok(*self) ==> r is Ok,
            !api_ok(*self) ==> (r matches Err(ConfigError::Validation(m)) && m@
                == missing_url_message(section@)),
    {
        if self.provider == Provider::OpenAiCompatible && self.api_url.is_none() {
            let mut msg = String::from_str("[");
            msg.append(section);
            msg.append("] api_url is required for 'openai' provider");
            proof {
                reveal_strlit("[");
                assert(msg@ =~= missing_url_message(section@));
            }
            return Err(validation_error(msg));
        }
        Ok(())
    }
}

impl ModelPreset {
    /// Check the API configuration of the preset at position `index`, then
    /// that of its translation.
    fn validate(&self, index: usize) -> (r: Result<(), ConfigError>)
        ensures
            !api_ok(self.api) ==> (r matches Err(ConfigError::Validation(m)) && m@
                == missing_url_message(preset_api_section(index as nat))),
            api_ok(self.api) && self.translation is Some && !api_ok(self.translation->0.api) ==> (
            r matches Err(ConfigError::Validation(m)) && m@ == missing_url_message(
                translation_api_section(index as nat),
            )),
            api_ok(self.api) && (self.translation is None || api_ok(self.translation->0.api))
                ==> r is Ok,
    {
        let mut section = String::from_str("models[");
        push_decimal(&mut section, index as u64);
        let mut api_section = section.clone();
        api_section.append("].api");
        proof {
            reveal_strlit("models[");
            assert(api_section@ =~= preset_api_section(index as nat));
        }
        self.api.validate(api_section.as_str())?;
        match &self.translation {
            Some(t) => {
                let mut tr_section = section;
                tr_section.append("].translation.api");
                proof {
                    assert(tr_section@ =~= translation_api_section(index as nat));
                }
                t.api.validate(tr_section.as_str())
            },
            None => Ok(()),
        }
    }
}

impl ModelInfo {
    /// The client-facing summary of a preset.
    pub fn from_preset(preset: &ModelPreset) -> (r: ModelInfo)
        ensures
            r.id == preset.id,
            r.display_name == preset.display_name,
            r.default == preset.default,
    {
        ModelInfo {
            id: preset.id.clone(),
            display_name: preset.display_name.clone(),
            default: preset.default,
        }
    }
}

impl AiConfig {
    /// Check the configuration rules; the error names the first rule broken
    /// (see `config_violation`).
    pub fn validate(&self) -> (r: Result<(), ConfigError>)
        ensures
            match config_violation(self.safeguard, self.models@) {
                None => r is Ok,
                Some(m) => r matches Err(ConfigError::Validation(e)) && e@ == m,
            },
    {
        if self.models.len() == 0 {
            proof {
                reveal_strlit("At least one model preset is required");
            }
            return Err(validation_error(String::from_str("At least one model preset is required")));
        }
        match &self.safeguard {
            Some(safeguard) => {
                proof {
                    reveal_strlit("safeguard.api");
                }
                safeguard.api.validate("safeguard.api")?;
            },
            None => {},
        }
        let ghost models = self.models@;
        let mut i: usize = 0;
        while i < self.models.len()
            invariant
                models == self.models@,
                models.len() > 0,
                !(self.safeguard is Some && !api_ok(self.safeguard->0.api)),
                i <= models.len(),
                presets_check(models, 0) == presets_check(models, i as nat),
            decreases models.len() - i,
        {
            match self.models[i].validate(i) {
                Ok(()) => {},
                Err(e) => {
                    return Err(e);
                },
            }
            i = i + 1;
        }
        let mut count: usize = 0;
        let mut k: usize = 0;
        while k < self.models.len()
            invariant
                models == self.models@,
                k <= models.len(),
                count == default_count(models.take(k as int)),
                count <= k,
            decreases models.len() - k,
        {
            proof {
                assert(models.take(k + 1).drop_last() =~= models.take(k as int));
            }
            if self.models[k].default {
                count = count + 1;
            }
            k = k + 1;
        }
        proof {
            assert(models.take(models.len() as int) =~= models);
        }
        if count > 1 {
            proof {
                reveal_strlit("Only one model can be marked as default");
            }
            return Err(validation_error(String::from_str("Only one model can be marked as default")));
        }
        Ok(())
    }

    /// Build a configuration from its parts, checking the rules.
    pub fn new(safeguard: Option<SafeguardConfig>, models: Vec<ModelPreset>) -> (r: Result<
        AiConfig,
        ConfigError,
    >)
        ensures
            match config_violation(safeguard, models@) {
                None => r is Ok && r->Ok_0.safeguard == safeguard && r->Ok_0.models@ == models@,
                Some(m) => r matches Err(ConfigError::Validation(e)) && e@ == m,
            },
    {
        let config = AiConfig { safeguard, models };
        match config.validate() {
            Ok(()) => Ok(config),
            Err(e) => Err(e),
        }
    }

    /// The default model preset: the first one marked default, else the first.
    pub fn default_model(&self) -> (r: &ModelPreset)
        requires
            self.models@.len() > 0,
        ensures
            *r == self.models@[default_index(self.models@)],
    {
        let mut i: usize = 0;
        while i < self.models.len()
            invariant
                i <= self.models@.len(),
                forall|j: int| 0 <= j < i ==> !(#[trigger] self.models@[j]).default,
            decreases self.models@.len() - i,
        {
            if self.models[i].default {
                proof {
                    let d = default_index(self.models@);
                    assert(self.models@[i as int].default);
                    assert(!(d < i) && !(d > i));
                }
                return &self.models[i];
            }
            i = i + 1;
        }
        &self.models[0]
    }

    /// The model preset with id `id` (the first, should ids repeat).
    pub fn get_model(&self, id: &str) -> (r: Option<&ModelPreset>)
        ensures
            match r {
                Some(p) => exists|i: int|
                    is_first_with_id(self.models@, id@, i) && *p == #[trigger] self.models@[i],
                None => forall|i: int|
                    0 <= i < self.models@.len() ==> #[trigger] self.models@[i].id@ != id@,
            },
    {
        let mut i: usize = 0;
        while i < self.models.len()
            invariant
                i <= self.models@.len(),
                forall|j: int| 0 <= j < i ==> #[trigger] self.models@[j].id@ != id@,
            decreases self.models@.len() - i,
        {
            if str_eq(self.models[i].id.as_str(), id) {
                assert(is_first_with_id(self.models@, id@, i as int));
                return Some(&self.models[i]);
            }
            i = i + 1;
        }
        None
    }

    /// Summaries of all presets, in configuration order.
    pub fn list_models(&self) -> (r: Vec<ModelInfo>)
        ensures
            r@.len() == self.models@.len(),
            forall|i: int|
                0 <= i < r@.len() ==> (#[trigger] r@[i]).id == self.models@[i].id
                    && r@[i].display_name == self.models@[i].display_name && r@[i].default
                    == self.models@[i].default,
    {
        let mut out: Vec<ModelInfo> = Vec::new();
        let mut i: usize = 0;
        while i < self.models.len()
            invariant
                i <= self.models@.len(),
                out@.len() == i,
                forall|j: int|
                    0 <= j < i ==> (#[trigger] out@[j]).id == self.models@[j].id
                        && out@[j].display_name == self.models@[j].display_name && out@[j].default
                        == self.models@[j].default,
            decreases self.models@.len() - i,
        {
            out.push(ModelInfo::from_preset(&self.models[i]));
            i = i + 1;
        }
        out
    }
}

} // verus!
