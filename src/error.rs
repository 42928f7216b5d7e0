//! Errors of the inventory and scoring layer, and of the analysis pipeline.

use vstd::prelude::*;

use vstd::string::*;

use crate::config::ConfigError;
use crate::text::{decimal, push_decimal};
use crate::types::Domain;

verus! {

/// Errors that can occur while loading an inventory or scoring answers.
#[derive(Debug, Clone, PartialEq)]
pub enum Error {
    /// Unsupported language requested.
    UnsupportedLanguage(String),
    /// Failed to parse question data.
    ParseError(String),
    /// Invalid domain code in question data.
    InvalidDomain(String),
    /// Wrong number of questions loaded.
    InvalidQuestionCount(usize),
    /// Wrong number of answers provided.
    InvalidAnswerCount(usize),
    /// Answer value out of the valid range (1-5).
    InvalidAnswerValue(u8),
    /// Missing answer for a question.
    MissingAnswer(String),
    /// No question measures this domain facet.
    MissingFacetData(Domain, u8),
    /// Wrong number of questions for a domain facet.
    InvalidFacetQuestionCount(Domain, u8, usize),
}

/// Errors that can occur during AI analysis.
#[derive(Debug, Clone, PartialEq)]
pub enum AnalysisError {
    /// Configuration error.
    Config(ConfigError),
    /// API request failed (transport failure, including timeout).
    Request(String),
    /// The API answered with a non-success status.
    ApiError { status: u16, body: String },
    /// Failed to parse the API response.
    ParseResponse(String),
    /// The API response held no text.
    EmptyResponse,
    /// User input was flagged as unsafe (prompt injection).
    UnsafeInput,
    /// Unknown model preset id.
    InvalidModel(String),
}

pub const UNSAFE_INPUT_MESSAGE: &'static str =
    "Your input was flagged as potentially unsafe. Please provide only personal context information.";

/// The text of a configuration error.
pub open spec fn config_error_text(e: ConfigError) -> Seq<char> {
    match e {
        ConfigError::ReadFile { path, message } => "Failed to read config file '"@ + path@ + "': "@
            + message@,
        ConfigError::Parse { path, message } => "Failed to parse config file '"@ + path@ + "': "@
            + message@,
        ConfigError::Validation(m) => "Invalid configuration: "@ + m@,
    }
}

/// The text of an analysis error, as a poller sees it.
pub open spec fn analysis_error_text(e: AnalysisError) -> Seq<char> {
    match e {
        AnalysisError::Config(c) => "Configuration error: "@ + config_error_text(c),
        AnalysisError::Request(m) => "API request failed: "@ + m@,
        AnalysisError::ApiError { status, body } => "API error ("@ + decimal(status as nat) + "): "@
            + body@,
        AnalysisError::ParseResponse(m) => "Failed to parse API response: "@ + m@,
        AnalysisError::EmptyResponse => "Empty response from API"@,
        AnalysisError::UnsafeInput => UNSAFE_INPUT_MESSAGE@,
        AnalysisError::InvalidModel(id) => "Invalid model: "@ + id@,
    }
}

impl ConfigError {
    /// The text of the error.
    pub fn message(&self) -> (r: String)
        ensures
            r@ == config_error_text(*self),
    {
        let r = match self {
            ConfigError::ReadFile { path, message } => {
                let mut s = String::from_str("Failed to read config file '");
                s.append(path.as_str());
                s.append("': ");
                s.append(message.as_str());
                s
            },
            ConfigError::Parse { path, message } => {
                let mut s = String::from_str("Failed to parse config file '");
                s.append(path.as_str());
                s.append("': ");
                s.append(message.as_str());
                s
            },
            ConfigError::Validation(m) => {
                let mut s = String::from_str("Invalid configuration: ");
                s.append(m.as_str());
                s
            },
        };
        assert(r@ =~= config_error_text(*self));
        r
    }
}

impl AnalysisError {
    /// The text of the error, as a poller sees it.
    pub fn message(&self) -> (r: String)
        ensures
            r@ == analysis_error_text(*self),
    {
        let r = match self {
            AnalysisError::Config(c) => {
                let mut s = String::from_str("Configuration error: ");
                let inner = c.message();
                s.append(inner.as_str());
                s
            },
            AnalysisError::Request(m) => {
                let mut s = String::from_str("API request failed: ");
                s.append(m.as_str());
                s
            },
            AnalysisError::ApiError { status, body } => {
                let mut s = String::from_str("API error (");
                push_decimal(&mut s, *status as u64);
                s.append("): ");
                s.append(body.as_str());
                s
            },
            AnalysisError::ParseResponse(m) => {
                let mut s = String::from_str("Failed to parse API response: ");
                s.append(m.as_str());
                s
            },
            AnalysisError::EmptyResponse => String::from_str("Empty response from API"),
            AnalysisError::UnsafeInput => String::from_str(UNSAFE_INPUT_MESSAGE),
            AnalysisError::InvalidModel(id) => {
                let mut s = String::from_str("Invalid model: ");
                s.append(id.as_str());
                s
            },
        };
        assert(r@ =~= analysis_error_text(*self));
        r
    }
}

} // verus!
