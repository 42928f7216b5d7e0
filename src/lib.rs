//! Big Five personality test library: the IPIP-NEO-120 inventory and its
//! scoring, and the orchestration of AI-written analyses: the model registry,
//! the analysis pipeline, and the background job store with its polling
//! protocol.

pub mod config;
pub mod error;
pub mod inventory;
pub mod jobs;
pub mod pipeline;
pub mod prompts;
pub mod provider;
pub mod scoring;
pub mod text;
pub mod types;

pub use error::{AnalysisError, Error};
pub use inventory::Ipip120;
pub use scoring::calculate;
pub use types::{
    Answer, Domain, DomainScore, Facet, FacetScore, PersonalityProfile, Question, ScoreLevel,
};
