//! The analysis pipeline as a state machine, and the job runner's steps.
//!
//! A pipeline run is a strict sequence: an optional safeguard call, the
//! generation call, and an optional translation call. `begin` names the first
//! step; each provider reply is handed to `advance`, which names the next
//! step, until a `Finish` carries the outcome. The caller performs the calls.

use vstd::prelude::*;
use vstd::string::*;

use crate::config::{
    is_first_with_id, language_code, AiConfig, ApiConfig, ModelPreset, ThinkingConfig,
};
use crate::error::{analysis_error_text, AnalysisError, UNSAFE_INPUT_MESSAGE};
use crate::jobs::{spec_create, spec_update, JobId, JobStatus, JobStore, StatusView};
use crate::prompts::{
    analysis_prompt, analysis_prompt_text, prompt_context, safeguard_system_prompt, scores_text,
    translation_prompt, translation_prompt_text, trim_text, trimmed, SAFEGUARD_SYSTEM_PROMPT,
};
use crate::text::{seq_contains, str_contains, str_eq};
use crate::types::PersonalityProfile;

verus! {

/// One analysis request.
#[derive(Debug, Clone)]
pub struct AnalysisRequest {
    /// The scored profile to analyse.
    pub profile: PersonalityProfile,
    /// Optional free-text context from the user.
    pub user_context: Option<String>,
    /// The interface language code the result is wanted in.
    pub interface_language: String,
    /// The chosen model preset.
    pub model_id: String,
    /// The saved result the analysis belongs to, if any.
    pub result_id: Option<String>,
}

/// The stage a provider call belongs to.
#[derive(Debug, Clone, Copy, PartialEq, Eq, Structural)]
pub enum Stage {
    Safeguard,
    Generation,
    Translation,
}

/// One provider call: the endpoint, the model and what is sent to it.
#[derive(Debug, Clone)]
pub struct ModelCall {
    pub api: ApiConfig,
    pub model: String,
    pub system: Option<String>,
    pub user: String,
    pub max_tokens: u32,
    pub thinking: Option<ThinkingConfig>,
}

/// What the pipeline does next.
#[derive(Debug)]
pub enum Step {
    /// Perform this call and hand its reply to `advance` with this stage.
    Call(Stage, ModelCall),
    /// The pipeline is over, with this outcome.
    Finish(Result<String, AnalysisError>),
}

/// The name of what `str::to_uppercase` returns for a text.
pub uninterp spec fn upper_of(s: Seq<char>) -> Seq<char>;

/// Relies on `str::to_uppercase`: the result depends on the characters alone.
#[verifier::external_body]
fn uppercase(s: &str) -> (r: String)
    ensures
        r@ == upper_of(s@),
{
    s.to_uppercase()
}

/// Relies on `uuid::Uuid::new_v4` and its hyphenated `to_string`: a fresh
/// random identifier. Nothing is promised of its value.
#[verifier::external_body]
pub fn generate_job_id() -> (r: JobId) {
    uuid::Uuid::new_v4().to_string()
}

pub open spec fn opt_view(s: Option<String>) -> Option<Seq<char>> {
    match s {
        Some(t) => Some(t@),
        None => None,
    }
}

/// `step` is a call in `stage` with exactly these parameters.
pub open spec fn is_call(
    step: Step,
    stage: Stage,
    api: ApiConfig,
    model: Seq<char>,
    system: Option<Seq<char>>,
    user: Seq<char>,
    max_tokens: u32,
    thinking: Option<ThinkingConfig>,
) -> bool {
    &&& step is Call
    &&& step->Call_0 == stage
    &&& step->Call_1.api == api
    &&& step->Call_1.model@ == model
    &&& opt_view(step->Call_1.system) == system
    &&& step->Call_1.user@ == user
    &&& step->Call_1.max_tokens == max_tokens
    &&& step->Call_1.thinking == thinking
}

/// The preset with id `id`: the first one, should ids repeat.
pub open spec fn preset_for(models: Seq<ModelPreset>, id: Seq<char>) -> Option<ModelPreset> {
    if exists|i: int| is_first_with_id(models, id, i) {
        Some(models[choose|i: int| is_first_with_id(models, id, i)])
    } else {
        None
    }
}

/// The safeguard stage runs: a safeguard is configured and enabled, and the
/// user gave a context that is not blank.
pub open spec fn safeguard_entered(config: AiConfig, req: AnalysisRequest) -> bool {
    &&& config.safeguard is Some
    &&& config.safeguard->0.enabled
    &&& req.user_context is Some
    &&& trimmed(req.user_context->0@).len() > 0
}

/// The safeguard's verdict (uppercased and trimmed) counts as unsafe: it says
/// "UNSAFE", or it does not say "SAFE".
pub open spec fn verdict_is_unsafe(verdict: Seq<char>) -> bool {
    seq_contains(verdict, "UNSAFE"@) || !seq_contains(verdict, "SAFE"@)
}

/// `step` is the generation step for the request: `InvalidModel` for an
/// unknown preset, else the generation call of the preset.
pub open spec fn is_generation_step(config: AiConfig, req: AnalysisRequest, step: Step) -> bool {
    match preset_for(config.models@, req.model_id@) {
        None => step == Step::Finish(Err(AnalysisError::InvalidModel(req.model_id))),
        Some(p) => is_call(
            step,
            Stage::Generation,
            p.api,
            p.model@,
            None,
            analysis_prompt_text(
                p.source_lang,
                scores_text(req.profile.domains@),
                prompt_context(opt_view(req.user_context)),
            ),
            p.max_tokens,
            p.thinking,
        ),
    }
}

/// `step` follows the generation output `text`: the text itself when the
/// preset writes in the interface language or has no translation, else the
/// translation call that embeds it.
pub open spec fn is_step_after_generation(
    config: AiConfig,
    req: AnalysisRequest,
    text: String,
    step: Step,
) -> bool {
    match preset_for(config.models@, req.model_id@) {
        None => step == Step::Finish(Err(AnalysisError::InvalidModel(req.model_id))),
        Some(p) => if language_code(p.source_lang) == req.interface_language@
            || p.translation is None {
            step == Step::Finish(Ok(text))
        } else {
            is_call(
                step,
                Stage::Translation,
                p.translation->0.api,
                p.translation->0.model@,
                None,
                translation_prompt_text(text@, p.source_lang, req.interface_language@),
                p.translation->0.max_tokens,
                None,
            )
        },
    }
}

proof fn lemma_first_unique(models: Seq<ModelPreset>, id: Seq<char>, i: int, j: int)
    requires
        is_first_with_id(models, id, i),
        is_first_with_id(models, id, j),
    ensures
        i == j,
{
    if i < j {
        assert(models[i].id@ != id);
    }
    if j < i {
        assert(models[j].id@ != id);
    }
}

fn copy_api(a: &ApiConfig) -> (r: ApiConfig)
    ensures
        r == *a,
{
    let api_url = match &a.api_url {
        Some(u) => Some(u.clone()),
        None => None,
    };
    ApiConfig { provider: a.provider, api_key_env: a.api_key_env.clone(), api_url }
}

/// The preset of the request, with what `preset_for` says of it.
fn find_preset<'a>(config: &'a AiConfig, id: &String) -> (r: Option<&'a ModelPreset>)
    ensures
        match preset_for(config.models@, id@) {
            None => r is None,
            Some(p) => r is Some && *r->0 == p,
        },
{
    let r = config.get_model(id.as_str());
    proof {
        match r {
            Some(p) => {
                let i = choose|i: int|
                    is_first_with_id(config.models@, id@, i) && *p == #[trigger] config.models@[i];
                let c = choose|i: int| is_first_with_id(config.models@, id@, i);
                lemma_first_unique(config.models@, id@, i, c);
            },
            None => {
                assert forall|i: int| !is_first_with_id(config.models@, id@, i) by {
                    if 0 <= i < config.models@.len() {
                        assert(config.models@[i].id@ != id@);
                    }
                }
            },
        }
    }
    r
}

/// The generation step: resolve the preset (no call is made for an unknown
/// one) and call its model with the analysis prompt in its own language.
fn generation_step(config: &AiConfig, req: &AnalysisRequest) -> (r: Step)
    ensures
        is_generation_step(*config, *req, r),
{
    match find_preset(config, &req.model_id) {
        None => Step::Finish(Err(AnalysisError::InvalidModel(req.model_id.clone()))),
        Some(p) => {
            let prompt = match &req.user_context {
                Some(c) => analysis_prompt(p.source_lang, &req.profile, Some(c.as_str())),
                None => analysis_prompt(p.source_lang, &req.profile, None),
            };
            Step::Call(
                Stage::Generation,
                ModelCall {
                    api: copy_api(&p.api),
                    model: p.model.clone(),
                    system: None,
                    user: prompt,
                    max_tokens: p.max_tokens,
                    thinking: p.thinking,
                },
            )
        },
    }
}

/// The first step of a run: the safeguard call when that stage is entered
/// (the user's context, as given, under the classifier instruction), else the
/// generation step.
pub fn begin(config: &AiConfig, req: &AnalysisRequest) -> (r: Step)
    ensures
        safeguard_entered(*config, *req) ==> is_call(
            r,
            Stage::Safeguard,
            config.safeguard->0.api,
            config.safeguard->0.model@,
            Some(SAFEGUARD_SYSTEM_PROMPT@),
            req.user_context->0@,
            config.safeguard->0.max_tokens,
            None,
        ),
        !safeguard_entered(*config, *req) ==> is_generation_step(*config, *req, r),
{
    match (&config.safeguard, &req.user_context) {
        (Some(sg), Some(context)) => {
            if sg.enabled && trim_text(context.as_str()).unicode_len() > 0 {
                return Step::Call(
                    Stage::Safeguard,
                    ModelCall {
                        api: copy_api(&sg.api),
                        model: sg.model.clone(),
                        system: Some(String::from_str(safeguard_system_prompt())),
                        user: context.clone(),
                        max_tokens: sg.max_tokens,
                        thinking: None,
                    },
                );
            }
        },
        _ => {},
    }
    generation_step(config, req)
}

/// Classify the safeguard's verdict (already trimmed and uppercased).
pub fn verdict_flags_unsafe(verdict: &str) -> (r: bool)
    ensures
        r == verdict_is_unsafe(verdict@),
{
    str_contains(verdict, "UNSAFE") || !str_contains(verdict, "SAFE")
}

/// Next step once the safeguard has judged the context. When it is judged
/// unsafe, the pipeline stops with `UnsafeInput` and no generation call
/// follows; otherwise the generation step comes next.
pub fn after_safeguard_verdict(config: &AiConfig, req: &AnalysisRequest, verdict: &str) -> (r: Step)
    ensures
        verdict_is_unsafe(verdict@) ==> r == Step::Finish(Err(AnalysisError::UnsafeInput)),
        !verdict_is_unsafe(verdict@) ==> is_generation_step(*config, *req, r),
{
    if verdict_flags_unsafe(verdict) {
        return Step::Finish(Err(AnalysisError::UnsafeInput));
    }
    generation_step(config, req)
}

/// The step after the generation output `text`: the text is the result when
/// the preset writes in the interface language or has no translation;
/// otherwise the translation call, with the preset's translation endpoint,
/// model and budget, and a prompt that embeds `text`.
pub fn after_generation(config: &AiConfig, req: &AnalysisRequest, text: String) -> (r: Step)
    ensures
        is_step_after_generation(*config, *req, text, r),
{
    match find_preset(config, &req.model_id) {
        None => Step::Finish(Err(AnalysisError::InvalidModel(req.model_id.clone()))),
        Some(p) => {
            if str_eq(p.source_lang.code(), req.interface_language.as_str()) {
                return Step::Finish(Ok(text));
            }
            match &p.translation {
                None => Step::Finish(Ok(text)),
                Some(t) => {
                    let prompt = translation_prompt(
                        text.as_str(),
                        p.source_lang,
                        req.interface_language.as_str(),
                    );
                    Step::Call(
                        Stage::Translation,
                        ModelCall {
                            api: copy_api(&t.api),
                            model: t.model.clone(),
                            system: None,
                            user: prompt,
                            max_tokens: t.max_tokens,
                            thinking: None,
                        },
                    )
                },
            }
        },
    }
}

/// Hand the reply of the call made for `stage` to the pipeline. A failed
/// call ends the run with its error unchanged. A safeguard reply is trimmed
/// and uppercased, then judged; a generation reply goes on as
/// `after_generation` says; a translation reply is the result.
pub fn advance(
    config: &AiConfig,
    req: &AnalysisRequest,
    stage: Stage,
    reply: Result<String, AnalysisError>,
) -> (r: Step)
    ensures
        reply is Err ==> r == Step::Finish(reply),
        reply is Ok && stage == Stage::Safeguard ==> {
            let verdict = upper_of(trimmed(reply->Ok_0@));
            &&& verdict_is_unsafe(verdict) ==> r == Step::Finish(Err(AnalysisError::UnsafeInput))
            &&& !verdict_is_unsafe(verdict) ==> is_generation_step(*config, *req, r)
        },
        reply is Ok && stage == Stage::Generation ==> is_step_after_generation(
            *config,
            *req,
            reply->Ok_0,
            r,
        ),
        reply is Ok && stage == Stage::Translation ==> r == Step::Finish(reply),
{
    match reply {
        Err(e) => Step::Finish(Err(e)),
        Ok(text) => match stage {
            Stage::Safeguard => {
                let verdict = uppercase(trim_text(text.as_str()));
                after_safeguard_verdict(config, req, verdict.as_str())
            },
            Stage::Generation => after_generation(config, req, text),
            Stage::Translation => Step::Finish(Ok(text)),
        },
    }
}

/// The status a finished run leaves on its job.
pub open spec fn outcome_status(outcome: Result<String, AnalysisError>) -> StatusView {
    match outcome {
        Ok(t) => StatusView::Complete(t@),
        Err(e) => StatusView::Error(analysis_error_text(e)),
    }
}

/// Register a new job at time `now` under a fresh id, one that no job in the
/// store had, and return that id.
pub fn start_job(store: &mut JobStore, now: u64) -> (r: JobId)
    requires
        old(store).wf(),
    ensures
        final(store).wf(),
        !old(store).jobs().dom().contains(r@),
        final(store).jobs() == spec_create(old(store).jobs(), r@, now),
{
    let id = store.fresh_id(generate_job_id());
    store.create_job(&id, now);
    id
}

/// Record the outcome of a run on its job: `Complete` with the text, or
/// `Error` with the error's message. An absent job is left absent.
pub fn finish_job(store: &mut JobStore, job_id: &JobId, outcome: Result<String, AnalysisError>)
    requires
        old(store).wf(),
    ensures
        final(store).wf(),
        final(store).jobs() == spec_update(old(store).jobs(), job_id@, outcome_status(outcome)),
{
    let status = match &outcome {
        Ok(t) => JobStatus::Complete(t.clone()),
        Err(e) => JobStatus::Error(e.message()),
    };
    store.update_job_status(job_id, status);
}

/// A run stopped by the safeguard leaves its job in `Error` with the fixed
/// unsafe-input message.
pub proof fn lemma_unsafe_outcome_message()
    ensures
        outcome_status(Err(AnalysisError::UnsafeInput)) == StatusView::Error(UNSAFE_INPUT_MESSAGE@),
{
}

} // verus!
