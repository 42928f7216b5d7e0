//! The provider-independent parts of a model call: the reasoning parameters
//! sent with a request, and the text taken out of a response.

use vstd::prelude::*;
use vstd::string::*;

use crate::config::{effort_str, EffortLevel, ThinkingConfig};
use crate::error::AnalysisError;
use crate::text::str_eq;

verus! {

/// Per-call network timeout, in seconds.
pub const API_TIMEOUT_SECS: u64 = 180;

/// The `thinking` parameter of a request.
#[derive(Debug, Clone, Copy, PartialEq, Eq, Structural)]
pub enum ThinkingParam {
    /// Adaptive thinking: the model decides when and how much to think.
    Adaptive,
    /// Thinking with an explicit budget.
    Enabled { budget_tokens: u32 },
}

/// The `output_config` parameter of a request (the effort of adaptive thinking).
#[derive(Debug, Clone, Copy)]
pub struct OutputConfig {
    pub effort: &'static str,
}

/// One content block of a response: text, or reasoning that is never shown.
#[derive(Debug, Clone)]
pub struct ContentBlock {
    /// The block's type ("text", "thinking", ...).
    pub block_type: String,
    /// Present on text blocks.
    pub text: Option<String>,
}

/// Build the `thinking` and `output_config` parameters: none without a
/// thinking configuration; an explicit budget is passed as it is; adaptive
/// thinking sends its effort unless it is the default, high.
pub fn build_thinking_params(config: Option<ThinkingConfig>) -> (r: (
    Option<ThinkingParam>,
    Option<OutputConfig>,
))
    ensures
        match config {
            None => r.0 is None && r.1 is None,
            Some(ThinkingConfig::Enabled { budget_tokens }) => r.0 == Some(
                ThinkingParam::Enabled { budget_tokens },
            ) && r.1 is None,
            Some(ThinkingConfig::Adaptive { effort }) => r.0 == Some(ThinkingParam::Adaptive) && if effort
                == EffortLevel::High {
                r.1 is None
            } else {
                r.1 is Some && r.1->0.effort@ == effort_str(effort)
            },
        },
{
    match config {
        Some(ThinkingConfig::Adaptive { effort }) => {
            let output_config = if effort == EffortLevel::High {
                None
            } else {
                Some(OutputConfig { effort: effort.as_str() })
            };
            (Some(ThinkingParam::Adaptive), output_config)
        },
        Some(ThinkingConfig::Enabled { budget_tokens }) => (
            Some(ThinkingParam::Enabled { budget_tokens }),
            None,
        ),
        None => (None, None),
    }
}

/// A block whose text is shown: of type "text", with text present.
pub open spec fn is_text_block(b: ContentBlock) -> bool {
    b.block_type@ == "text"@ && b.text is Some
}

/// The texts of the text blocks, in order.
pub open spec fn text_parts(bs: Seq<ContentBlock>) -> Seq<Seq<char>>
    decreases bs.len(),
{
    if bs.len() == 0 {
        Seq::empty()
    } else if is_text_block(bs.last()) {
        text_parts(bs.drop_last()).push(bs.last().text->0@)
    } else {
        text_parts(bs.drop_last())
    }
}

/// The concatenation of a sequence of texts.
pub open spec fn concat_all(parts: Seq<Seq<char>>) -> Seq<char>
    decreases parts.len(),
{
    if parts.len() == 0 {
        Seq::empty()
    } else {
        concat_all(parts.drop_last()) + parts.last()
    }
}

/// Take the text out of a response's content blocks: the text blocks joined
/// in order, reasoning blocks dropped; `EmptyResponse` when there is none.
pub fn extract_text(content: Vec<ContentBlock>) -> (r: Result<String, AnalysisError>)
    ensures
        text_parts(content@).len() == 0 ==> r == Err::<String, AnalysisError>(
            AnalysisError::EmptyResponse,
        ),
        text_parts(content@).len() > 0 ==> (r is Ok && r->Ok_0@ == concat_all(text_parts(content@))),
{
    let mut out = String::new();
    let mut found: bool = false;
    let mut i: usize = 0;
    while i < content.len()
        invariant
            i <= content@.len(),
            out@ == concat_all(text_parts(content@.take(i as int))),
            found == (text_parts(content@.take(i as int)).len() > 0),
        decreases content@.len() - i,
    {
        let b = &content[i];
        proof {
            assert(content@.take(i + 1).drop_last() =~= content@.take(i as int));
        }
        if str_eq(b.block_type.as_str(), "text") {
            match &b.text {
                Some(t) => {
                    let ghost parts = text_parts(content@.take(i as int));
                    out.append(t.as_str());
                    found = true;
                    proof {
                        assert(parts.push(t@).drop_last() =~= parts);
                        assert(out@ =~= concat_all(parts.push(t@)));
                    }
                },
                None => {},
            }
        }
        i = i + 1;
    }
    proof {
        assert(content@.take(content@.len() as int) =~= content@);
    }
    if !found {
        return Err(AnalysisError::EmptyResponse);
    }
    Ok(out)
}

/// Take the text out of an OpenAI-compatible response: the content of the
/// first choice; `EmptyResponse` when there is no choice.
pub fn extract_choice_text(choices: Vec<String>) -> (r: Result<String, AnalysisError>)
    ensures
        choices@.len() == 0 ==> r == Err::<String, AnalysisError>(AnalysisError::EmptyResponse),
        choices@.len() > 0 ==> r == Ok::<String, AnalysisError>(choices@[0]),
{
    if choices.len() == 0 {
        return Err(AnalysisError::EmptyResponse);
    }
    Ok(choices[0].clone())
}

} // verus!
