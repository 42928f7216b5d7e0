use bigfive::config::{EffortLevel, ThinkingConfig};
use bigfive::provider::{
    build_thinking_params, extract_choice_text, extract_text, ContentBlock, ThinkingParam,
};
use bigfive::AnalysisError;

fn block(kind: &str, text: Option<&str>) -> ContentBlock {
    ContentBlock { block_type: kind.to_string(), text: text.map(|t| t.to_string()) }
}

#[test]
fn thinking_parameters() {
    let (t, o) = build_thinking_params(None);
    assert!(t.is_none() && o.is_none());
    let (t, o) = build_thinking_params(Some(ThinkingConfig::Enabled { budget_tokens: 1500 }));
    assert_eq!(t, Some(ThinkingParam::Enabled { budget_tokens: 1500 }));
    assert!(o.is_none());
    let (t, o) =
        build_thinking_params(Some(ThinkingConfig::Adaptive { effort: EffortLevel::High }));
    assert_eq!(t, Some(ThinkingParam::Adaptive));
    assert!(o.is_none());
    let (t, o) = build_thinking_params(Some(ThinkingConfig::Adaptive { effort: EffortLevel::Low }));
    assert_eq!(t, Some(ThinkingParam::Adaptive));
    assert_eq!(o.unwrap().effort, "low");
}

#[test]
fn text_blocks_are_joined_and_reasoning_dropped() {
    let content = vec![
        block("thinking", None),
        block("text", Some("Hello, ")),
        block("thinking", Some("secret")),
        block("text", None),
        block("text", Some("world")),
    ];
    assert_eq!(extract_text(content).unwrap(), "Hello, world");
}

#[test]
fn no_text_block_is_an_empty_response() {
    assert_eq!(extract_text(vec![]), Err(AnalysisError::EmptyResponse));
    assert_eq!(
        extract_text(vec![block("thinking", Some("only thoughts"))]),
        Err(AnalysisError::EmptyResponse)
    );
}

#[test]
fn first_choice_is_the_text() {
    assert_eq!(extract_choice_text(vec!["a".to_string(), "b".to_string()]).unwrap(), "a");
    assert_eq!(extract_choice_text(vec![]), Err(AnalysisError::EmptyResponse));
}
