//! How much a model thinks: by its name, and by the effort that is asked for.

use vstd::prelude::*;

use crate::anthropic::types::{invalid, ErrorView, OutputConfig, RequestError, Thinking};
use crate::text::{contains, lower_case, maybe_text, occurs_in, same, to_lower_case};

verus! {

/// How many tokens a model may think.
pub const THINKING_BUDGET: i32 = 20_000;

/// The reasoning that a request asks for.
#[derive(Debug)]
pub struct ReasoningConfig {
    pub effort: Option<String>,
}

/// The effort that a request asks for, where it does.
pub open spec fn asked_effort(reasoning: Option<ReasoningConfig>) -> Option<Seq<char>> {
    match reasoning {
        Some(reasoning) => maybe_text(reasoning.effort),
        None => None,
    }
}

/// How a model thinks, and with how much effort.
pub struct ReasoningView {
    pub thinking: Option<ThinkingView>,
    pub effort: Option<Seq<char>>,
}

/// How a model thinks, as plain values.
pub struct ThinkingView {
    pub thinking_type: Seq<char>,
    pub budget_tokens: i32,
}

/// How a model thinks, as plain values, where it does.
pub open spec fn thinking_view(thinking: Option<Thinking>) -> Option<ThinkingView> {
    match thinking {
        Some(thinking) => Some(
            ThinkingView {
                thinking_type: thinking.thinking_type@,
                budget_tokens: thinking.budget_tokens,
            },
        ),
        None => None,
    }
}

/// The effort of an output configuration, where there is one.
pub open spec fn effort_view(config: Option<OutputConfig>) -> Option<Seq<char>> {
    match config {
        Some(config) => Some(config.effort@),
        None => None,
    }
}

/// The efforts that can be asked for.
pub open spec fn is_effort(effort: Seq<char>) -> bool {
    effort == "none"@ || effort == "minimal"@ || effort == "low"@ || effort == "medium"@ || effort
        == "high"@ || effort == "xhigh"@
}

/// A model, by its name in lower case, that thinks as much as it chooses even where its
/// name asks for thinking.
pub open spec fn is_adaptive_model(lower: Seq<char>) -> bool {
    occurs_in(lower, "opus"@) && (occurs_in(lower, "4-6"@) || occurs_in(lower, "4.6"@))
}

/// The reasoning for a model, by its name in lower case, and the effort that is asked
/// for. A model thinks where its name or an effort other than `none` asks for it; with an
/// effort alone it thinks as much as it chooses.
pub open spec fn reasoning_for(lower: Seq<char>, effort: Option<Seq<char>>) -> Result<
    ReasoningView,
    ErrorView,
> {
    let by_name = occurs_in(lower, "thinking"@);
    let adaptive = !by_name || is_adaptive_model(lower);
    if effort is Some && !is_effort(effort->0) {
        Err(invalid("Invalid reasoning.effort"@, "reasoning.effort"@))
    } else if !by_name && (effort is None || effort->0 == "none"@) {
        Ok(ReasoningView { thinking: None, effort: None })
    } else {
        Ok(
            ReasoningView {
                thinking: Some(
                    ThinkingView {
                        thinking_type: if adaptive {
                            "adaptive"@
                        } else {
                            "enabled"@
                        },
                        budget_tokens: THINKING_BUDGET,
                    },
                ),
                effort: if !adaptive {
                    None
                } else if effort is Some {
                    effort
                } else {
                    Some("high"@)
                },
            },
        )
    }
}

/// Without an effort, or with the effort `none`, only the model's name makes it think.
pub proof fn law_no_effort_leaves_it_to_the_name(lower: Seq<char>)
    ensures
        reasoning_for(lower, None) matches Ok(reasoning) && (reasoning.thinking is Some
            <==> occurs_in(lower, "thinking"@)),
        reasoning_for(lower, Some("none"@)) matches Ok(reasoning) && (reasoning.thinking is Some
            <==> occurs_in(lower, "thinking"@)),
{
}

/// Whether an effort can be asked for.
fn effort_known(effort: &str) -> (r: bool)
    ensures
        r == is_effort(effort@),
{
    same(effort, "none") || same(effort, "minimal") || same(effort, "low") || same(
        effort,
        "medium",
    ) || same(effort, "high") || same(effort, "xhigh")
}

/// The reasoning for a model, by its name in lower case.
pub fn map_reasoning_for(lower: &str, effort: Option<String>) -> (r: Result<
    (Option<Thinking>, Option<OutputConfig>),
    RequestError,
>)
    ensures
        match reasoning_for(lower@, maybe_text(effort)) {
            Ok(reasoning) => r matches Ok(found) && thinking_view(found.0) == reasoning.thinking
                && effort_view(found.1) == reasoning.effort,
            Err(error) => r matches Err(found) && found@ == error,
        },
{
    let by_name = contains(lower, "thinking");
    let mut none = true;
    if let Some(value) = &effort {
        if !effort_known(value.as_str()) {
            return Err(RequestError::new("Invalid reasoning.effort", "reasoning.effort"));
        }
        none = same(value.as_str(), "none");
    }
    if !by_name && none {
        return Ok((None, None));
    }
    let adaptive = !by_name || (contains(lower, "opus") && (contains(lower, "4-6") || contains(
        lower,
        "4.6",
    )));
    let thinking_type = if adaptive {
        "adaptive".to_owned()
    } else {
        "enabled".to_owned()
    };
    let thinking = Thinking { thinking_type, budget_tokens: THINKING_BUDGET };
    let output_config = if adaptive {
        Some(
            OutputConfig {
                effort: match effort {
                    Some(effort) => effort,
                    None => "high".to_owned(),
                },
            },
        )
    } else {
        None
    };
    Ok((Some(thinking), output_config))
}

/// The reasoning for a model.
pub fn map_reasoning(model: &str, reasoning: Option<ReasoningConfig>) -> (r: Result<
    (Option<Thinking>, Option<OutputConfig>),
    RequestError,
>)
    ensures
        match reasoning_for(lower_case(model@), asked_effort(reasoning)) {
            Ok(reasoning) => r matches Ok(found) && thinking_view(found.0) == reasoning.thinking
                && effort_view(found.1) == reasoning.effort,
            Err(error) => r matches Err(found) && found@ == error,
        },
{
    let lower = to_lower_case(model);
    let effort = match reasoning {
        Some(reasoning) => reasoning.effort,
        None => None,
    };
    map_reasoning_for(lower.as_str(), effort)
}

} // verus!
