//! Generation client: the request body and the classification of the
//! remote response.
//!
//! The surrounding application performs the one blocking HTTP exchange;
//! this module builds the request it sends and classifies what came back.
//! Classification depends only on the status, the body text, and the
//! parsed choice texts, so it is verified for every possible response.

use vstd::prelude::*;
use crate::assemble::PromptPair;

verus! {

/// One chat message of the request: a role and its text.
#[derive(Debug, Clone)]
pub struct Message {
    pub role: String,
    pub content: String,
}

/// The reasoning toggle of the request (wire name `type`), fixed to
/// `disabled`: the service must answer without a thinking phase.
#[derive(Debug, Clone)]
pub struct Thinking {
    pub kind: String,
}

impl Default for Thinking {
    fn default() -> (r: Thinking)
        ensures
            r.kind@ == "disabled"@,
    {
        Thinking { kind: "disabled".to_owned() }
    }
}

/// One generation request: the model, the ordered messages, an optional
/// output budget, and the reasoning toggle. The application adds the
/// optional temperature, which this library does not touch, when it
/// serializes the request.
#[derive(Debug)]
pub struct ChatRequest {
    pub model: String,
    pub thinking: Thinking,
    pub messages: Vec<Message>,
    pub max_tokens: Option<usize>,
}

/// Build the request for one prompt pair: a system message followed by a
/// user message, reasoning disabled.
pub fn build_chat_request(model: &String, prompts: &PromptPair, max_tokens: Option<usize>) -> (r:
    ChatRequest)
    ensures
        r.model@ == model@,
        r.thinking.kind@ == "disabled"@,
        r.max_tokens == max_tokens,
        r.messages@.len() == 2,
        r.messages@[0].role@ == "system"@,
        r.messages@[0].content@ == prompts.system@,
        r.messages@[1].role@ == "user"@,
        r.messages@[1].content@ == prompts.user@,
{
    let system_message = Message { role: "system".to_owned(), content: prompts.system.clone() };
    let user_message = Message { role: "user".to_owned(), content: prompts.user.clone() };
    let mut messages: Vec<Message> = Vec::new();
    messages.push(system_message);
    messages.push(user_message);
    ChatRequest { model: model.clone(), thinking: Thinking::default(), messages, max_tokens }
}

/// Why a generation attempt produced no usable message.
#[derive(Debug, PartialEq, Eq, Structural, Clone, Copy)]
pub enum FailureKind {
    /// The remote call failed or returned a non-success status.
    ApiError,
    /// The call succeeded but returned no completion choice.
    EmptyResponse,
}

/// The outcome of one generation attempt.
#[derive(Debug)]
pub enum GenerationResult {
    Success(String),
    Failure(FailureKind, String),
}

/// An HTTP status that counts as success.
pub open spec fn status_ok(status: u16) -> bool {
    200 <= status < 300
}

/// Classify one response. `choices` holds the texts of the parsed
/// completion choices, or `None` when the body did not parse as the
/// expected shape.
pub fn classify_response(status: u16, body: String, choices: Option<Vec<String>>) -> (r:
    GenerationResult)
    ensures
        !status_ok(status) ==> (r matches GenerationResult::Failure(k, d) && k
            == FailureKind::ApiError && d@ == body@),
        status_ok(status) ==> match choices {
            None => r matches GenerationResult::Failure(k, d) && k == FailureKind::ApiError && d@
                == body@,
            Some(cs) => {
                if cs@.len() == 0 {
                    r matches GenerationResult::Failure(k, d) && k == FailureKind::EmptyResponse
                        && d@ == "no choices returned"@
                } else {
                    r matches GenerationResult::Success(m) && m@ == cs@[0]@
                }
            },
        },
{
    if !(200 <= status && status < 300) {
        return GenerationResult::Failure(FailureKind::ApiError, body);
    }
    match choices {
        None => GenerationResult::Failure(FailureKind::ApiError, body),
        Some(cs) => {
            if cs.len() == 0 {
                GenerationResult::Failure(
                    FailureKind::EmptyResponse,
                    "no choices returned".to_owned(),
                )
            } else {
                GenerationResult::Success(cs[0].clone())
            }
        },
    }
}

} // verus!
