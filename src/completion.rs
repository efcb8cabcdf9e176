//! Framing of a completion request and reading of its response.

use vstd::prelude::*;
use vstd::string::*;
use crate::json::{json_quoted, json_text_at, quote_json, text_at};

verus! {

/// The model that questions are put to.
pub const COMPLETION_MODEL: &'static str = "gpt-4.1";

/// Why a completion brought no answer.
#[derive(Clone, Copy, Debug, PartialEq, Eq, Structural)]
pub enum CompletionError {
    /// The request did not reach the service, or its response was cut off.
    Transport,
    /// The service answered with a status outside 200..300.
    Status(u16),
    /// The response held no first choice with a text.
    Malformed,
}

/// The request body: `{"model":…,"messages":[{"role":"user","content":…}]}`.
pub open spec fn request_of(model: Seq<char>, prompt: Seq<char>) -> Seq<char> {
    "{\"model\":"@ + json_quoted(model) + ",\"messages\":[{\"role\":\"user\",\"content\":"@
        + json_quoted(prompt) + "}]}"@
}

/// Where the answer stands in a response body.
pub open spec fn answer_pointer() -> Seq<char> {
    "/choices/0/message/content"@
}

/// The text that the user sees when a completion fails, whatever the cause.
pub open spec fn failure_text() -> Seq<char> {
    "Error contacting OpenAI."@
}

/// The JSON body that asks `model` to answer `prompt`, with one user message.
pub fn request_body(model: &str, prompt: &str) -> (r: String)
    ensures
        r@ == request_of(model@, prompt@),
{
    let m = quote_json(model);
    let p = quote_json(prompt);
    let mut out = String::from_str("{\"model\":");
    out.append(m.as_str());
    out.append(",\"messages\":[{\"role\":\"user\",\"content\":");
    out.append(p.as_str());
    out.append("}]}");
    out
}

/// The answer in a response with HTTP status `status` and body `body`: the
/// first choice's text where the status is a success.
pub fn read_response(status: u16, body: &str) -> (r: Result<String, CompletionError>)
    ensures
        !(200 <= status < 300) ==> r == Err::<String, CompletionError>(
            CompletionError::Status(status),
        ),
        200 <= status < 300 ==> match json_text_at(body@, answer_pointer()) {
            Some(t) => r matches Ok(a) && a@ == t,
            None => r == Err::<String, CompletionError>(CompletionError::Malformed),
        },
{
    if status < 200 || status >= 300 {
        return Err(CompletionError::Status(status));
    }
    match text_at(body, "/choices/0/message/content") {
        Some(t) => Ok(t),
        None => Err(CompletionError::Malformed),
    }
}

/// The reply to a question: the answer, or one fixed text for any failure.
pub fn answer_text(outcome: Result<String, CompletionError>) -> (r: String)
    ensures
        outcome matches Ok(a) ==> r@ == a@,
        outcome is Err ==> r@ == failure_text(),
{
    match outcome {
        Ok(a) => a,
        Err(_) => String::from_str("Error contacting OpenAI."),
    }
}

} // verus!
