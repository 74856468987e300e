//! The optional text-improvement round trip: the chat request that asks
//! for a cleaned-up version of a transcription, and the decision on the
//! reply.

use crate::json::{json_string, json_string_literal};
use vstd::prelude::*;
use vstd::string::*;

verus! {

/// The instruction sent with every request: edit the speech, fix the
/// grammar and punctuation, soften coarse language, make the tone
/// formal and polite, and answer with the corrected text alone.
pub const IMPROVE_PROMPT: &'static str = "Ты редактор текста. Улучши речь: исправь грамматику, добавь знаки препинания, замени мат на культурные выражения, сделай текст более официальным и вежливым. Верни ТОЛЬКО исправленный текст, без пояснений.";

/// The body of the request for `model` to improve `text`: a system
/// message with `IMPROVE_PROMPT`, a user message with the text, and a
/// cap of 2048 tokens on the answer.
pub open spec fn request_body(model: Seq<char>, text: Seq<char>) -> Seq<char> {
    "{\"model\":"@ + json_string_literal(model) + ",\"messages\":[{\"role\":\"system\",\"content\":"@
        + json_string_literal(IMPROVE_PROMPT@) + "},{\"role\":\"user\",\"content\":"@
        + json_string_literal(text) + "}],\"max_tokens\":2048}"@
}

/// Writes the request body asking `model` to improve `text`.
pub fn improvement_request(model: &str, text: &str) -> (r: String)
    ensures
        r@ == request_body(model@, text@),
{
    let mut body = String::from_str("{\"model\":");
    body.append(json_string(model).as_str());
    body.append(",\"messages\":[{\"role\":\"system\",\"content\":");
    body.append(json_string(IMPROVE_PROMPT).as_str());
    body.append("},{\"role\":\"user\",\"content\":");
    body.append(json_string(text).as_str());
    body.append("}],\"max_tokens\":2048}");
    body
}

/// The error member of a reply.
#[derive(Debug)]
pub struct ApiFailure {
    pub message: Option<String>,
}

/// What a reply says: the content of each choice's message, if the
/// reply lists choices, and the error member, if there is one.
#[derive(Debug)]
pub struct ChatReply {
    pub contents: Option<Vec<String>>,
    pub error: Option<ApiFailure>,
}

/// Why a reply gave no improved text.
#[derive(Debug, PartialEq, Eq)]
pub enum ImproveError {
    /// The service reported an error, with its message if it gave one.
    Api { message: Option<String> },
    /// The reply held no choice.
    NoResponse,
}

/// The improved text in a reply: an error member wins; otherwise the
/// first choice's content; otherwise there is no response.
pub fn reply_text(reply: ChatReply) -> (r: Result<String, ImproveError>)
    ensures
        match reply.error {
            Some(failure) => r == Err::<String, ImproveError>(
                ImproveError::Api { message: failure.message },
            ),
            None => match reply.contents {
                Some(contents) => if contents@.len() > 0 {
                    r == Ok::<String, ImproveError>(contents@[0])
                } else {
                    r == Err::<String, ImproveError>(ImproveError::NoResponse)
                },
                None => r == Err::<String, ImproveError>(ImproveError::NoResponse),
            },
        },
{
    if let Some(failure) = reply.error {
        return Err(ImproveError::Api { message: failure.message });
    }
    match reply.contents {
        Some(mut contents) => {
            if contents.len() > 0 {
                Ok(contents.swap_remove(0))
            } else {
                Err(ImproveError::NoResponse)
            }
        },
        None => Err(ImproveError::NoResponse),
    }
}

} // verus!
