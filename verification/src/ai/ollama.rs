//! What is sent to a local model, and what is kept of its reply.

use vstd::prelude::*;
use vstd::string::*;
use crate::ai::claude::sql_view;
use crate::ai::prompt::{clean_sql_response, cleaned};
use crate::error::{AppError, ErrorView};
use crate::text::{owned, trim_end_matches, without_suffixes};

verus! {

/// The one prompt of a local model: the instructions, then the request.
pub open spec fn ollama_prompt_text(system_prompt: Seq<char>, user_prompt: Seq<char>) -> Seq<char> {
    system_prompt + "\n\nUser request: "@ + user_prompt
}

/// Joins the instructions and the user's request into one prompt.
pub fn ollama_prompt(system_prompt: &str, user_prompt: &str) -> (prompt: String)
    ensures
        prompt@ == ollama_prompt_text(system_prompt@, user_prompt@),
{
    let mut prompt = String::from_str(system_prompt);
    prompt.append("\n\nUser request: ");
    prompt.append(user_prompt);
    prompt
}

/// Where a local model is asked: the base address without the slashes at its
/// end, then `/api/generate`.
pub fn ollama_url(base_url: &str) -> (url: String)
    ensures
        url@ == without_suffixes(base_url@, "/"@) + "/api/generate"@,
{
    proof {
        reveal_strlit("/");
    }
    let mut url = owned(trim_end_matches(base_url, "/"));
    url.append("/api/generate");
    url
}

/// What came back from the model: the answer of a good reply, the body of a
/// reply that reported an error, why no reply came, or why the reply could
/// not be read.
#[derive(Debug, Clone, PartialEq)]
pub enum OllamaReply {
    Response(String),
    Rejected(String),
    Unreachable(String),
    Unreadable(String),
}

/// What a reply of a local model comes to.
pub open spec fn ollama_outcome(reply: OllamaReply) -> Result<Seq<char>, ErrorView> {
    match reply {
        OllamaReply::Response(answer) => Ok(cleaned(answer@)),
        OllamaReply::Rejected(body) => Err(ErrorView::AiError("Ollama API error: "@ + body@)),
        OllamaReply::Unreachable(why) => Err(
            ErrorView::AiError("Ollama connection error: "@ + why@),
        ),
        OllamaReply::Unreadable(why) => Err(ErrorView::AiError(why@)),
    }
}

/// The statement in a reply of a local model: its answer, cleaned. A reply
/// that reports an error, no reply, and a reply that cannot be read are
/// errors.
pub fn generate_sql_ollama(reply: &OllamaReply) -> (res: Result<String, AppError>)
    ensures
        sql_view(res) == ollama_outcome(*reply),
{
    match reply {
        OllamaReply::Response(answer) => Ok(clean_sql_response(answer.as_str())),
        OllamaReply::Rejected(body) => {
            let mut text = String::from_str("Ollama API error: ");
            text.append(body.as_str());
            Err(AppError::AiError(text))
        },
        OllamaReply::Unreachable(why) => {
            let mut text = String::from_str("Ollama connection error: ");
            text.append(why.as_str());
            Err(AppError::AiError(text))
        },
        OllamaReply::Unreadable(why) => Err(AppError::AiError(why.clone())),
    }
}

} // verus!
