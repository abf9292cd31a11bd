//! What is sent to the hosted model, and what is kept of its reply.

use vstd::prelude::*;
use vstd::string::*;
use crate::ai::prompt::{clean_sql_response, cleaned};
use crate::error::{AppError, ErrorView};

verus! {

/// Where the hosted model is asked.
pub const CLAUDE_API_URL: &'static str = "https://api.anthropic.com/v1/messages";

/// The API version named in the request.
pub const CLAUDE_API_VERSION: &'static str = "2023-06-01";

/// The most tokens that an answer may have.
pub const CLAUDE_MAX_TOKENS: u32 = 1024;

/// What came back from the model: the texts of the content blocks of a good
/// reply, the body of a reply that reported an error, or why no reply came.
#[derive(Debug, Clone, PartialEq)]
pub enum ClaudeReply {
    Content(Vec<String>),
    Rejected(String),
    Unreachable(String),
}

/// What a reply of the hosted model comes to. `label` is the name by which
/// the provider is shown to the user.
pub open spec fn claude_outcome(reply: ClaudeReply, label: Seq<char>) -> Result<
    Seq<char>,
    ErrorView,
> {
    match reply {
        ClaudeReply::Content(blocks) => Ok(
            cleaned(
                if blocks@.len() > 0 {
                    blocks@[0]@
                } else {
                    Seq::empty()
                },
            ),
        ),
        ClaudeReply::Rejected(body) => Err(ErrorView::AiError(label + " API error: "@ + body@)),
        ClaudeReply::Unreachable(why) => Err(ErrorView::AiError(why@)),
    }
}

/// The view of a statement or an error.
pub open spec fn sql_view(res: Result<String, AppError>) -> Result<Seq<char>, ErrorView> {
    match res {
        Ok(sql) => Ok(sql@),
        Err(e) => Err(e@),
    }
}

/// The statement in a reply of the hosted model: the first content block,
/// cleaned, or nothing if there is no block. A reply that reports an error,
/// and no reply at all, are errors; the first is told to the user under the
/// provider's name, `provider_label`.
pub fn generate_sql_claude(reply: &ClaudeReply, provider_label: &str) -> (res: Result<
    String,
    AppError,
>)
    ensures
        sql_view(res) == claude_outcome(*reply, provider_label@),
{
    match reply {
        ClaudeReply::Content(blocks) => {
            if blocks.len() > 0 {
                Ok(clean_sql_response(blocks[0].as_str()))
            } else {
                proof {
                    reveal_strlit("");
                    assert(""@ =~= Seq::<char>::empty());
                }
                Ok(clean_sql_response(""))
            }
        },
        ClaudeReply::Rejected(body) => {
            let mut text = String::from_str(provider_label);
            text.append(" API error: ");
            text.append(body.as_str());
            Err(AppError::AiError(text))
        },
        ClaudeReply::Unreachable(why) => Err(AppError::AiError(why.clone())),
    }
}

} // verus!
