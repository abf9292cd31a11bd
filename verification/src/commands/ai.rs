//! Choosing the model to ask and putting the request together.

use vstd::prelude::*;
use vstd::string::*;
use crate::ai::prompt::{build_system_prompt, DEFAULT_OLLAMA_MODEL, DEFAULT_OLLAMA_URL, PROMPT_HEAD, PROMPT_TAIL};
use crate::error::{AppError, ErrorView};
use crate::types::ai::{AiProvider, GenerateSqlRequest};

verus! {

/// A request ready to be sent to a model.
#[derive(Debug, Clone, PartialEq)]
pub enum AiCall {
    Claude { api_key: String, system_prompt: String, user_prompt: String },
    Ollama { base_url: String, model: String, system_prompt: String, user_prompt: String },
}

/// A request ready to be sent, as a mathematical value.
pub enum AiCallView {
    Claude { api_key: Seq<char>, system_prompt: Seq<char>, user_prompt: Seq<char> },
    Ollama {
        base_url: Seq<char>,
        model: Seq<char>,
        system_prompt: Seq<char>,
        user_prompt: Seq<char>,
    },
}

impl View for AiCall {
    type V = AiCallView;

    open spec fn view(&self) -> AiCallView {
        match self {
            AiCall::Claude { api_key, system_prompt, user_prompt } => AiCallView::Claude {
                api_key: api_key@,
                system_prompt: system_prompt@,
                user_prompt: user_prompt@,
            },
            AiCall::Ollama { base_url, model, system_prompt, user_prompt } => AiCallView::Ollama {
                base_url: base_url@,
                model: model@,
                system_prompt: system_prompt@,
                user_prompt: user_prompt@,
            },
        }
    }
}

/// A text that may be absent, or a default.
pub open spec fn text_or(s: Option<String>, default: Seq<char>) -> Seq<char> {
    match s {
        Some(s) => s@,
        None => default,
    }
}

/// What a request comes to: the call to make, or, for the hosted model
/// without a key, an error that names the provider by `label`.
pub open spec fn planned(request: GenerateSqlRequest, label: Seq<char>) -> Result<
    AiCallView,
    ErrorView,
> {
    let system_prompt = PROMPT_HEAD@ + request.schema_context@ + PROMPT_TAIL@;
    match request.provider {
        AiProvider::Claude => match request.api_key {
            Some(key) => Ok(
                AiCallView::Claude {
                    api_key: key@,
                    system_prompt,
                    user_prompt: request.prompt@,
                },
            ),
            None => Err(ErrorView::AiError(label + " API key not configured"@)),
        },
        AiProvider::Ollama => Ok(
            AiCallView::Ollama {
                base_url: text_or(request.ollama_base_url, DEFAULT_OLLAMA_URL@),
                model: text_or(request.ollama_model, DEFAULT_OLLAMA_MODEL@),
                system_prompt,
                user_prompt: request.prompt@,
            },
        ),
    }
}

/// The view of a call or an error.
pub open spec fn call_view(res: Result<AiCall, AppError>) -> Result<AiCallView, ErrorView> {
    match res {
        Ok(call) => Ok(call@),
        Err(e) => Err(e@),
    }
}

/// Decides which model a request goes to and with what. The hosted model
/// needs a key; the local one falls back on its default address and model.
/// `provider_label` is the name by which the provider is shown to the user.
pub fn generate_sql(request: GenerateSqlRequest, provider_label: &str) -> (res: Result<
    AiCall,
    AppError,
>)
    ensures
        call_view(res) == planned(request, provider_label@),
{
    let system_prompt = build_system_prompt(request.schema_context.as_str());
    match request.provider {
        AiProvider::Claude => match request.api_key {
            Some(api_key) => Ok(
                AiCall::Claude { api_key, system_prompt, user_prompt: request.prompt },
            ),
            None => {
                let mut text = String::from_str(provider_label);
                text.append(" API key not configured");
                Err(AppError::AiError(text))
            },
        },
        AiProvider::Ollama => {
            let base_url = match request.ollama_base_url {
                Some(url) => url,
                None => String::from_str(DEFAULT_OLLAMA_URL),
            };
            let model = match request.ollama_model {
                Some(model) => model,
                None => String::from_str(DEFAULT_OLLAMA_MODEL),
            };
            Ok(AiCall::Ollama { base_url, model, system_prompt, user_prompt: request.prompt })
        },
    }
}

} // verus!
