//! Vendors and their endpoints.
//!
//! Each OpenAI-compatible vendor has a model-options type (empty: these vendors
//! take no options beyond the shared ones) and a provider type; Anthropic and
//! Gemini have their own formats. Clients are built from these elsewhere.
use vstd::prelude::*;
use crate::client::ClientError;

verus! {

/// Model options of a vendor that speaks the OpenAI Chat Completions format.
pub trait OpenAICompatibleModel: Sized {
}

/// An OpenAI-compatible vendor and the API base it is reached at by default.
pub trait OpenAiCompatibleModel: OpenAICompatibleModel {
    spec fn spec_api_base() -> Option<Seq<char>>;

    /// The default API base; `None` when the caller must give one.
    fn default_api_base() -> (r: Option<String>)
        ensures
            (match r {
                Some(s) => Some(s@),
                None => None,
            }) == Self::spec_api_base(),
    ;
}

/// DeepSeek model options.
#[derive(Clone, Copy, Debug, Default, PartialEq, Eq)]
pub struct DeepSeekModel;

impl OpenAICompatibleModel for DeepSeekModel {
}

impl OpenAiCompatibleModel for DeepSeekModel {
    open spec fn spec_api_base() -> Option<Seq<char>> {
        Some("https://api.deepseek.com"@)
    }

    fn default_api_base() -> (r: Option<String>) {
        Some(String::from_str("https://api.deepseek.com"))
    }
}

/// The DeepSeek provider.
pub struct DeepSeek;

/// Fireworks model options.
#[derive(Clone, Copy, Debug, Default, PartialEq, Eq)]
pub struct FireworksModel;

impl OpenAICompatibleModel for FireworksModel {
}

impl OpenAiCompatibleModel for FireworksModel {
    open spec fn spec_api_base() -> Option<Seq<char>> {
        Some("https://api.fireworks.ai/inference"@)
    }

    fn default_api_base() -> (r: Option<String>) {
        Some(String::from_str("https://api.fireworks.ai/inference"))
    }
}

/// The Fireworks provider.
pub struct Fireworks;

/// Groq model options.
#[derive(Clone, Copy, Debug, Default, PartialEq, Eq)]
pub struct GroqModel;

impl OpenAICompatibleModel for GroqModel {
}

impl OpenAiCompatibleModel for GroqModel {
    open spec fn spec_api_base() -> Option<Seq<char>> {
        Some("https://api.groq.com/openai/v1"@)
    }

    fn default_api_base() -> (r: Option<String>) {
        Some(String::from_str("https://api.groq.com/openai/v1"))
    }
}

/// The Groq provider.
pub struct Groq;

/// Hyperbolic model options.
#[derive(Clone, Copy, Debug, Default, PartialEq, Eq)]
pub struct HyperbolicModel;

impl OpenAICompatibleModel for HyperbolicModel {
}

impl OpenAiCompatibleModel for HyperbolicModel {
    open spec fn spec_api_base() -> Option<Seq<char>> {
        Some("https://api.hyperbolic.xyz"@)
    }

    fn default_api_base() -> (r: Option<String>) {
        Some(String::from_str("https://api.hyperbolic.xyz"))
    }
}

/// The Hyperbolic provider.
pub struct Hyperbolic;

/// Mistral model options.
#[derive(Clone, Copy, Debug, Default, PartialEq, Eq)]
pub struct MistralModel;

impl OpenAICompatibleModel for MistralModel {
}

impl OpenAiCompatibleModel for MistralModel {
    open spec fn spec_api_base() -> Option<Seq<char>> {
        Some("https://api.mistral.ai"@)
    }

    fn default_api_base() -> (r: Option<String>) {
        Some(String::from_str("https://api.mistral.ai"))
    }
}

/// The Mistral provider.
pub struct Mistral;

/// Moonshot model options.
#[derive(Clone, Copy, Debug, Default, PartialEq, Eq)]
pub struct MoonshotModel;

impl OpenAICompatibleModel for MoonshotModel {
}

impl OpenAiCompatibleModel for MoonshotModel {
    open spec fn spec_api_base() -> Option<Seq<char>> {
        Some("https://api.moonshot.cn"@)
    }

    fn default_api_base() -> (r: Option<String>) {
        Some(String::from_str("https://api.moonshot.cn"))
    }
}

/// The Moonshot provider.
pub struct Moonshot;

/// Ollama model options.
#[derive(Clone, Copy, Debug, Default, PartialEq, Eq)]
pub struct OllamaModel;

impl OpenAICompatibleModel for OllamaModel {
}

impl OpenAiCompatibleModel for OllamaModel {
    open spec fn spec_api_base() -> Option<Seq<char>> {
        None
    }

    fn default_api_base() -> (r: Option<String>) {
        None
    }
}

/// The Ollama provider.
pub struct Ollama;

/// OpenAi model options.
#[derive(Clone, Copy, Debug, Default, PartialEq, Eq)]
pub struct OpenAiModel;

impl OpenAICompatibleModel for OpenAiModel {
}

impl OpenAiCompatibleModel for OpenAiModel {
    open spec fn spec_api_base() -> Option<Seq<char>> {
        Some("https://api.openai.com"@)
    }

    fn default_api_base() -> (r: Option<String>) {
        Some(String::from_str("https://api.openai.com"))
    }
}

/// The OpenAi provider.
pub struct OpenAi;

/// OpenRouter model options.
#[derive(Clone, Copy, Debug, Default, PartialEq, Eq)]
pub struct OpenRouterModel;

impl OpenAICompatibleModel for OpenRouterModel {
}

impl OpenAiCompatibleModel for OpenRouterModel {
    open spec fn spec_api_base() -> Option<Seq<char>> {
        Some("https://openrouter.ai/api"@)
    }

    fn default_api_base() -> (r: Option<String>) {
        Some(String::from_str("https://openrouter.ai/api"))
    }
}

/// The OpenRouter provider.
pub struct OpenRouter;

/// Perplexity model options.
#[derive(Clone, Copy, Debug, Default, PartialEq, Eq)]
pub struct PerplexityModel;

impl OpenAICompatibleModel for PerplexityModel {
}

impl OpenAiCompatibleModel for PerplexityModel {
    open spec fn spec_api_base() -> Option<Seq<char>> {
        Some("https://api.perplexity.ai"@)
    }

    fn default_api_base() -> (r: Option<String>) {
        Some(String::from_str("https://api.perplexity.ai"))
    }
}

/// The Perplexity provider.
pub struct Perplexity;

/// Together model options.
#[derive(Clone, Copy, Debug, Default, PartialEq, Eq)]
pub struct TogetherModel;

impl OpenAICompatibleModel for TogetherModel {
}

impl OpenAiCompatibleModel for TogetherModel {
    open spec fn spec_api_base() -> Option<Seq<char>> {
        Some("https://api.together.xyz"@)
    }

    fn default_api_base() -> (r: Option<String>) {
        Some(String::from_str("https://api.together.xyz"))
    }
}

/// The Together provider.
pub struct Together;

/// XAI model options.
#[derive(Clone, Copy, Debug, Default, PartialEq, Eq)]
pub struct XAIModel;

impl OpenAICompatibleModel for XAIModel {
}

impl OpenAiCompatibleModel for XAIModel {
    open spec fn spec_api_base() -> Option<Seq<char>> {
        Some("https://api.x.ai"@)
    }

    fn default_api_base() -> (r: Option<String>) {
        Some(String::from_str("https://api.x.ai"))
    }
}

/// The XAI provider.
pub struct XAI;

/// The Anthropic provider.
pub struct Anthropic;

/// The Gemini provider.
pub struct Gemini;

impl Anthropic {
    /// The Anthropic API base.
    pub fn base_url() -> (r: String)
        ensures
            r@ == "https://api.anthropic.com/v1"@,
    {
        String::from_str("https://api.anthropic.com/v1")
    }
}

impl Gemini {
    /// The Gemini API base.
    pub fn base_url() -> (r: String)
        ensures
            r@ == "https://generativelanguage.googleapis.com/v1beta"@,
    {
        String::from_str("https://generativelanguage.googleapis.com/v1beta")
    }
}

impl Ollama {
    /// The API key a local Ollama server accepts.
    pub fn api_key() -> (r: String)
        ensures
            r@ == "ollama"@,
    {
        String::from_str("ollama")
    }
}

/// The model must be named before any request is made.
pub fn require_model(model: &str) -> (r: Result<(), ClientError>)
    ensures
        model@.len() > 0 <==> r is Ok,
        r matches Err(e) ==> e matches ClientError::Config(m) && m@ == "Model must be specified"@,
{
    if model.unicode_len() == 0 {
        Err(ClientError::Config(String::from_str("Model must be specified")))
    } else {
        Ok(())
    }
}

/// `{base}/chat/completions`.
pub fn chat_completions_url(base: &str) -> (r: String)
    ensures
        r@ == base@ + "/chat/completions"@,
{
    let mut r = String::from_str(base);
    r.append("/chat/completions");
    r
}

/// `{base}/messages`.
pub fn messages_url(base: &str) -> (r: String)
    ensures
        r@ == base@ + "/messages"@,
{
    let mut r = String::from_str(base);
    r.append("/messages");
    r
}

/// `{base}/models/{model}:generateContent?key={key}`, or for streaming
/// `{base}/models/{model}:streamGenerateContent?alt=sse&key={key}`.
pub fn generate_content_url(base: &str, model: &str, key: &str, stream: bool) -> (r: String)
    ensures
        stream ==> r@ == base@ + "/models/"@ + model@ + ":streamGenerateContent?alt=sse&key="@ + key@,
        !stream ==> r@ == base@ + "/models/"@ + model@ + ":generateContent?key="@ + key@,
{
    let mut r = String::from_str(base);
    r.append("/models/");
    r.append(model);
    if stream {
        r.append(":streamGenerateContent?alt=sse&key=");
    } else {
        r.append(":generateContent?key=");
    }
    r.append(key);
    r
}

} // verus!
