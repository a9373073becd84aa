//! Provider-agnostic client library for LLM chat APIs: a unified conversation
//! model, its mapping to and from vendor wire formats, streaming accumulation,
//! and the decision logic of an autonomous tool-calling agent.
use vstd::prelude::*;

pub mod agent;
pub mod anthropic;
pub mod client;
pub mod gemini;
pub mod json;
pub mod mcp;
pub mod model;
pub mod openai;
pub mod providers;
pub mod options;
pub mod sse;
pub mod stream;
pub mod text;
pub mod tools;
