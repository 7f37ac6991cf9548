//! Translation between an OpenAI-compatible HTTP chat surface and an Ollama-style
//! LLM backend reached through a synchronous remote call.

pub mod adaptor;
pub mod body;
pub mod error;
pub mod exchange;
pub mod handlers;
pub mod http;
pub mod json;
pub mod llm;
pub mod openai;
pub mod route;
pub mod text;
pub mod translate;
