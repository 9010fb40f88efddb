//! Prompt templates for reranking models.
//!
//! Detects, by model name, whether a reranking model expects a structured
//! chat-style prompt, and renders that prompt deterministically from a
//! query, a document, and an optional instruction.

pub mod substring;
pub mod templates;

pub use substring::str_contains;
pub use templates::get_template_formatter;
pub use templates::requires_template;
pub use templates::Qwen3RerankerTemplate;
pub use templates::TemplateFormatter;
