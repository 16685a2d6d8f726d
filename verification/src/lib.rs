//! Rendering of legacy conversation templates into a single prompt string.
//!
//! A [`LegacySpec`] describes a conversation template (roles, separators, a
//! system template and a separator style); a [`LegacyFormatter`] renders a
//! chat request with it.
use vstd::prelude::*;

pub mod text;
pub mod audio;
pub mod template;
pub mod formatter;
pub mod request;
pub mod laws;
pub mod names;
pub mod style_laws;

pub use formatter::{parse_style, sep2, sep_even_odd, LegacyFormatter};
pub use request::{
    AssistantContent, AssistantPart, ChatMessage, ChatRequest, SystemContent, SystemPart,
    UserContent, UserPart, extract_assistant_text, extract_system_text,
};
pub use template::{LegacySpec, OneOrMany, Style, TemplateError};

verus! {

} // verus!
