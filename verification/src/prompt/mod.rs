//! Prompt texts.

pub mod templates;
