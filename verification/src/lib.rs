//! Building blocks of a zsh module written in Rust: the values that a module
//! hands to zsh (parameter names, scripts, highlight records, widget names)
//! and the decisions taken around the calls into zsh, each with its contract.

pub mod error;
pub mod fd;
pub mod highlight_loop;
pub mod highlighter;
pub mod module_builder;
mod module_trait;
pub mod prompt;
pub mod reader;
pub mod syntect_defaults;
pub mod text;
pub mod zle;
pub mod zsh;

pub use module_trait::Module;
pub use zle::Zle;
pub use zsh::Zsh;
