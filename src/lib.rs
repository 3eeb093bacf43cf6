//! Helper injection for the lowering pipeline: lowering passes mark the runtime
//! helpers that their output needs, and a terminal pass prepends exactly those
//! helper definitions, parsed once and stripped of positions, to each module.

pub mod cache;
pub mod catalog;
pub mod flags;
pub mod inject;
pub mod kind;
pub mod syntax;
