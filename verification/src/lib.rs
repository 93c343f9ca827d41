//! Extraction of dependency references from CSS source text.
//!
//! A stylesheet depends on other assets in two ways: through `@import` rules
//! and through `url()` references inside declaration values. This crate parses
//! a stylesheet with a CSS engine (error recovery enabled), asks the engine for
//! its dependency analysis while serializing, and partitions the reported
//! dependency list into two ordered lists of url strings: imports and url
//! references. Nothing is resolved against a filesystem and nothing is
//! persisted; each call is an independent, single-pass transformation.

pub mod deps;
pub mod engine;
pub mod extract;

pub use crate::deps::Dep;
pub use crate::deps::SpecDep;
pub use crate::engine::ExtractError;
pub use crate::extract::ParseResult;
pub use crate::extract::extract;
pub use crate::extract::parse;
