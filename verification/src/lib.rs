//! An mdbook preprocessor that evaluates the book's chapters as minijinja
//! templates.
//!
//! The crate holds the preprocessor's logic: anchor-based path resolution,
//! the context objects exposed to templates, engine configuration, and the
//! document-tree rewrite pipeline. The templating engine itself is consumed
//! through a small set of trusted wrappers; process I/O lives outside the
//! library.

pub mod config;
pub mod dynamic_env;
pub mod engine;
pub mod extra_globals;
pub mod functions;
pub mod paths;
pub mod preprocessor;
pub mod strings;
