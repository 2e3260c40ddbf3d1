//! A harness that tells whether a rewritten terminal program behaves as the
//! program it replaces: it finds each project's entry point, plans its build,
//! derives the command-line arguments of a scenario, and compares what the two
//! programs print.

pub mod builder;
pub mod comparator;
pub mod engine;
pub mod errors;
pub mod extractor;
pub mod harness;
pub mod json;
pub mod paths;
pub mod project;
pub mod resolver;
pub mod scenarios;
pub mod text;
pub mod types;
