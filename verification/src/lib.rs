//! Orchestration of repeated SVG cleaning passes.
//!
//! A text is parsed, cleaned and written back by the `svgcleaner` engine, once
//! or until the output keeps its length; the result is refused where it grew
//! without leave. This crate resolves the options, decides when to repeat a
//! pass, what survives a pass that fails, and what is returned in the end.
//! The caller makes the engine calls.

pub mod cleaner;
pub mod engine;
pub mod error;
pub mod guard;
pub mod laws;
pub mod options;
pub mod pass;
