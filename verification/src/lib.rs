//! A verified data model for compiler-style diagnostic reports: a
//! severity-tagged message anchored to a span of source text, decorated
//! with colored annotation labels, notes and helps, over one primary and
//! any number of auxiliary sources. The model validates spans and severity
//! declarations eagerly, auto-assigns label colors from a deterministic
//! palette sequence, and hands a finished snapshot — the report plus its
//! ordered source list — to an external rendering engine.

pub mod color;
pub mod color_generator;
pub mod config;
pub mod error;
pub mod label;
pub mod report;
pub mod text;
