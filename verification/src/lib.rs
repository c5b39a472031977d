//! A verified core for a command-line bibliography shell: a tokenizer that
//! splits quoted, pipe-chained command lines into argument vectors, a filter
//! compiler that turns arguments into per-field pattern constraints, a
//! `cd`-style filter-history state machine, and the pipeline that threads a
//! paper selection through a chain of commands.

pub mod cmd;
pub mod config;
pub mod error;
pub mod filter;
pub mod paper;
pub mod state;
pub mod strutil;
pub mod utils;
