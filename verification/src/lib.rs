//! Layered configuration resolution for the fizzy command-line application.
//!
//! Configuration values come from four sources, in ascending precedence:
//! built-in defaults < configuration file < environment variables <
//! command-line flags. The [`resolve::resolve`] function merges up to three
//! partial layers with the compiled-in defaults into one immutable
//! [`resolve::EffectiveConfig`].

pub mod cfg;
pub mod cli;
pub mod resolve;
