//! Macro expansion and command-line argument construction for string-typed
//! build-rule attributes.
//!
//! A build rule may write an attribute as a templated string containing
//! embedded macros ("expand to this target's default outputs", "expand to
//! this target's executable", "substitute a placeholder"). Once the
//! dependency graph is configured, such an attribute is resolved into an
//! immutable sequence of literal and macro parts; that resolved value is then
//! read by three independent consumers: the command-line assembler, the
//! artifact enumerator, and the write-to-file enumerator.

pub mod cmdline;
pub mod ctx;
pub mod data;
pub mod errors;
pub mod laws;
pub mod lookup;
pub mod resolve;
pub mod text;
pub mod visit;
