//! Compiler for a declarative entity-component schema: validates a raw schema
//! model into a typed `Spec` and projects it into the descriptor consumed by a
//! downstream code generator.

pub mod strutil;
pub mod names;
pub mod tokens;
pub mod input;
pub mod output;
pub mod error;
pub mod spec;
