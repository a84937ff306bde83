//! A thin, verified wrapper around an embedded typesetting compiler.
//!
//! The crate substitutes a JSON payload into a fixed placeholder token of a
//! template, models the compiler's host environment (one in-memory main
//! document, an empty auxiliary-file table, a shared font set, a frozen
//! clock), and turns the compiler's outcome into either rendered page bytes
//! or a single joined diagnostic string.

pub mod compile;
pub mod fonts;
pub mod subst;
pub mod world;
