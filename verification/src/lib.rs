//! Scaffolds the command-line dispatch layer of a generated API client.
//!
//! The library reads the source modules produced by an external API-binding
//! generator, discovers which API modules and operations they declare, and
//! emits one subcommand source unit per API plus one aggregator unit wiring
//! everything into a top-level command enum with polymorphic dispatch.
//!
//! File reading and writing stay with the caller: every function here maps
//! plain input values to plain output values.

pub mod driver;
pub mod emit;
pub mod extract;
pub mod names;
pub mod shell;
pub mod strings;
pub mod syntax;
pub mod terminal;
