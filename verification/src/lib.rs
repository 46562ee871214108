//! Planning and synthesis of builder companions for record types.
//!
//! A record is described by its ordered, named, typed fields. For each
//! field the crate parses the `builder(..)` annotation, classifies the
//! declared type, plans storage, setters and finalization, resolves setter
//! name conflicts, and assembles the builder: as a structured description,
//! as source text, and as a value that behaves as the generated code does.

pub mod schema;
pub mod shape;
pub mod annotation;
pub mod plan;
pub mod resolve;
pub mod synth;
pub mod generate;
pub mod emit;
pub mod runtime;
pub mod laws;
