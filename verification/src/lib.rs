//! A binding-generation engine for an embedded Python runtime.
//!
//! A *declaration* describes a path into the runtime's object model together
//! with the shape of a statically typed wrapper function; the engine
//! classifies the declaration, canonicalizes its shorthand forms, splits
//! attribute chains for setters, and synthesizes the source text of a wrapper
//! function that performs the import / attribute traversal / call / value
//! extraction at runtime, holding an exclusive-access token for the whole
//! interaction.

pub mod decl;
pub mod dict;
pub mod dispatch;
pub mod engine;
pub mod laws;
pub mod normalize;
pub mod path_split;
pub mod protocol;
pub mod render;
pub mod synth;
