//! Renders a described struct as a type definition in Rust, Go, Python,
//! TypeScript, Java and C#.
//!
//! A [`shape::StructDescription`] holds a struct's name and its fields in
//! declaration order. [`assemble::struct_to_string`] maps every field type
//! into each target language and collects the field lines;
//! the accessors of [`assemble::StructStrings`] wrap them into full blocks.

pub mod text;
pub mod literal;
pub mod shape;
pub mod render;
pub mod assemble;
pub mod laws;
