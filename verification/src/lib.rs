//! Variant-identity equality generation for tagged-union type declarations.
//!
//! Given the parsed form of a type declaration, the generator checks that the
//! declaration is a tagged union, extracts its name and generic parameters,
//! and synthesizes a code fragment that grants the type the two standard
//! comparison capabilities, both implemented by comparing the variant
//! discriminant of each operand and ignoring every field value.

pub mod decl;
pub mod generate;
pub mod semantics;
