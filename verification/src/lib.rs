//! Generation of the builder pattern for record types.
//!
//! Given a structural description of a type (its name and, when it is a
//! record with named fields, the ordered field list), the crate derives the
//! source fragments of a companion builder type: the builder's own field
//! list, an entry point that yields an empty builder, one setter per field,
//! and a terminal `build` operation that assembles the original type.

pub mod builder_model;
pub mod descriptor;
pub mod emit;
pub mod expand;
pub mod laws;
