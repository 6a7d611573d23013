//! Run-time reflection over a registry of type schemas: discover a value's
//! shape, borrow its fields by name or position, and build values from
//! type-erased arguments.
pub mod decl;
pub mod errors;
pub mod laws;
pub mod registry;
pub mod schema;
pub mod value;
