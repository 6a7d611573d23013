//! The two failure taxonomies of the reflection protocol.
use vstd::prelude::*;

verus! {

/// Why borrowing a field failed.
#[derive(Debug, Clone, PartialEq, Eq)]
pub enum FieldAccessError {
    /// The requested type does not match the field's type.
    UnmatchingType,
    /// The type, or its active variant, has no fields.
    Unit,
    /// No field with that identifier exists in the (active) shape.
    NotFound,
}

/// Why building a value failed.
#[derive(Debug, Clone, PartialEq, Eq)]
pub enum RuntimeConstructError {
    /// Built-in types are never constructed by reflection.
    Primitive,
    /// The argument at `index` is not of the field's type, named `expected`.
    UnexpectedType {
        /// Position of the offending argument.
        index: usize,
        /// Name of the type that field requires.
        expected: String,
    },
    /// The tagged union has no variant of that name.
    InvalidVariant,
    /// Reserved for types whose fields may not be set from outside.
    PrivateFields,
    /// Product construction was asked of a tagged union.
    NotStruct,
    /// Variant construction was asked of a type that is not a tagged union.
    NotEnum,
    /// Fewer arguments than the shape has fields.
    NotEnoughArgs,
}

} // verus!
