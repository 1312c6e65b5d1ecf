//! Logical types of the columns that the kernels read.

use vstd::prelude::*;

verus! {

/// Whether a column may hold nulls.
#[derive(Clone, Copy, Debug, PartialEq, Eq, Structural)]
pub enum Nullability {
    NonNullable,
    Nullable,
}

impl Nullability {
    /// The nullability of a value built from two inputs: nullable when either is.
    pub open spec fn spec_union(self, other: Nullability) -> Nullability {
        if self == Nullability::Nullable || other == Nullability::Nullable {
            Nullability::Nullable
        } else {
            Nullability::NonNullable
        }
    }

    /// Combines two nullabilities: the result is nullable when either input is.
    pub fn union(self, other: Nullability) -> (r: Nullability)
        ensures
            r == self.spec_union(other),
    {
        match (self, other) {
            (Nullability::NonNullable, Nullability::NonNullable) => Nullability::NonNullable,
            _ => Nullability::Nullable,
        }
    }
}

/// The family of a column's values, as far as the kernels care.
#[derive(Clone, Copy, Debug, PartialEq, Eq, Structural)]
pub enum ValueKind {
    /// UTF-8 strings.
    Utf8,
    /// Arbitrary byte strings.
    Binary,
    /// Any other logical type; its scalars are compared by their byte encoding.
    Other,
}

/// A logical column type: the value family and its nullability.
#[derive(Clone, Copy, Debug, PartialEq, Eq, Structural)]
pub struct DType {
    pub kind: ValueKind,
    pub nullability: Nullability,
}

impl DType {
    /// Whether the values of this type are byte strings (UTF-8 or binary).
    pub open spec fn spec_is_byte_string(self) -> bool {
        self.kind == ValueKind::Utf8 || self.kind == ValueKind::Binary
    }

    /// Whether the values of this type are byte strings (UTF-8 or binary).
    pub fn is_byte_string(&self) -> (r: bool)
        ensures
            r == self.spec_is_byte_string(),
    {
        match self.kind {
            ValueKind::Utf8 | ValueKind::Binary => true,
            ValueKind::Other => false,
        }
    }
}

} // verus!
