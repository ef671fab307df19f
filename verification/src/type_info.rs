//! Backend type tags and the host types they stand for.

use vstd::prelude::*;

verus! {

/// The type a backend reports for a parameter or a column.
#[derive(Clone, Copy, Debug, PartialEq, Eq, Structural)]
pub enum TypeInfo {
    /// No value at all: the column of a statement that returns nothing.
    Void,
    Bool,
    Integer,
    BigInt,
    Text,
    Bytes,
    /// A type the backend could not resolve.
    Unknown,
}

impl TypeInfo {
    /// Whether this tag is the one of a statement that returns nothing.
    pub open spec fn void(self) -> bool {
        self == TypeInfo::Void
    }

    pub fn is_void(&self) -> (b: bool)
        ensures
            b == self.void(),
    {
        match self {
            TypeInfo::Void => true,
            _ => false,
        }
    }
}

} // verus!
