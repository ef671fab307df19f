//! Decoding of raw backend values into host values.

use crate::type_info::TypeInfo;
use vstd::prelude::*;

verus! {

/// Why a raw value could not be decoded.
#[derive(Debug)]
pub struct DecodeError {
    pub message: String,
}

/// A raw value as a backend hands it out.
pub trait ValueRef {
    /// Whether the value stands for SQL `NULL`.
    spec fn null(&self) -> bool;

    fn is_null(&self) -> (b: bool)
        ensures
            b == self.null(),
    ;
}

/// A host type with one backend type of its own.
pub trait Type {
    spec fn type_info_spec() -> TypeInfo;

    fn type_info() -> (ty: TypeInfo)
        ensures
            ty == Self::type_info_spec(),
    ;
}

/// A type that can be decoded from a raw value of kind `V`.
pub trait Decode<V: ValueRef>: Sized {
    /// The tags of the values this type can be made from.
    spec fn accepts_spec(ty: TypeInfo) -> bool;

    /// Whether this type's decoder may be handed a null.
    spec fn takes_null() -> bool;

    /// What decoding `value` gives.
    spec fn decode_spec(value: V) -> Result<Self, DecodeError>;

    /// Determines if a value of this type can be created from a value with the
    /// given type information.
    fn accepts(ty: &TypeInfo) -> (b: bool)
        ensures
            b == Self::accepts_spec(*ty),
    ;

    /// Decode a new value of this type using a raw value from the backend.
    /// A null may be handed only to a type that takes one.
    fn decode(value: V) -> (r: Result<Self, DecodeError>)
        requires
            Self::takes_null() || !value.null(),
        ensures
            r == Self::decode_spec(value),
    ;
}

/// What decoding into an optional gives, from the inner type's outcome on the
/// same value: `None` for a null, the inner outcome wrapped otherwise.
pub open spec fn decode_optional<T>(null: bool, inner: Result<T, DecodeError>) -> Result<
    Option<T>,
    DecodeError,
> {
    if null {
        Ok(None)
    } else {
        match inner {
            Ok(v) => Ok(Some(v)),
            Err(e) => Err(e),
        }
    }
}

/// An optional of a decodable type. The inner decoder is called only on a
/// value that is not null, so it may be one that takes no null.
impl<V: ValueRef, T: Decode<V>> Decode<V> for Option<T> {
    open spec fn accepts_spec(ty: TypeInfo) -> bool {
        T::accepts_spec(ty)
    }

    open spec fn takes_null() -> bool {
        true
    }

    open spec fn decode_spec(value: V) -> Result<Self, DecodeError> {
        decode_optional(value.null(), T::decode_spec(value))
    }

    fn accepts(ty: &TypeInfo) -> (b: bool) {
        T::accepts(ty)
    }

    fn decode(value: V) -> (r: Result<Self, DecodeError>) {
        if value.is_null() {
            Ok(None)
        } else {
            match T::decode(value) {
                Ok(v) => Ok(Some(v)),
                Err(e) => Err(e),
            }
        }
    }
}

/// What decoding into an optional gives: `None` for a null, whatever the
/// inner type would make of it, and for any other value what the inner type
/// gives, wrapped. An optional takes a null whether or not the inner type
/// does, and accepts the tags that the inner type accepts.
pub proof fn lemma_optional_decode<V: ValueRef, T: Decode<V>>(value: V)
    ensures
        value.null() ==> <Option<T> as Decode<V>>::decode_spec(value) == Ok::<
            Option<T>,
            DecodeError,
        >(None),
        !value.null() ==> match T::decode_spec(value) {
            Ok(v) => <Option<T> as Decode<V>>::decode_spec(value) == Ok::<Option<T>, DecodeError>(
                Some(v),
            ),
            Err(e) => <Option<T> as Decode<V>>::decode_spec(value) == Err::<
                Option<T>,
                DecodeError,
            >(e),
        },
        <Option<T> as Decode<V>>::takes_null(),
        forall|ty: TypeInfo| <Option<T> as Decode<V>>::accepts_spec(ty) == T::accepts_spec(ty),
{
}

/// The default acceptance test: a type accepts exactly its own backend type.
pub fn accepts<T: Type>(ty: &TypeInfo) -> (b: bool)
    ensures
        b == (*ty == T::type_info_spec()),
{
    *ty == T::type_info()
}

} // verus!
