//! The nine numeric element kinds of the typed-array family.
use crate::text::{encode, encoded};
use crate::types::{Primitive, TypeModel, WitType};
use vstd::prelude::*;

verus! {

/// The element format of a typed array.
#[derive(Clone, Copy, Debug, PartialEq, Eq)]
pub enum TypedArrayKind {
    UInt8,
    UInt8Clamped,
    UInt16,
    UInt32,
    Int8,
    Int16,
    Int32,
    Float32,
    Float64,
}

impl TypedArrayKind {
    /// The WIT primitive that carries one element. Clamping cannot be
    /// expressed at the level of interface types, so the clamped kind
    /// shares `u8` with the plain one.
    pub open spec fn element(self) -> Primitive {
        match self {
            TypedArrayKind::UInt8 => Primitive::U8,
            TypedArrayKind::UInt8Clamped => Primitive::U8,
            TypedArrayKind::UInt16 => Primitive::U16,
            TypedArrayKind::UInt32 => Primitive::U32,
            TypedArrayKind::Int8 => Primitive::S8,
            TypedArrayKind::Int16 => Primitive::S16,
            TypedArrayKind::Int32 => Primitive::S32,
            TypedArrayKind::Float32 => Primitive::F32,
            TypedArrayKind::Float64 => Primitive::F64,
        }
    }

    /// The hyphenated prefix from which the kind's names are derived.
    pub open spec fn prefix(self) -> Seq<char> {
        match self {
            TypedArrayKind::UInt8 => "uint8"@,
            TypedArrayKind::UInt8Clamped => "uint8-clamped"@,
            TypedArrayKind::UInt16 => "uint16"@,
            TypedArrayKind::UInt32 => "uint32"@,
            TypedArrayKind::Int8 => "int8"@,
            TypedArrayKind::Int16 => "int16"@,
            TypedArrayKind::Int32 => "int32"@,
            TypedArrayKind::Float32 => "float32"@,
            TypedArrayKind::Float64 => "float64"@,
        }
    }

    /// The element type as the synthesizers place it in signatures.
    pub fn element_type(&self) -> (r: WitType)
        ensures
            r@ == TypeModel::Prim(self.element()),
    {
        match self {
            TypedArrayKind::UInt8 => WitType::Prim(Primitive::U8),
            TypedArrayKind::UInt8Clamped => WitType::Prim(Primitive::U8),
            TypedArrayKind::UInt16 => WitType::Prim(Primitive::U16),
            TypedArrayKind::UInt32 => WitType::Prim(Primitive::U32),
            TypedArrayKind::Int8 => WitType::Prim(Primitive::S8),
            TypedArrayKind::Int16 => WitType::Prim(Primitive::S16),
            TypedArrayKind::Int32 => WitType::Prim(Primitive::S32),
            TypedArrayKind::Float32 => WitType::Prim(Primitive::F32),
            TypedArrayKind::Float64 => WitType::Prim(Primitive::F64),
        }
    }

    /// The element type as a `wit_encoder::Type`.
    pub fn to_wit_encoder_type(&self) -> (r: wit_encoder::Type)
        ensures
            encoded(r) == TypeModel::Prim(self.element()),
    {
        encode(&self.element_type())
    }

    /// The name prefix as text.
    pub fn prefix_name(&self) -> (r: &'static str)
        ensures
            r@ == self.prefix(),
    {
        match self {
            TypedArrayKind::UInt8 => "uint8",
            TypedArrayKind::UInt8Clamped => "uint8-clamped",
            TypedArrayKind::UInt16 => "uint16",
            TypedArrayKind::UInt32 => "uint32",
            TypedArrayKind::Int8 => "int8",
            TypedArrayKind::Int16 => "int16",
            TypedArrayKind::Int32 => "int32",
            TypedArrayKind::Float32 => "float32",
            TypedArrayKind::Float64 => "float64",
        }
    }
}

} // verus!
