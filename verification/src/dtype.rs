//! Logical types of columns, independent of any physical layout.
use vstd::prelude::*;

verus! {

/// Whether a column may hold nulls.
#[derive(Clone, Copy, Debug, PartialEq, Eq, Hash, Structural)]
pub enum Nullability {
    NonNullable,
    Nullable,
}

impl Nullability {
    pub open spec fn spec_from_bool(nullable: bool) -> Nullability {
        if nullable {
            Nullability::Nullable
        } else {
            Nullability::NonNullable
        }
    }

    /// `Nullable` for `true`, `NonNullable` for `false`.
    #[verifier::when_used_as_spec(spec_from_bool)]
    pub fn from_bool(nullable: bool) -> (n: Nullability)
        ensures
            n == Nullability::spec_from_bool(nullable),
    {
        if nullable {
            Nullability::Nullable
        } else {
            Nullability::NonNullable
        }
    }

    pub open spec fn spec_is_nullable(&self) -> bool {
        *self == Nullability::Nullable
    }

    #[verifier::when_used_as_spec(spec_is_nullable)]
    pub fn is_nullable(&self) -> (b: bool)
        ensures
            b == self.spec_is_nullable(),
    {
        match self {
            Nullability::Nullable => true,
            Nullability::NonNullable => false,
        }
    }
}

/// The fixed-width element types of primitive columns.
#[derive(Clone, Copy, Debug, PartialEq, Eq, Hash, Structural)]
pub enum PType {
    U8,
    U16,
    U32,
    U64,
    I8,
    I16,
    I32,
    I64,
    F16,
    F32,
    F64,
}

impl PType {
    pub open spec fn spec_byte_width(&self) -> usize {
        match *self {
            PType::U8 | PType::I8 => 1,
            PType::U16 | PType::I16 | PType::F16 => 2,
            PType::U32 | PType::I32 | PType::F32 => 4,
            PType::U64 | PType::I64 | PType::F64 => 8,
        }
    }

    /// The number of bytes that one element occupies.
    #[verifier::when_used_as_spec(spec_byte_width)]
    pub fn byte_width(&self) -> (w: usize)
        ensures
            w == self.spec_byte_width(),
    {
        match self {
            PType::U8 | PType::I8 => 1,
            PType::U16 | PType::I16 | PType::F16 => 2,
            PType::U32 | PType::I32 | PType::F32 => 4,
            PType::U64 | PType::I64 | PType::F64 => 8,
        }
    }
}

/// The logical type of a column.
#[derive(Clone, Copy, Debug, PartialEq, Eq, Hash, Structural)]
pub enum DType {
    Null,
    Bool(Nullability),
    Primitive(PType, Nullability),
    Utf8(Nullability),
    Binary(Nullability),
    Struct(Nullability),
    List(Nullability),
    Extension(Nullability),
}

impl DType {
    /// The type of raw bytes: non-nullable unsigned 8-bit integers.
    pub open spec fn spec_bytes() -> DType {
        DType::Primitive(PType::U8, Nullability::NonNullable)
    }

    /// The type of raw bytes: non-nullable unsigned 8-bit integers.
    #[verifier::when_used_as_spec(spec_bytes)]
    pub fn bytes() -> (d: DType)
        ensures
            d == DType::spec_bytes(),
    {
        DType::Primitive(PType::U8, Nullability::NonNullable)
    }

    pub open spec fn spec_nullability(&self) -> Nullability {
        match *self {
            DType::Null => Nullability::Nullable,
            DType::Bool(n) => n,
            DType::Primitive(_, n) => n,
            DType::Utf8(n) => n,
            DType::Binary(n) => n,
            DType::Struct(n) => n,
            DType::List(n) => n,
            DType::Extension(n) => n,
        }
    }

    /// The nullability of the type; the null type is always nullable.
    #[verifier::when_used_as_spec(spec_nullability)]
    pub fn nullability(&self) -> (n: Nullability)
        ensures
            n == self.spec_nullability(),
    {
        match self {
            DType::Null => Nullability::Nullable,
            DType::Bool(n) => *n,
            DType::Primitive(_, n) => *n,
            DType::Utf8(n) => *n,
            DType::Binary(n) => *n,
            DType::Struct(n) => *n,
            DType::List(n) => *n,
            DType::Extension(n) => *n,
        }
    }

    pub open spec fn spec_is_nullable(&self) -> bool {
        self.spec_nullability() == Nullability::Nullable
    }

    /// Whether a column of this type may hold nulls.
    #[verifier::when_used_as_spec(spec_is_nullable)]
    pub fn is_nullable(&self) -> (b: bool)
        ensures
            b == self.spec_is_nullable(),
    {
        self.nullability().is_nullable()
    }

    pub open spec fn spec_is_varbin(&self) -> bool {
        *self is Utf8 || *self is Binary
    }

    /// Whether this is one of the two variable-length types, `Utf8` or `Binary`.
    #[verifier::when_used_as_spec(spec_is_varbin)]
    pub fn is_varbin(&self) -> (b: bool)
        ensures
            b == self.spec_is_varbin(),
    {
        match self {
            DType::Utf8(_) => true,
            DType::Binary(_) => true,
            _ => false,
        }
    }

    pub open spec fn spec_is_bytes(&self) -> bool {
        *self == DType::spec_bytes()
    }

    /// Whether this is the type of raw bytes.
    #[verifier::when_used_as_spec(spec_is_bytes)]
    pub fn is_bytes(&self) -> (b: bool)
        ensures
            b == self.spec_is_bytes(),
    {
        match self {
            DType::Primitive(PType::U8, Nullability::NonNullable) => true,
            _ => false,
        }
    }
}

} // verus!
