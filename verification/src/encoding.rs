//! The identity of an encoding: a name and a 16-bit code.
use vstd::prelude::*;

verus! {

/// The code of the encoding of nulls.
pub const NULL: u16 = 1;

/// The code of the encoding of booleans.
pub const BOOL: u16 = 2;

/// The code of the encoding of fixed-width numbers.
pub const PRIMITIVE: u16 = 3;

/// The code of the encoding of structs.
pub const STRUCT: u16 = 4;

/// The code of the offset-based encoding of strings and bytes.
pub const VAR_BIN: u16 = 5;

/// The code of the binary-view encoding of strings and bytes.
pub const VAR_BIN_VIEW: u16 = 6;

/// The code of the encoding of extension types.
pub const EXTENSION: u16 = 7;

/// The code of the sparse encoding.
pub const SPARSE: u16 = 8;

/// The code of the constant encoding.
pub const CONSTANT: u16 = 9;

/// The code of the chunked encoding.
pub const CHUNKED: u16 = 10;

/// The name and the code of an encoding.
#[derive(Clone, Copy, Debug, PartialEq, Eq, Hash)]
pub struct EncodingId {
    name: &'static str,
    code: u16,
}

impl EncodingId {
    pub closed spec fn spec_name(&self) -> Seq<char> {
        self.name@
    }

    pub closed spec fn spec_code(&self) -> u16 {
        self.code
    }

    /// The identity with this name and code.
    pub fn new(name: &'static str, code: u16) -> (id: EncodingId)
        ensures
            id.spec_name() == name@,
            id.spec_code() == code,
    {
        EncodingId { name, code }
    }

    /// The name.
    pub fn name(&self) -> (name: &'static str)
        ensures
            name@ == self.spec_name(),
    {
        self.name
    }

    /// The code.
    #[verifier::when_used_as_spec(spec_code)]
    pub fn code(&self) -> (code: u16)
        ensures
            code == self.spec_code(),
    {
        self.code
    }
}

/// An encoding, as a registry holds it.
#[derive(Clone, Copy, Debug, PartialEq, Eq, Hash)]
pub struct Encoding {
    id: EncodingId,
}

/// A handle on an encoding.
pub type EncodingRef = Encoding;

impl Encoding {
    pub closed spec fn spec_id(&self) -> EncodingId {
        self.id
    }

    /// The code under which a registry holds the encoding.
    pub open spec fn spec_code(&self) -> u16 {
        self.spec_id().spec_code()
    }

    /// The encoding with this name and code.
    pub fn new(name: &'static str, code: u16) -> (encoding: Encoding)
        ensures
            encoding.spec_id().spec_name() == name@,
            encoding.spec_code() == code,
    {
        Encoding { id: EncodingId::new(name, code) }
    }

    /// The identity of the encoding.
    #[verifier::when_used_as_spec(spec_id)]
    pub fn id(&self) -> (id: EncodingId)
        ensures
            id == self.spec_id(),
    {
        self.id
    }
}

/// The encoding of nulls.
pub fn null_encoding() -> (encoding: Encoding)
    ensures
        encoding.spec_code() == NULL,
        encoding.spec_id().spec_name() == "vortex.null"@,
{
    Encoding::new("vortex.null", NULL)
}

/// The encoding of booleans.
pub fn bool_encoding() -> (encoding: Encoding)
    ensures
        encoding.spec_code() == BOOL,
        encoding.spec_id().spec_name() == "vortex.bool"@,
{
    Encoding::new("vortex.bool", BOOL)
}

/// The encoding of fixed-width numbers.
pub fn primitive_encoding() -> (encoding: Encoding)
    ensures
        encoding.spec_code() == PRIMITIVE,
        encoding.spec_id().spec_name() == "vortex.primitive"@,
{
    Encoding::new("vortex.primitive", PRIMITIVE)
}

/// The encoding of structs.
pub fn struct_encoding() -> (encoding: Encoding)
    ensures
        encoding.spec_code() == STRUCT,
        encoding.spec_id().spec_name() == "vortex.struct"@,
{
    Encoding::new("vortex.struct", STRUCT)
}

/// The offset-based encoding of strings and bytes.
pub fn var_bin_encoding() -> (encoding: Encoding)
    ensures
        encoding.spec_code() == VAR_BIN,
        encoding.spec_id().spec_name() == "vortex.varbin"@,
{
    Encoding::new("vortex.varbin", VAR_BIN)
}

/// The binary-view encoding of strings and bytes.
pub fn var_bin_view_encoding() -> (encoding: Encoding)
    ensures
        encoding.spec_code() == VAR_BIN_VIEW,
        encoding.spec_id().spec_name() == "vortex.varbinview"@,
{
    Encoding::new("vortex.varbinview", VAR_BIN_VIEW)
}

/// The encoding of extension types.
pub fn extension_encoding() -> (encoding: Encoding)
    ensures
        encoding.spec_code() == EXTENSION,
        encoding.spec_id().spec_name() == "vortex.ext"@,
{
    Encoding::new("vortex.ext", EXTENSION)
}

/// The sparse encoding.
pub fn sparse_encoding() -> (encoding: Encoding)
    ensures
        encoding.spec_code() == SPARSE,
        encoding.spec_id().spec_name() == "vortex.sparse"@,
{
    Encoding::new("vortex.sparse", SPARSE)
}

/// The constant encoding.
pub fn constant_encoding() -> (encoding: Encoding)
    ensures
        encoding.spec_code() == CONSTANT,
        encoding.spec_id().spec_name() == "vortex.constant"@,
{
    Encoding::new("vortex.constant", CONSTANT)
}

/// The chunked encoding.
pub fn chunked_encoding() -> (encoding: Encoding)
    ensures
        encoding.spec_code() == CHUNKED,
        encoding.spec_id().spec_name() == "vortex.chunked"@,
{
    Encoding::new("vortex.chunked", CHUNKED)
}

} // verus!
