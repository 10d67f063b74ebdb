//! Arrays and their encodings.
//!
//! An [`Array`] is one node of an immutable column: a logical type, a length,
//! and the storage that its encoding prescribes. What an array holds is given
//! by `spec_scalar_at`, the outcome of reading each of its elements; every
//! operation is specified over that.
pub mod boolean;
pub mod primitive;
pub mod varbinview;
pub mod visitor;

use crate::array::boolean::BoolArray;
use crate::array::primitive::PrimitiveArray;
use crate::array::varbinview::VarBinViewArray;
use crate::compute::ArrayCompute;
use crate::compute::Capabilities;
use crate::dtype::DType;
use crate::error::VortexError;
use crate::error::VortexResult;
use crate::scalar::Scalar;
use crate::scalar::ScalarView;
use crate::validity::ValidityView;
use vstd::prelude::*;

verus! {

/// An array under any of the encodings of this crate.
#[derive(Clone, Debug)]
pub enum Array {
    Bool(BoolArray),
    Primitive(PrimitiveArray),
    VarBinView(VarBinViewArray),
}

impl Array {
    pub open spec fn wf(&self) -> bool {
        match *self {
            Array::Bool(a) => a.wf(),
            Array::Primitive(a) => a.wf(),
            Array::VarBinView(a) => a.wf(),
        }
    }

    pub open spec fn spec_len(&self) -> nat {
        match *self {
            Array::Bool(a) => a.spec_len(),
            Array::Primitive(a) => a.spec_len(),
            Array::VarBinView(a) => a.spec_len(),
        }
    }

    pub open spec fn spec_dtype(&self) -> DType {
        match *self {
            Array::Bool(a) => a.spec_dtype(),
            Array::Primitive(a) => a.spec_dtype(),
            Array::VarBinView(a) => a.spec_dtype(),
        }
    }

    /// What reading element `index` gives.
    pub open spec fn spec_scalar_at(&self, index: int) -> Result<ScalarView, VortexError> {
        match *self {
            Array::Bool(a) => a.spec_scalar_at(index),
            Array::Primitive(a) => a.spec_scalar_at(index),
            Array::VarBinView(a) => a.spec_scalar_at(index),
        }
    }

    /// The validity.
    pub open spec fn spec_validity(&self) -> crate::validity::ValidityView {
        match *self {
            Array::Bool(a) => a.spec_validity(),
            Array::Primitive(a) => a.spec_validity(),
            Array::VarBinView(a) => a.spec_validity(),
        }
    }

    /// The number of children of the array as a node: the flags of explicit
    /// validity where there are any, and for a binary-view array before them
    /// the views and each data buffer.
    pub open spec fn spec_child_count(&self) -> int {
        (match *self {
            Array::VarBinView(a) => 1 + a.spec_buffers().len() as int,
            _ => 0int,
        }) + (if self.spec_validity() is Array {
            1int
        } else {
            0int
        })
    }

    /// The bytes of an array of bytes; of another array, nothing.
    pub open spec fn spec_bytes(&self) -> Seq<u8> {
        match *self {
            Array::Primitive(a) => a.spec_values(),
            _ => Seq::empty(),
        }
    }

    /// The number of elements.
    pub fn len(&self) -> (len: usize)
        requires
            self.wf(),
        ensures
            len == self.spec_len(),
    {
        match self {
            Array::Bool(a) => a.len(),
            Array::Primitive(a) => a.len(),
            Array::VarBinView(a) => a.len(),
        }
    }

    /// Whether the array has no element.
    pub fn is_empty(&self) -> (empty: bool)
        requires
            self.wf(),
        ensures
            empty == (self.spec_len() == 0),
    {
        self.len() == 0
    }

    /// The logical type.
    pub fn dtype(&self) -> (dtype: DType)
        requires
            self.wf(),
        ensures
            dtype == self.spec_dtype(),
    {
        match self {
            Array::Bool(a) => a.dtype(),
            Array::Primitive(a) => a.dtype(),
            Array::VarBinView(a) => a.dtype(),
        }
    }

    /// A second handle on the same array; no element is copied.
    pub fn share(&self) -> (array: Array)
        requires
            self.wf(),
        ensures
            array.wf(),
            array.same_as(*self),
    {
        match self {
            Array::Bool(a) => Array::Bool(a.share()),
            Array::Primitive(a) => Array::Primitive(a.share()),
            Array::VarBinView(a) => Array::VarBinView(a.share()),
        }
    }

    /// Whether two arrays have the same encoding and the same storage,
    /// element for element.
    pub open spec fn same_as(&self, other: Array) -> bool {
        match (*self, other) {
            (Array::Bool(a), Array::Bool(b)) => a.spec_values() == b.spec_values()
                && a.spec_validity() == b.spec_validity(),
            (Array::Primitive(a), Array::Primitive(b)) => a.spec_values() == b.spec_values()
                && a.spec_validity() == b.spec_validity(),
            (Array::VarBinView(a), Array::VarBinView(b)) => a.same_as(b),
            _ => false,
        }
    }

    /// This array as an array of bytes, or `MismatchedTypes` for an array under
    /// another encoding.
    pub fn into_primitive(self) -> (r: VortexResult<PrimitiveArray>)
        ensures
            match r {
                Ok(array) => self == Array::Primitive(array),
                Err(e) => e == VortexError::MismatchedTypes && !(self is Primitive),
            },
    {
        match self {
            Array::Primitive(a) => Ok(a),
            _ => Err(VortexError::MismatchedTypes),
        }
    }

    /// This array as an array of booleans, or `MismatchedTypes` for an array
    /// under another encoding.
    pub fn into_bool(self) -> (r: VortexResult<BoolArray>)
        ensures
            match r {
                Ok(array) => self == Array::Bool(array),
                Err(e) => e == VortexError::MismatchedTypes && !(self is Bool),
            },
    {
        match self {
            Array::Bool(a) => Ok(a),
            _ => Err(VortexError::MismatchedTypes),
        }
    }

    /// This array as a binary-view array, or `MismatchedTypes` for an array
    /// under another encoding.
    pub fn into_varbinview(self) -> (r: VortexResult<VarBinViewArray>)
        ensures
            match r {
                Ok(array) => self == Array::VarBinView(array),
                Err(e) => e == VortexError::MismatchedTypes && !(self is VarBinView),
            },
    {
        match self {
            Array::VarBinView(a) => Ok(a),
            _ => Err(VortexError::MismatchedTypes),
        }
    }
}

/// An array in canonical form: one of the few encodings that every other
/// encoding converts into, and that answer every operation themselves.
#[derive(Clone, Debug)]
pub enum Canonical {
    Bool(BoolArray),
    Primitive(PrimitiveArray),
    VarBinView(VarBinViewArray),
}

impl Canonical {
    pub open spec fn wf(&self) -> bool {
        match *self {
            Canonical::Bool(a) => a.wf(),
            Canonical::Primitive(a) => a.wf(),
            Canonical::VarBinView(a) => a.wf(),
        }
    }

    /// The same array without the mark of being canonical.
    pub open spec fn spec_array(&self) -> Array {
        match *self {
            Canonical::Bool(a) => Array::Bool(a),
            Canonical::Primitive(a) => Array::Primitive(a),
            Canonical::VarBinView(a) => Array::VarBinView(a),
        }
    }

    /// The same array without the mark of being canonical.
    pub fn into_array(self) -> (array: Array)
        ensures
            array == self.spec_array(),
    {
        match self {
            Canonical::Bool(a) => Array::Bool(a),
            Canonical::Primitive(a) => Array::Primitive(a),
            Canonical::VarBinView(a) => Array::VarBinView(a),
        }
    }

    /// This array as an array of booleans, or `MismatchedTypes` for another
    /// canonical form.
    pub fn into_bool(self) -> (r: VortexResult<BoolArray>)
        ensures
            match r {
                Ok(array) => self == Canonical::Bool(array),
                Err(e) => e == VortexError::MismatchedTypes && !(self is Bool),
            },
    {
        match self {
            Canonical::Bool(a) => Ok(a),
            _ => Err(VortexError::MismatchedTypes),
        }
    }

    /// This array as an array of bytes, or `MismatchedTypes` for another
    /// canonical form.
    pub fn into_primitive(self) -> (r: VortexResult<PrimitiveArray>)
        ensures
            match r {
                Ok(array) => self == Canonical::Primitive(array),
                Err(e) => e == VortexError::MismatchedTypes && !(self is Primitive),
            },
    {
        match self {
            Canonical::Primitive(a) => Ok(a),
            _ => Err(VortexError::MismatchedTypes),
        }
    }

    /// This array as a binary-view array, or `MismatchedTypes` for another
    /// canonical form.
    pub fn into_varbinview(self) -> (r: VortexResult<VarBinViewArray>)
        ensures
            match r {
                Ok(array) => self == Canonical::VarBinView(array),
                Err(e) => e == VortexError::MismatchedTypes && !(self is VarBinView),
            },
    {
        match self {
            Canonical::VarBinView(a) => Ok(a),
            _ => Err(VortexError::MismatchedTypes),
        }
    }
}

impl ArrayCompute for Array {
    open spec fn well_formed(&self) -> bool {
        self.wf()
    }

    open spec fn len_of(&self) -> nat {
        self.spec_len()
    }

    open spec fn dtype_of(&self) -> DType {
        self.spec_dtype()
    }

    open spec fn reads_as(&self, index: int) -> Result<ScalarView, VortexError> {
        self.spec_scalar_at(index)
    }

    open spec fn publishes(&self) -> Capabilities {
        match *self {
            Array::Bool(a) => a.publishes(),
            Array::Primitive(a) => a.publishes(),
            Array::VarBinView(a) => a.publishes(),
        }
    }

    open spec fn canonical_error(&self) -> Option<VortexError> {
        match *self {
            Array::Bool(a) => a.canonical_error(),
            Array::Primitive(a) => a.canonical_error(),
            Array::VarBinView(a) => a.canonical_error(),
        }
    }

    open spec fn arrow_error(&self) -> Option<VortexError> {
        match *self {
            Array::Bool(a) => a.arrow_error(),
            Array::Primitive(a) => a.arrow_error(),
            Array::VarBinView(a) => a.arrow_error(),
        }
    }

    fn length(&self) -> (len: usize) {
        self.len()
    }

    fn capabilities(&self) -> (capabilities: Capabilities) {
        match self {
            Array::Bool(a) => a.capabilities(),
            Array::Primitive(a) => a.capabilities(),
            Array::VarBinView(a) => a.capabilities(),
        }
    }

    fn scalar_at_fn(&self, index: usize) -> (r: VortexResult<Scalar>) {
        match self {
            Array::Bool(a) => a.scalar_at_fn(index),
            Array::Primitive(a) => a.scalar_at_fn(index),
            Array::VarBinView(a) => a.scalar_at_fn(index),
        }
    }

    fn slice_fn(&self, start: usize, stop: usize) -> (r: VortexResult<Array>) {
        match self {
            Array::Bool(a) => a.slice_fn(start, stop),
            Array::Primitive(a) => a.slice_fn(start, stop),
            Array::VarBinView(a) => a.slice_fn(start, stop),
        }
    }

    fn as_arrow_fn(&self) -> (r: VortexResult<crate::arrow::ArrowViewArray>) {
        match self {
            Array::VarBinView(a) => {
                let r = a.as_arrow_fn();
                proof {
                    assert(self.dtype_of() == a.dtype_of());
                    assert(self.len_of() == a.len_of());
                    assert(self.arrow_error() == a.arrow_error());
                    if r is Ok {
                        assert forall|i: int|
                            0 <= i < self.len_of() implies crate::compute::arrow_reads_as(
                            r->Ok_0,
                            self.dtype_of(),
                            i,
                        ) == self.reads_as(i) by {
                            assert(a.reads_as(i) == self.reads_as(i));
                        }
                    }
                }
                r
            },
            Array::Bool(a) => a.as_arrow_fn(),
            Array::Primitive(a) => a.as_arrow_fn(),
        }
    }

    fn flatten_fn(&self) -> (r: VortexResult<Canonical>) {
        match self {
            Array::Bool(a) => a.flatten_fn(),
            Array::Primitive(a) => a.flatten_fn(),
            Array::VarBinView(a) => a.flatten_fn(),
        }
    }
}

impl Array {
    /// The canonical form of this array, or the error with which bringing it
    /// into canonical form fails.
    pub fn into_canonical(self) -> (r: VortexResult<Canonical>)
        requires
            self.wf(),
        ensures
            match r {
                Ok(canonical) => {
                    &&& self.canonical_error() is None
                    &&& canonical.wf()
                    &&& canonical matches Canonical::VarBinView(views) ==> views.arrow_compatible()
                    &&& canonical.spec_array().spec_dtype() == self.spec_dtype()
                    &&& canonical.spec_array().spec_len() == self.spec_len()
                    &&& forall|i: int|
                        canonical.spec_array().spec_scalar_at(i) == self.spec_scalar_at(i)
                },
                Err(e) => self.canonical_error() == Some(e),
            },
    {
        self.flatten_fn()
    }
}

impl crate::validity::Validity {
    /// The flags of explicit validity as a non-nullable array of booleans;
    /// nothing for the other kinds.
    pub fn into_array(self) -> (array: Option<Array>)
        requires
            self.wf(),
        ensures
            match array {
                Some(flags) => {
                    &&& self@ matches crate::validity::ValidityView::Array(bits)
                    &&& flags matches Array::Bool(child)
                    &&& flags.wf()
                    &&& child.spec_values() == bits
                    &&& child.spec_validity() == crate::validity::ValidityView::NonNullable
                },
                None => !(self@ is Array),
            },
    {
        match self {
            crate::validity::Validity::Array(bits) => {
                match BoolArray::try_new(bits, crate::validity::Validity::NonNullable) {
                    Ok(array) => Some(Array::Bool(array)),
                    Err(_) => None,
                }
            },
            _ => None,
        }
    }
}

impl Array {
    /// The children of the array as a node: for an array of booleans or of
    /// bytes the flags of explicit validity where there are any; for a
    /// binary-view array the views, each data buffer, and then those flags.
    pub fn children(&self) -> (children: Vec<Array>)
        requires
            self.wf(),
        ensures
            forall|i: int| 0 <= i < children@.len() ==> (#[trigger] children@[i]).wf(),
            children@.len() == self.spec_child_count(),
            !(*self is VarBinView) ==> (self.spec_validity() matches ValidityView::Array(flags)
                ==> children@[0] matches Array::Bool(child) && child.spec_values() == flags
                && child.spec_validity() == ValidityView::NonNullable),
            *self matches Array::VarBinView(a) ==> a.children_are(children@),
    {
        let validity = match self {
            Array::Bool(a) => a.validity(),
            Array::Primitive(a) => a.validity(),
            Array::VarBinView(a) => {
                return a.children();
            },
        };
        let mut children: Vec<Array> = Vec::new();
        match validity.into_array() {
            Some(flags) => children.push(flags),
            None => {},
        }
        children
    }

    /// The code of the encoding of the array.
    pub open spec fn spec_encoding_code(&self) -> u16 {
        match *self {
            Array::Bool(_) => crate::encoding::BOOL,
            Array::Primitive(_) => crate::encoding::PRIMITIVE,
            Array::VarBinView(_) => crate::encoding::VAR_BIN_VIEW,
        }
    }

    /// The context of the built-in encodings holds the encoding of every
    /// array, under its code and with its name.
    pub proof fn lemma_default_context_holds_encoding(&self, context: crate::context::Context)
        requires
            context.is_default(),
        ensures
            context@.dom().contains(self.spec_encoding_code()),
            context@[self.spec_encoding_code()].spec_code() == self.spec_encoding_code(),
            context@[self.spec_encoding_code()].spec_id().spec_name()
                == crate::context::builtin_name(self.spec_encoding_code()),
    {
    }

    /// The encoding of the array.
    pub fn encoding(&self) -> (encoding: crate::encoding::EncodingRef)
        ensures
            encoding.spec_code() == self.spec_encoding_code(),
            encoding.spec_id().spec_name() == crate::context::builtin_name(
                self.spec_encoding_code(),
            ),
    {
        match self {
            Array::Bool(_) => crate::encoding::bool_encoding(),
            Array::Primitive(_) => crate::encoding::primitive_encoding(),
            Array::VarBinView(_) => crate::encoding::var_bin_view_encoding(),
        }
    }
}

impl VarBinViewArray {
    /// This array as an array under any encoding.
    pub fn into_array(self) -> (array: Array)
        ensures
            array == Array::VarBinView(self),
    {
        Array::VarBinView(self)
    }
}

impl BoolArray {
    /// This array as an array under any encoding.
    pub fn into_array(self) -> (array: Array)
        ensures
            array == Array::Bool(self),
    {
        Array::Bool(self)
    }
}

impl PrimitiveArray {
    /// This array as an array under any encoding.
    pub fn into_array(self) -> (array: Array)
        ensures
            array == Array::Primitive(self),
    {
        Array::Primitive(self)
    }
}

} // verus!
