//! Which elements of an array are present and which are null.
use crate::buffer::Buffer;
use crate::dtype::Nullability;
use crate::error::VortexError;
use crate::error::VortexResult;
use vstd::prelude::*;

verus! {

/// The validity of an array, as a mathematical value.
pub enum ValidityView {
    NonNullable,
    AllValid,
    AllInvalid,
    Array(Seq<bool>),
}

impl ValidityView {
    /// Whether element `index` is present.
    pub open spec fn is_valid(self, index: int) -> bool {
        match self {
            ValidityView::NonNullable => true,
            ValidityView::AllValid => true,
            ValidityView::AllInvalid => false,
            ValidityView::Array(bits) => bits[index],
        }
    }

    /// Whether the validity fits an array of `len` elements: an explicit one
    /// has one entry for each element.
    pub open spec fn fits(self, len: int) -> bool {
        self matches ValidityView::Array(bits) ==> bits.len() == len
    }

    /// The validity of the elements from `start` up to `stop`.
    pub open spec fn slice(self, start: int, stop: int) -> ValidityView {
        match self {
            ValidityView::Array(bits) => ValidityView::Array(bits.subrange(start, stop)),
            other => other,
        }
    }

    /// The null mask that the validity amounts to over `len` elements: none
    /// where every element is present, else one flag for each element, `true`
    /// for present.
    pub open spec fn null_mask(self, len: int) -> Option<Seq<bool>> {
        match self {
            ValidityView::NonNullable => None,
            ValidityView::AllValid => None,
            ValidityView::AllInvalid => Some(Seq::new(len as nat, |i: int| false)),
            ValidityView::Array(bits) => Some(bits),
        }
    }

    /// The validity that a null mask amounts to.
    pub open spec fn from_null_mask(mask: Option<Seq<bool>>, nullable: bool) -> ValidityView {
        if !nullable {
            ValidityView::NonNullable
        } else {
            match mask {
                None => ValidityView::AllValid,
                Some(bits) => if all_false(bits) {
                    ValidityView::AllInvalid
                } else {
                    ValidityView::Array(bits)
                },
            }
        }
    }
}

/// Whether no flag of `bits` is set.
pub open spec fn all_false(bits: Seq<bool>) -> bool {
    forall|i: int| 0 <= i < bits.len() ==> !bits[i]
}

/// Whether every flag of `bits` is set.
pub open spec fn all_true(bits: Seq<bool>) -> bool {
    forall|i: int| 0 <= i < bits.len() ==> bits[i]
}

/// The validity of an array: which of its elements are present.
#[derive(Clone, Debug)]
pub enum Validity {
    /// The type admits no nulls; every element is present.
    NonNullable,
    /// The type admits nulls, and every element is present.
    AllValid,
    /// Every element is null.
    AllInvalid,
    /// One flag for each element, `true` for present.
    Array(Buffer<bool>),
}

impl View for Validity {
    type V = ValidityView;

    open spec fn view(&self) -> ValidityView {
        match *self {
            Validity::NonNullable => ValidityView::NonNullable,
            Validity::AllValid => ValidityView::AllValid,
            Validity::AllInvalid => ValidityView::AllInvalid,
            Validity::Array(bits) => ValidityView::Array(bits@),
        }
    }
}

/// What the metadata of an array records of its validity: the kind, without
/// the flags.
#[derive(Clone, Copy, Debug, PartialEq, Eq, Hash, Structural)]
pub enum ValidityMetadata {
    NonNullable,
    AllValid,
    AllInvalid,
    Array,
}

impl ValidityMetadata {
    /// The kind of `validity`.
    pub open spec fn of(validity: ValidityView) -> ValidityMetadata {
        match validity {
            ValidityView::NonNullable => ValidityMetadata::NonNullable,
            ValidityView::AllValid => ValidityMetadata::AllValid,
            ValidityView::AllInvalid => ValidityMetadata::AllInvalid,
            ValidityView::Array(_) => ValidityMetadata::Array,
        }
    }

    /// The validity of this kind; `flags` are taken only where the kind is
    /// `Array`, and are then required.
    pub fn to_validity(&self, flags: Option<&Buffer<bool>>) -> (validity: Validity)
        requires
            *self == ValidityMetadata::Array ==> flags is Some,
            flags matches Some(bits) ==> bits.wf(),
        ensures
            validity.wf(),
            ValidityMetadata::of(validity@) == *self,
            validity@ matches ValidityView::Array(bits) ==> bits == flags->0@,
    {
        match self {
            ValidityMetadata::NonNullable => Validity::NonNullable,
            ValidityMetadata::AllValid => Validity::AllValid,
            ValidityMetadata::AllInvalid => Validity::AllInvalid,
            ValidityMetadata::Array => match flags {
                Some(bits) => Validity::Array(bits.share()),
                None => Validity::AllValid,
            },
        }
    }
}

impl Validity {
    /// The flags, where there are any, form a well-formed buffer.
    pub open spec fn wf(&self) -> bool {
        *self matches Validity::Array(bits) ==> bits.wf()
    }

    /// A second handle on the same validity; no flag is copied.
    pub fn share(&self) -> (validity: Validity)
        requires
            self.wf(),
        ensures
            validity.wf(),
            validity@ == self@,
    {
        match self {
            Validity::NonNullable => Validity::NonNullable,
            Validity::AllValid => Validity::AllValid,
            Validity::AllInvalid => Validity::AllInvalid,
            Validity::Array(bits) => Validity::Array(bits.share()),
        }
    }

    pub open spec fn spec_nullability(&self) -> Nullability {
        if *self is NonNullable {
            Nullability::NonNullable
        } else {
            Nullability::Nullable
        }
    }

    /// `NonNullable` for the validity of that name, `Nullable` for the others.
    #[verifier::when_used_as_spec(spec_nullability)]
    pub fn nullability(&self) -> (n: Nullability)
        ensures
            n == self.spec_nullability(),
    {
        match self {
            Validity::NonNullable => Nullability::NonNullable,
            _ => Nullability::Nullable,
        }
    }

    /// The kind of the validity, checked against an array of `length`
    /// elements: `InvalidValidity` where explicit flags are not `length` many.
    pub fn to_metadata(&self, length: usize) -> (r: VortexResult<ValidityMetadata>)
        requires
            self.wf(),
        ensures
            match r {
                Ok(metadata) => self@.fits(length as int) && metadata == ValidityMetadata::of(
                    self@,
                ),
                Err(e) => e == VortexError::InvalidValidity && !self@.fits(length as int),
            },
    {
        match self {
            Validity::NonNullable => Ok(ValidityMetadata::NonNullable),
            Validity::AllValid => Ok(ValidityMetadata::AllValid),
            Validity::AllInvalid => Ok(ValidityMetadata::AllInvalid),
            Validity::Array(bits) => {
                if bits.len() != length {
                    Err(VortexError::InvalidValidity)
                } else {
                    Ok(ValidityMetadata::Array)
                }
            },
        }
    }

    /// Whether element `index` is present.
    pub fn is_valid(&self, index: usize) -> (valid: bool)
        requires
            self.wf(),
            self@ matches ValidityView::Array(bits) ==> index < bits.len(),
        ensures
            valid == self@.is_valid(index as int),
    {
        match self {
            Validity::NonNullable => true,
            Validity::AllValid => true,
            Validity::AllInvalid => false,
            Validity::Array(bits) => bits.get(index),
        }
    }

    /// The validity of the elements from `start` up to `stop`. Explicit flags
    /// are sliced, and `OutOfRange` comes back unless `start <= stop` and
    /// `stop` is at most their number; the other kinds stay as they are.
    pub fn slice(&self, start: usize, stop: usize) -> (r: VortexResult<Validity>)
        requires
            self.wf(),
        ensures
            match r {
                Ok(validity) => {
                    &&& validity.wf()
                    &&& validity@ == self@.slice(start as int, stop as int)
                    &&& self@ matches ValidityView::Array(bits) ==> start <= stop <= bits.len()
                },
                Err(e) => {
                    &&& e == VortexError::OutOfRange
                    &&& self@ matches ValidityView::Array(bits) && !(start <= stop <= bits.len())
                },
            },
    {
        match self {
            Validity::NonNullable => Ok(Validity::NonNullable),
            Validity::AllValid => Ok(Validity::AllValid),
            Validity::AllInvalid => Ok(Validity::AllInvalid),
            Validity::Array(bits) => match bits.slice(start, stop) {
                Ok(sliced) => Ok(Validity::Array(sliced)),
                Err(e) => Err(e),
            },
        }
    }

    /// The validity over `length` elements with the distinction between
    /// non-nullable and all-valid dropped. Explicit flags are kept as they
    /// are, however many they are.
    pub fn to_logical(&self, length: usize) -> (logical: LogicalValidity)
        requires
            self.wf(),
        ensures
            logical.wf(),
            logical.spec_len() == (match self@ {
                ValidityView::Array(bits) => bits.len() as int,
                _ => length as int,
            }),
            logical.null_mask() == self@.null_mask(length as int),
            forall|i: int| logical.is_valid(i) == self@.is_valid(i),
    {
        match self {
            Validity::NonNullable => LogicalValidity::AllValid(length),
            Validity::AllValid => LogicalValidity::AllValid(length),
            Validity::AllInvalid => LogicalValidity::AllInvalid(length),
            Validity::Array(bits) => LogicalValidity::Array(bits.share()),
        }
    }

    /// The validity that a null mask amounts to: non-nullable where the type
    /// admits no nulls, else all-valid for no mask, all-invalid for a mask
    /// with no flag set, and the flags themselves otherwise.
    ///
    /// A mask for a type that admits no nulls must have every flag set.
    pub fn from_null_mask(mask: Option<Vec<bool>>, nullable: bool) -> (validity: Validity)
        requires
            !nullable ==> (mask matches Some(bits) ==> all_true(bits@)),
        ensures
            validity.wf(),
            validity@ == ValidityView::from_null_mask(
                match mask {
                    Some(bits) => Some(bits@),
                    None => None,
                },
                nullable,
            ),
    {
        if !nullable {
            return Validity::NonNullable;
        }
        match mask {
            None => Validity::AllValid,
            Some(bits) => {
                let mut i: usize = 0;
                while i < bits.len()
                    invariant
                        nullable,
                        mask == Some(bits),
                        i <= bits.len(),
                        forall|j: int| 0 <= j < i ==> !bits@[j],
                    decreases bits.len() - i,
                {
                    if bits[i] {
                        assert(!all_false(bits@)) by {
                            assert(bits@[i as int]);
                        }
                        return Validity::Array(Buffer::from_vec(bits));
                    }
                    i += 1;
                }
                Validity::AllInvalid
            },
        }
    }
}

/// The validity of an array of known length, where non-nullable and all-valid
/// are one.
#[derive(Clone, Debug)]
pub enum LogicalValidity {
    AllValid(usize),
    AllInvalid(usize),
    Array(Buffer<bool>),
}

impl LogicalValidity {
    pub open spec fn wf(&self) -> bool {
        *self matches LogicalValidity::Array(bits) ==> bits.wf()
    }

    /// The number of elements that the validity covers.
    pub open spec fn spec_len(&self) -> int {
        match *self {
            LogicalValidity::AllValid(len) => len as int,
            LogicalValidity::AllInvalid(len) => len as int,
            LogicalValidity::Array(bits) => bits@.len() as int,
        }
    }

    /// Whether element `index` is present.
    pub open spec fn is_valid(&self, index: int) -> bool {
        match *self {
            LogicalValidity::AllValid(_) => true,
            LogicalValidity::AllInvalid(_) => false,
            LogicalValidity::Array(bits) => bits@[index],
        }
    }

    /// The null mask: none where every element is present, else one flag for
    /// each element, `true` for present.
    pub open spec fn null_mask(&self) -> Option<Seq<bool>> {
        match *self {
            LogicalValidity::AllValid(_) => None,
            LogicalValidity::AllInvalid(len) => Some(Seq::new(len as nat, |i: int| false)),
            LogicalValidity::Array(bits) => Some(bits@),
        }
    }

    /// The null mask, as flags.
    pub fn to_null_buffer(&self) -> (mask: Option<Vec<bool>>)
        requires
            self.wf(),
        ensures
            match mask {
                Some(bits) => self.null_mask() == Some(bits@),
                None => self.null_mask() is None,
            },
    {
        match self {
            LogicalValidity::AllValid(_) => None,
            LogicalValidity::AllInvalid(len) => {
                let mut bits: Vec<bool> = Vec::new();
                let mut i: usize = 0;
                while i < *len
                    invariant
                        i <= *len,
                        bits@.len() == i,
                        forall|j: int| 0 <= j < i ==> !bits@[j],
                    decreases *len - i,
                {
                    bits.push(false);
                    i += 1;
                }
                assert(bits@ =~= Seq::new(*len as nat, |i: int| false));
                Some(bits)
            },
            LogicalValidity::Array(flags) => Some(flags.to_vec()),
        }
    }
}

/// Turning a null mask into a validity and back gives the mask again.
pub proof fn lemma_null_mask_round_trip(mask: Option<Seq<bool>>, nullable: bool, len: int)
    requires
        0 <= len,
        mask matches Some(bits) ==> bits.len() == len,
        !nullable ==> mask is None,
    ensures
        ValidityView::from_null_mask(mask, nullable).null_mask(len) == mask,
        ValidityView::from_null_mask(mask, nullable).fits(len),
        !(ValidityView::from_null_mask(mask, nullable) is NonNullable) <==> nullable,
        forall|i: int|
            0 <= i < len ==> ValidityView::from_null_mask(mask, nullable).is_valid(i) == (
            match mask {
                Some(bits) => bits[i],
                None => true,
            }),
{
    match mask {
        Some(bits) => {
            if all_false(bits) {
                assert(Seq::new(len as nat, |i: int| false) =~= bits);
            }
        },
        None => {},
    }
}

/// A validity that fits `len` elements agrees with its null mask on which of
/// them are present.
pub proof fn lemma_null_mask_of_validity(validity: ValidityView, len: int)
    requires
        0 <= len,
        validity.fits(len),
    ensures
        validity.null_mask(len) matches Some(mask) ==> mask.len() == len,
        forall|i: int|
            0 <= i < len ==> validity.is_valid(i) == (match validity.null_mask(len) {
                Some(mask) => mask[i],
                None => true,
            }),
{
}

} // verus!
