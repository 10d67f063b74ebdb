//! The registry of encodings.
//!
//! A context maps the 16-bit code of an encoding to the encoding. It is built
//! once, by adding encodings to the built-in ones, and read from then on. A
//! code that was never added is not found: whoever rebuilds an array from its
//! code looks the code up first, and gives up where it is unknown.
use crate::encoding::bool_encoding;
use crate::encoding::chunked_encoding;
use crate::encoding::constant_encoding;
use crate::encoding::extension_encoding;
use crate::encoding::null_encoding;
use crate::encoding::primitive_encoding;
use crate::encoding::sparse_encoding;
use crate::encoding::struct_encoding;
use crate::encoding::var_bin_encoding;
use crate::encoding::var_bin_view_encoding;
use crate::encoding::EncodingRef;
use crate::error::VortexError;
use crate::error::VortexResult;
use std::collections::HashMap;
use vstd::prelude::*;
use vstd::std_specs::iter::IteratorSpec;

verus! {

broadcast use vstd::std_specs::hash::group_hash_axioms;

/// The map that adding `encodings` to `map` in order gives: each under its
/// code, a later one in place of an earlier one with the same code.
pub open spec fn with_all(map: Map<u16, EncodingRef>, encodings: Seq<EncodingRef>) -> Map<
    u16,
    EncodingRef,
>
    decreases encodings.len(),
{
    if encodings.len() == 0 {
        map
    } else {
        with_all(map, encodings.drop_last()).insert(
            encodings.last().spec_code(),
            encodings.last(),
        )
    }
}

/// A mapping from the code of an encoding to the encoding.
#[derive(Debug, Clone)]
pub struct Context {
    encodings: HashMap<u16, EncodingRef>,
}

impl View for Context {
    type V = Map<u16, EncodingRef>;

    closed spec fn view(&self) -> Map<u16, EncodingRef> {
        self.encodings@
    }
}

/// The name of the built-in encoding with code `code`.
pub open spec fn builtin_name(code: u16) -> Seq<char> {
    if code == crate::encoding::NULL {
        "vortex.null"@
    } else if code == crate::encoding::BOOL {
        "vortex.bool"@
    } else if code == crate::encoding::PRIMITIVE {
        "vortex.primitive"@
    } else if code == crate::encoding::STRUCT {
        "vortex.struct"@
    } else if code == crate::encoding::VAR_BIN {
        "vortex.varbin"@
    } else if code == crate::encoding::VAR_BIN_VIEW {
        "vortex.varbinview"@
    } else if code == crate::encoding::EXTENSION {
        "vortex.ext"@
    } else if code == crate::encoding::SPARSE {
        "vortex.sparse"@
    } else if code == crate::encoding::CONSTANT {
        "vortex.constant"@
    } else {
        "vortex.chunked"@
    }
}

impl Context {
    /// Whether the context holds nothing but the built-in encodings, each
    /// under its code and with its name.
    pub open spec fn is_default(&self) -> bool {
        &&& self@.dom() =~= set![
            crate::encoding::NULL,
            crate::encoding::BOOL,
            crate::encoding::PRIMITIVE,
            crate::encoding::STRUCT,
            crate::encoding::VAR_BIN,
            crate::encoding::VAR_BIN_VIEW,
            crate::encoding::EXTENSION,
            crate::encoding::SPARSE,
            crate::encoding::CONSTANT,
            crate::encoding::CHUNKED,
        ]
        &&& forall|code: u16|
            self@.dom().contains(code) ==> (#[trigger] self@[code]).spec_code() == code
        &&& forall|code: u16|
            self@.dom().contains(code) ==> (#[trigger] self@[code]).spec_id().spec_name()
                == builtin_name(code)
    }

    /// The context holds finitely many encodings, each under its own code.
    pub open spec fn wf(&self) -> bool {
        &&& self@.dom().finite()
        &&& forall|code: u16|
            self@.dom().contains(code) ==> (#[trigger] self@[code]).spec_code() == code
    }

    /// Any context holds finitely many encodings.
    pub proof fn lemma_finite(&self)
        ensures
            self@.dom().finite(),
    {
        vstd::std_specs::hash::axiom_hashmap_view_finite_dom(self.encodings);
    }

    /// The context without any encoding.
    pub fn empty() -> (context: Context)
        ensures
            context@ == Map::<u16, EncodingRef>::empty(),
            context@.dom().finite(),
            context.wf(),
    {
        Context { encodings: HashMap::new() }
    }

    /// This context with `encoding` under its code, in place of what was
    /// there.
    pub fn with_encoding(self, encoding: EncodingRef) -> (context: Context)
        ensures
            context@ == self@.insert(encoding.spec_code(), encoding),
            context@.dom().finite(),
            self.wf() ==> context.wf(),
    {
        let mut context = self;
        context.encodings.insert(encoding.id().code(), encoding);
        proof {
            context.lemma_finite();
        }
        assert(self.wf() ==> context.wf()) by {
            if self.wf() {
                assert forall|code: u16| context@.dom().contains(code) implies (
                #[trigger] context@[code]).spec_code() == code by {
                    if code != encoding.spec_code() {
                        assert(self@.dom().contains(code));
                    }
                }
            }
        }
        context
    }

    /// This context with each of `encodings` under its code, a later one in
    /// place of an earlier one with the same code.
    pub fn with_encodings(self, encodings: Vec<EncodingRef>) -> (context: Context)
        ensures
            context@ == with_all(self@, encodings@),
            context@.dom().finite(),
            self.wf() ==> context.wf(),
    {
        let mut context = self;
        proof {
            context.lemma_finite();
        }
        let mut i: usize = 0;
        while i < encodings.len()
            invariant
                i <= encodings@.len(),
                context@ == with_all(self@, encodings@.take(i as int)),
                context@.dom().finite(),
                self.wf() ==> context.wf(),
            decreases encodings@.len() - i,
        {
            let encoding = encodings[i];
            context = context.with_encoding(encoding);
            i += 1;
            assert(encodings@.take(i as int).drop_last() =~= encodings@.take(i as int - 1));
        }
        assert(encodings@.take(i as int) =~= encodings@);
        context
    }

    /// The encodings that the context holds, in no particular order.
    pub fn encodings(&self) -> (encodings: Vec<EncodingRef>)
        ensures
            encodings@.to_set() == self@.values(),
            encodings@.len() == self@.dom().len(),
            self@.dom().finite(),
    {
        proof {
            self.lemma_finite();
        }
        let mut encodings: Vec<EncodingRef> = Vec::new();
        for encoding in iter: self.encodings.values()
            invariant
                encodings@ == iter.seq().take(iter.index()).unref(),
        {
            encodings.push(*encoding);
            assert(encodings@ =~= iter.seq().take(iter.index() + 1).unref());
        }
        assert(encodings@ =~= vstd::std_specs::hash::spec_values_iter(
            &self.encodings,
        ).remaining().unref());
        encodings
    }

    /// The encoding under `encoding_code`, if the context holds one.
    pub fn lookup_encoding(&self, encoding_code: u16) -> (encoding: Option<EncodingRef>)
        ensures
            encoding == (if self@.dom().contains(encoding_code) {
                Some(self@[encoding_code])
            } else {
                None
            }),
    {
        match self.encodings.get(&encoding_code) {
            Some(encoding) => Some(*encoding),
            None => None,
        }
    }

    /// The encoding under `encoding_code`, or `UnknownEncoding` where the
    /// context holds none.
    pub fn require_encoding(&self, encoding_code: u16) -> (r: VortexResult<EncodingRef>)
        ensures
            match r {
                Ok(encoding) => self@.dom().contains(encoding_code) && encoding
                    == self@[encoding_code],
                Err(e) => e == VortexError::UnknownEncoding && !self@.dom().contains(encoding_code),
            },
    {
        match self.lookup_encoding(encoding_code) {
            Some(encoding) => Ok(encoding),
            None => Err(VortexError::UnknownEncoding),
        }
    }
}

impl Default for Context {
    /// The context of the built-in encodings.
    fn default() -> (context: Context)
        ensures
            context.is_default(),
            context@.dom().finite(),
            context.wf(),
    {
        let context = Context::empty()
            .with_encoding(null_encoding())
            .with_encoding(bool_encoding())
            .with_encoding(primitive_encoding())
            .with_encoding(struct_encoding())
            .with_encoding(var_bin_encoding())
            .with_encoding(var_bin_view_encoding())
            .with_encoding(extension_encoding())
            .with_encoding(sparse_encoding())
            .with_encoding(constant_encoding())
            .with_encoding(chunked_encoding());
        context
    }
}

} // verus!
