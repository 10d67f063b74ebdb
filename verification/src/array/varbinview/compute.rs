//! What the binary-view encoding offers to the operations on arrays.
//!
//! The encoding is canonical and implements every operation itself.
use crate::array::varbinview::VarBinViewArray;
use crate::array::Array;
use crate::array::Canonical;
use crate::arrow::ArrowViewArray;
use crate::compute::ArrayCompute;
use crate::compute::Capabilities;
use crate::dtype::DType;
use crate::error::VortexError;
use crate::error::VortexResult;
use crate::scalar::Scalar;
use crate::scalar::ScalarView;
use vstd::prelude::*;

verus! {

impl ArrayCompute for VarBinViewArray {
    open spec fn well_formed(&self) -> bool {
        self.wf()
    }

    open spec fn len_of(&self) -> nat {
        self.spec_len()
    }

    open spec fn dtype_of(&self) -> DType {
        self.spec_dtype()
    }

    open spec fn reads_as(&self, index: int) -> Result<ScalarView, VortexError> {
        self.spec_scalar_at(index)
    }

    open spec fn publishes(&self) -> Capabilities {
        Capabilities { scalar_at: true, slice: true, as_arrow: true }
    }

    open spec fn canonical_error(&self) -> Option<VortexError> {
        if self.arrow_compatible() {
            None
        } else {
            Some(VortexError::InvalidArgument)
        }
    }

    open spec fn arrow_error(&self) -> Option<VortexError> {
        if self.arrow_compatible() {
            None
        } else {
            Some(VortexError::InvalidArgument)
        }
    }

    fn length(&self) -> (len: usize) {
        self.len()
    }

    fn capabilities(&self) -> (capabilities: Capabilities) {
        Capabilities { scalar_at: true, slice: true, as_arrow: true }
    }

    fn scalar_at_fn(&self, index: usize) -> (r: VortexResult<Scalar>) {
        self.scalar_at(index)
    }

    fn slice_fn(&self, start: usize, stop: usize) -> (r: VortexResult<Array>) {
        match self.slice(start, stop) {
            Ok(sliced) => Ok(Array::VarBinView(sliced)),
            Err(e) => Err(e),
        }
    }

    fn as_arrow_fn(&self) -> (r: VortexResult<ArrowViewArray>) {
        let r = self.as_arrow();
        proof {
            if r is Ok {
                self.lemma_arrow_reads_alike(r->Ok_0);
            }
        }
        r
    }

    fn flatten_fn(&self) -> (r: VortexResult<Canonical>) {
        self.flatten()
    }
}

} // verus!
