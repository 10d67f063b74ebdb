//! Walking over the children of an array.
//!
//! An array shows its children to a visitor one by one, each under a name,
//! and its validity last. A visitor that keeps a record of what it is shown
//! says so, and says by what rule it refuses what it is shown; what an array
//! shows can then be read off that record, and a walk fails only where that
//! rule refuses the next thing. Of a visitor that keeps no record, nothing is
//! known but that it was shown everything or stopped the walk with an error.
use crate::array::Array;
use crate::error::VortexError;
use crate::error::VortexResult;
use crate::validity::Validity;
use crate::validity::ValidityView;
use vstd::prelude::*;

verus! {

/// One thing that a visitor was shown.
pub enum Shown {
    /// A child, under a name.
    Child(Seq<char>, Array),
    /// The validity.
    Validity(ValidityView),
}

/// Whoever wants to see the children of an array one by one.
pub trait ArrayVisitor {
    /// Whether the visitor keeps a record of what it is shown.
    open spec fn records(&self) -> bool {
        false
    }

    /// What the visitor was shown and took without an error, in order, if it
    /// keeps a record.
    open spec fn seen(&self) -> Seq<Shown> {
        Seq::empty()
    }

    /// The error with which the visitor refuses `next` after it has seen
    /// `seen`, if it keeps a record and refuses it. The rule is the visitor's
    /// own and stays as it is while the visitor is shown things.
    open spec fn refuses(&self, seen: Seq<Shown>, next: Shown) -> Option<VortexError> {
        None
    }

    /// Sees the child called `name`. A visitor that keeps a record takes the
    /// child unless its rule refuses it, and then reports the error of the
    /// rule.
    fn visit_child(&mut self, name: &str, array: &Array) -> (r: VortexResult<()>)
        requires
            array.wf(),
        ensures
            final(self).records() == old(self).records(),
            old(self).records() ==> {
                &&& forall|seen: Seq<Shown>, next: Shown|
                    #[trigger] final(self).refuses(seen, next) == old(self).refuses(seen, next)
                &&& r == outcome(
                    old(self).refuses(old(self).seen(), Shown::Child(name@, *array)),
                )
                &&& final(self).seen() == (if r is Ok {
                    old(self).seen().push(Shown::Child(name@, *array))
                } else {
                    old(self).seen()
                })
            },
    ;

    /// Sees the validity. A visitor that keeps a record takes the validity
    /// unless its rule refuses it, and then reports the error of the rule.
    fn visit_validity(&mut self, validity: &Validity) -> (r: VortexResult<()>)
        requires
            validity.wf(),
        ensures
            final(self).records() == old(self).records(),
            old(self).records() ==> {
                &&& forall|seen: Seq<Shown>, next: Shown|
                    #[trigger] final(self).refuses(seen, next) == old(self).refuses(seen, next)
                &&& r == outcome(old(self).refuses(old(self).seen(), Shown::Validity(validity@)))
                &&& final(self).seen() == (if r is Ok {
                    old(self).seen().push(Shown::Validity(validity@))
                } else {
                    old(self).seen()
                })
            },
    ;
}

/// What a visit gives back: the error of a refusal, or nothing.
pub open spec fn outcome(refusal: Option<VortexError>) -> VortexResult<()> {
    match refusal {
        Some(e) => Err(e),
        None => Ok(()),
    }
}

/// Whether `shown` counts as a child: a child does, and a validity that has
/// explicit flags.
pub open spec fn is_child(shown: Shown) -> bool {
    match shown {
        Shown::Child(_, _) => true,
        Shown::Validity(validity) => validity is Array,
    }
}

/// The number of children among what was shown: every child, and every
/// validity that has explicit flags.
pub open spec fn children_among(shown: Seq<Shown>) -> nat
    decreases shown.len(),
{
    if shown.len() == 0 {
        0
    } else {
        children_among(shown.drop_last()) + (if is_child(shown.last()) {
            1nat
        } else {
            0nat
        })
    }
}

/// A visitor that counts the children it is shown: each child, and the flags
/// of explicit validity, which are a child too.
pub struct ChildCount {
    children: usize,
    record: Ghost<Seq<Shown>>,
}

impl ChildCount {
    /// The count is that of the children in the record.
    #[verifier::type_invariant]
    spec fn counts_its_record(self) -> bool {
        self.children == children_among(self.record@)
    }

    /// A counter that was shown nothing.
    pub fn new() -> (counter: ChildCount)
        ensures
            counter.records(),
            counter.seen() == Seq::<Shown>::empty(),
    {
        ChildCount { children: 0, record: Ghost(Seq::empty()) }
    }

    /// The number of children among what the counter was shown.
    pub fn children(&self) -> (count: usize)
        ensures
            count == children_among(self.seen()),
    {
        proof {
            use_type_invariant(self);
        }
        self.children
    }
}

impl ArrayVisitor for ChildCount {
    open spec fn records(&self) -> bool {
        true
    }

    closed spec fn seen(&self) -> Seq<Shown> {
        self.record@
    }

    /// A counter refuses one more child once it has counted as many as a
    /// `usize` holds.
    open spec fn refuses(&self, seen: Seq<Shown>, next: Shown) -> Option<VortexError> {
        if is_child(next) && children_among(seen) >= usize::MAX {
            Some(VortexError::NumericOverflow)
        } else {
            None
        }
    }

    /// Counts the child, or reports `NumericOverflow` where the count does
    /// not fit.
    fn visit_child(&mut self, name: &str, array: &Array) -> (r: VortexResult<()>)
        ensures
            r matches Err(e) ==> e == VortexError::NumericOverflow,
    {
        proof {
            use_type_invariant(&*self);
        }
        if self.children == usize::MAX {
            return Err(VortexError::NumericOverflow);
        }
        proof {
            let record = self.record@.push(Shown::Child(name@, *array));
            assert(record.drop_last() =~= self.record@);
        }
        *self = ChildCount {
            children: self.children + 1,
            record: Ghost(self.record@.push(Shown::Child(name@, *array))),
        };
        Ok(())
    }

    /// Counts the flags of explicit validity as a child, or reports
    /// `NumericOverflow` where the count does not fit.
    fn visit_validity(&mut self, validity: &Validity) -> (r: VortexResult<()>)
        ensures
            r matches Err(e) ==> e == VortexError::NumericOverflow,
    {
        proof {
            use_type_invariant(&*self);
        }
        let explicit = match validity {
            Validity::Array(_) => true,
            _ => false,
        };
        if explicit && self.children == usize::MAX {
            return Err(VortexError::NumericOverflow);
        }
        proof {
            let record = self.record@.push(Shown::Validity(validity@));
            assert(record.drop_last() =~= self.record@);
        }
        *self = ChildCount {
            children: if explicit {
                self.children + 1
            } else {
                self.children
            },
            record: Ghost(self.record@.push(Shown::Validity(validity@))),
        };
        Ok(())
    }
}

} // verus!
