//! Immutable, shareable ranges of elements.
//!
//! A buffer is a window onto an allocation that any number of buffers may
//! share. Cloning and slicing hand out further windows onto the same
//! allocation; neither copies an element.
use std::sync::Arc;
use vstd::prelude::*;

verus! {

/// Another handle on the allocation behind `data`.
///
/// Wraps `Arc::clone`, which returns a pointer to the same allocation and
/// leaves the value it points to untouched: the result equals the argument.
#[verifier::external_body]
fn share<T>(data: &Arc<Vec<T>>) -> (shared: Arc<Vec<T>>)
    ensures
        shared == *data,
{
    Arc::clone(data)
}

/// Whether the two handles point to one allocation.
///
/// Wraps `Arc::ptr_eq`. Two handles on one allocation hold one value; of two
/// handles on different allocations nothing is claimed.
#[verifier::external_body]
fn same_allocation<T>(left: &Arc<Vec<T>>, right: &Arc<Vec<T>>) -> (same: bool)
    ensures
        same ==> *left == *right,
{
    Arc::ptr_eq(left, right)
}

/// An immutable range of elements inside a shared allocation.
#[derive(Clone, Debug)]
pub struct Buffer<T> {
    data: Arc<Vec<T>>,
    offset: usize,
    len: usize,
}

impl<T> View for Buffer<T> {
    type V = Seq<T>;

    /// The elements of the range, in order.
    closed spec fn view(&self) -> Seq<T> {
        self.data@.subrange(self.offset as int, self.offset + self.len)
    }
}

impl<T> Buffer<T> {
    /// The range lies inside the allocation.
    pub closed spec fn wf(&self) -> bool {
        self.offset + self.len <= self.data@.len()
    }

    /// The allocation that the range lies in, all of it.
    pub closed spec fn allocation(&self) -> Seq<T> {
        self.data@
    }

    /// Where the range starts in its allocation.
    pub closed spec fn start(&self) -> int {
        self.offset as int
    }

    /// Whether `other` is a window of the same length onto the same
    /// allocation at the same place, as a second handle on this buffer is.
    pub open spec fn same_window(&self, other: Buffer<T>) -> bool {
        &&& self.allocation() == other.allocation()
        &&& self.start() == other.start()
        &&& self@.len() == other@.len()
    }

    /// A buffer that owns `values`.
    pub fn from_vec(values: Vec<T>) -> (buffer: Buffer<T>)
        ensures
            buffer.wf(),
            buffer@ == values@,
            buffer.allocation() == values@,
            buffer.start() == 0,
    {
        let len = values.len();
        let buffer = Buffer { data: Arc::new(values), offset: 0, len };
        assert(buffer@ =~= values@);
        buffer
    }

    pub open spec fn spec_len(&self) -> usize {
        self@.len() as usize
    }

    /// The number of elements in the range.
    #[verifier::when_used_as_spec(spec_len)]
    pub fn len(&self) -> (n: usize)
        requires
            self.wf(),
        ensures
            n == self@.len(),
            n == self.spec_len(),
    {
        self.len
    }

    /// Whether the range holds no element.
    pub fn is_empty(&self) -> (b: bool)
        requires
            self.wf(),
        ensures
            b == (self@.len() == 0),
    {
        self.len == 0
    }

    /// Whether the two buffers are windows onto one allocation, so that
    /// neither holds a copy of what the other holds.
    pub fn ptr_eq(&self, other: &Buffer<T>) -> (same: bool)
        ensures
            same ==> self.allocation() == other.allocation(),
    {
        same_allocation(&self.data, &other.data)
    }

    /// The elements of the range, borrowed.
    pub fn as_slice(&self) -> (elements: &[T])
        requires
            self.wf(),
        ensures
            elements@ == self@,
    {
        let total = self.data.len();
        assert(self.offset + self.len <= total);
        vstd::slice::slice_subrange(self.data.as_slice(), self.offset, self.offset + self.len)
    }

    /// A second handle on the same range; no element is copied.
    pub fn share(&self) -> (buffer: Buffer<T>)
        requires
            self.wf(),
        ensures
            buffer.wf(),
            buffer@ == self@,
            buffer.allocation() == self.allocation(),
            buffer.start() == self.start(),
    {
        Buffer { data: share(&self.data), offset: self.offset, len: self.len }
    }

    /// The elements from `start` up to `stop`, as a window onto the same
    /// allocation, or `OutOfRange` unless `start <= stop <= len`.
    pub fn slice(&self, start: usize, stop: usize) -> (r: Result<
        Buffer<T>,
        crate::error::VortexError,
    >)
        requires
            self.wf(),
        ensures
            match r {
                Ok(buffer) => {
                    &&& start <= stop <= self@.len()
                    &&& buffer.wf()
                    &&& buffer@ == self@.subrange(start as int, stop as int)
                    &&& buffer.allocation() == self.allocation()
                    &&& buffer.start() == self.start() + start
                },
                Err(e) => e == crate::error::VortexError::OutOfRange && !(start <= stop
                    <= self@.len()),
            },
    {
        if start > stop || stop > self.len {
            return Err(crate::error::VortexError::OutOfRange);
        }
        let total = self.data.len();
        assert(self.offset + self.len <= total);
        let buffer = Buffer {
            data: share(&self.data),
            offset: self.offset + start,
            len: stop - start,
        };
        assert(buffer@ =~= self@.subrange(start as int, stop as int));
        Ok(buffer)
    }
}

impl<T: Copy> Buffer<T> {
    /// The element at `index`.
    pub fn get(&self, index: usize) -> (value: T)
        requires
            self.wf(),
            index < self@.len(),
        ensures
            value == self@[index as int],
    {
        let total = self.data.len();
        assert(self.offset + self.len <= total);
        self.data[self.offset + index]
    }

    /// The elements of the range, copied out.
    pub fn to_vec(&self) -> (values: Vec<T>)
        requires
            self.wf(),
        ensures
            values@ == self@,
    {
        let mut values: Vec<T> = Vec::with_capacity(self.len);
        let total = self.data.len();
        let mut i: usize = 0;
        while i < self.len
            invariant
                self.wf(),
                total == self.data@.len(),
                i <= self.len,
                values@ == self@.subrange(0, i as int),
            decreases self.len - i,
        {
            values.push(self.data[self.offset + i]);
            i += 1;
            assert(values@ =~= self@.subrange(0, i as int));
        }
        assert(values@ =~= self@);
        values
    }
}

} // verus!
