//! The 16-byte view that describes one variable-length element.
//!
//! Bytes 0 to 3 hold the element's length, little-endian. When the length is
//! at most 12 the element itself follows in bytes 4 to 15, padded with zeros.
//! Otherwise bytes 4 to 7 hold the element's first four bytes, bytes 8 to 11
//! the index of the data buffer that holds the element, and bytes 12 to 15 the
//! offset of the element in that buffer, both little-endian.
use crate::error::VortexError;
use vstd::prelude::*;

verus! {

/// The size of a view in bytes.
pub const VIEW_SIZE_BYTES: usize = 16;

/// The number that four bytes spell in little-endian order.
pub open spec fn le_u32(bytes: Seq<u8>) -> int
    recommends
        bytes.len() == 4,
{
    bytes[0] + 256 * bytes[1] + 65536 * bytes[2] + 16777216 * bytes[3]
}

/// The four bytes that spell `value` in little-endian order.
pub open spec fn u32_le_bytes(value: u32) -> Seq<u8> {
    seq![
        (value % 256) as u8,
        ((value / 256) % 256) as u8,
        ((value / 65536) % 256) as u8,
        (value / 16777216) as u8,
    ]
}

/// The number that sixteen bytes spell in little-endian order.
pub open spec fn le_u128(bytes: Seq<u8>) -> int
    recommends
        bytes.len() == 16,
{
    le_u32(bytes.subrange(0, 4)) + 0x1_0000_0000 * le_u32(bytes.subrange(4, 8))
        + 0x1_0000_0000_0000_0000 * le_u32(bytes.subrange(8, 12))
        + 0x1_0000_0000_0000_0000_0000_0000 * le_u32(bytes.subrange(12, 16))
}

/// Dividing `low + 256 * high` by 256 splits it into `high` and `low`.
proof fn lemma_split_byte(low: int, high: int)
    requires
        0 <= low < 256,
        0 <= high,
    ensures
        (low + 256 * high) % 256 == low,
        (low + 256 * high) / 256 == high,
{
    assert((low + 256 * high) % 256 == low && (low + 256 * high) / 256 == high)
        by (nonlinear_arith)
        requires
            0 <= low < 256,
            0 <= high,
    ;
}

/// Four bytes spell a number that fits 32 bits, and are the bytes of that
/// number.
pub proof fn lemma_le_u32_bytes(bytes: Seq<u8>)
    requires
        bytes.len() == 4,
    ensures
        0 <= le_u32(bytes) <= u32::MAX,
        u32_le_bytes(le_u32(bytes) as u32) == bytes,
{
    let b0 = bytes[0] as int;
    let b1 = bytes[1] as int;
    let b2 = bytes[2] as int;
    let b3 = bytes[3] as int;
    let value = le_u32(bytes);
    lemma_split_byte(b0, b1 + 256 * b2 + 65536 * b3);
    lemma_split_byte(b1, b2 + 256 * b3);
    lemma_split_byte(b2, b3);
    assert(value / 256 == b1 + 256 * b2 + 65536 * b3);
    assert(value / 65536 == b2 + 256 * b3) by {
        assert(value / 65536 == (value / 256) / 256) by (nonlinear_arith)
            requires
                0 <= value,
        ;
    }
    assert(value / 16777216 == b3) by {
        assert(value / 16777216 == (value / 65536) / 256) by (nonlinear_arith)
            requires
                0 <= value,
        ;
    }
    assert(u32_le_bytes(value as u32) =~= bytes);
}

/// The bytes of a number spell that number.
pub proof fn lemma_u32_le_bytes(value: u32)
    ensures
        u32_le_bytes(value).len() == 4,
        le_u32(u32_le_bytes(value)) == value,
{
}

/// `count` zero bytes.
pub open spec fn zeros(count: int) -> Seq<u8> {
    Seq::new(count as nat, |i: int| 0u8)
}

/// The length that a view records.
pub open spec fn view_size(view: Seq<u8>) -> int
    recommends
        view.len() == 16,
{
    le_u32(view.subrange(0, 4))
}

/// Whether a view holds its element inline: exactly when the element is at
/// most 12 bytes long.
pub open spec fn view_is_inlined(view: Seq<u8>) -> bool
    recommends
        view.len() == 16,
{
    view_size(view) <= 12
}

/// The element that an inlined view holds.
pub open spec fn view_inline_value(view: Seq<u8>) -> Seq<u8>
    recommends
        view.len() == 16,
        view_is_inlined(view),
{
    view.subrange(4, 4 + view_size(view))
}

/// The first four bytes of the element, as a reference view records them.
pub open spec fn view_prefix(view: Seq<u8>) -> Seq<u8>
    recommends
        view.len() == 16,
{
    view.subrange(4, 8)
}

/// The index of the data buffer that a reference view points into.
pub open spec fn view_buffer_index(view: Seq<u8>) -> int
    recommends
        view.len() == 16,
{
    le_u32(view.subrange(8, 12))
}

/// The offset in its data buffer at which the element of a reference view
/// starts.
pub open spec fn view_offset(view: Seq<u8>) -> int
    recommends
        view.len() == 16,
{
    le_u32(view.subrange(12, 16))
}

/// The view that holds `value` inline.
pub open spec fn inlined_view(value: Seq<u8>) -> Seq<u8>
    recommends
        value.len() <= 12,
{
    u32_le_bytes(value.len() as u32) + value + zeros(12 - value.len())
}

/// The view that refers to `size` bytes at `offset` in data buffer
/// `buffer_index`, the first four of which are `prefix`.
pub open spec fn reference_view(size: u32, prefix: Seq<u8>, buffer_index: u32, offset: u32) -> Seq<
    u8,
>
    recommends
        prefix.len() == 4,
{
    u32_le_bytes(size) + prefix + u32_le_bytes(buffer_index) + u32_le_bytes(offset)
}

/// View number `index` in a sequence of views laid end to end.
pub open spec fn view_at(views: Seq<u8>, index: int) -> Seq<u8> {
    views.subrange(16 * index, 16 * index + 16)
}

/// The element that `view` describes when read against `buffers`: the inline
/// bytes of an inlined view, the bytes that a reference view points at, or
/// `OutOfRange` where a reference view names a buffer that is not there or a
/// range that does not lie in its buffer.
pub open spec fn view_value(view: Seq<u8>, buffers: Seq<Seq<u8>>) -> Result<Seq<u8>, VortexError>
    recommends
        view.len() == 16,
{
    if view_is_inlined(view) {
        Ok(view_inline_value(view))
    } else if view_buffer_index(view) < buffers.len() && view_offset(view) + view_size(view)
        <= buffers[view_buffer_index(view)].len() {
        Ok(
            buffers[view_buffer_index(view)].subrange(
                view_offset(view),
                view_offset(view) + view_size(view),
            ),
        )
    } else {
        Err(VortexError::OutOfRange)
    }
}

/// Whether `view` keeps every rule of the layout against `buffers`: an
/// inlined view is padded with zeros, and a reference view points at a range
/// that lies in one of the buffers and starts with the prefix that the view
/// records.
pub open spec fn view_is_strict(view: Seq<u8>, buffers: Seq<Seq<u8>>) -> bool
    recommends
        view.len() == 16,
{
    if view_is_inlined(view) {
        forall|j: int| 4 + view_size(view) <= j < 16 ==> view[j] == 0u8
    } else {
        &&& view_value(view, buffers) is Ok
        &&& buffers[view_buffer_index(view)].subrange(view_offset(view), view_offset(view) + 4)
            == view_prefix(view)
    }
}

/// An inlined view is 16 bytes long, is recognised as inlined, and gives its
/// element back.
pub proof fn lemma_inlined_view(value: Seq<u8>)
    requires
        value.len() <= 12,
    ensures
        inlined_view(value).len() == 16,
        view_size(inlined_view(value)) == value.len(),
        view_is_inlined(inlined_view(value)),
        view_inline_value(inlined_view(value)) == value,
{
    let view = inlined_view(value);
    assert(view.subrange(0, 4) =~= u32_le_bytes(value.len() as u32));
    assert(view_inline_value(view) =~= value);
}

/// A reference view is 16 bytes long and gives its four fields back.
pub proof fn lemma_reference_view(size: u32, prefix: Seq<u8>, buffer_index: u32, offset: u32)
    requires
        prefix.len() == 4,
    ensures
        reference_view(size, prefix, buffer_index, offset).len() == 16,
        view_size(reference_view(size, prefix, buffer_index, offset)) == size,
        view_is_inlined(reference_view(size, prefix, buffer_index, offset)) == (size <= 12),
        view_prefix(reference_view(size, prefix, buffer_index, offset)) == prefix,
        view_buffer_index(reference_view(size, prefix, buffer_index, offset)) == buffer_index,
        view_offset(reference_view(size, prefix, buffer_index, offset)) == offset,
{
    let view = reference_view(size, prefix, buffer_index, offset);
    let s = u32_le_bytes(size);
    let b = u32_le_bytes(buffer_index);
    let o = u32_le_bytes(offset);
    assert(s.len() == 4 && b.len() == 4 && o.len() == 4);
    assert(view =~= s + prefix + b + o);
    assert(view.subrange(0, 4) =~= s);
    assert(view.subrange(4, 8) =~= prefix);
    assert(view.subrange(8, 12) =~= b);
    assert(view.subrange(12, 16) =~= o);
    lemma_u32_le_bytes(size);
    lemma_u32_le_bytes(buffer_index);
    lemma_u32_le_bytes(offset);
}

/// Reads four bytes at `at` as a little-endian number.
fn read_u32(bytes: &[u8; 16], at: usize) -> (value: u32)
    requires
        at + 4 <= 16,
    ensures
        value == le_u32(bytes@.subrange(at as int, at + 4)),
{
    (bytes[at] as u32) + (bytes[at + 1] as u32) * 256 + (bytes[at + 2] as u32) * 65536 + (bytes[at
        + 3] as u32) * 16777216
}

/// Writes `value` at `at` as four little-endian bytes.
fn write_u32(bytes: &mut [u8; 16], at: usize, value: u32)
    requires
        at + 4 <= 16,
    ensures
        final(bytes)@ == old(bytes)@.subrange(0, at as int) + u32_le_bytes(value) + old(
            bytes,
        )@.subrange(at + 4, 16),
{
    bytes[at] = (value % 256) as u8;
    bytes[at + 1] = ((value / 256) % 256) as u8;
    bytes[at + 2] = ((value / 65536) % 256) as u8;
    bytes[at + 3] = (value / 16777216) as u8;
    assert(bytes@ =~= old(bytes)@.subrange(0, at as int) + u32_le_bytes(value) + old(
        bytes,
    )@.subrange(at + 4, 16));
}

/// An element of at most 12 bytes, held by value.
#[derive(Clone, Copy, Debug)]
pub struct Inlined {
    size: u32,
    data: [u8; 12],
}

impl Inlined {
    /// The size is at most 12.
    pub closed spec fn wf(&self) -> bool {
        self.size <= 12
    }

    /// The bytes of the element.
    pub closed spec fn spec_value(&self) -> Seq<u8> {
        self.data@.subrange(0, self.size as int)
    }

    /// The twelve bytes of storage: the element, then the padding.
    pub closed spec fn storage(&self) -> Seq<u8> {
        self.data@
    }

    /// Holds `value`, padded with zeros.
    pub fn new(value: &[u8]) -> (inlined: Inlined)
        requires
            value@.len() <= BinaryView::MAX_INLINED_SIZE,
        ensures
            inlined.wf(),
            inlined.spec_value() == value@,
            inlined.storage() == value@ + zeros(12 - value@.len()),
    {
        let mut data = [0u8; 12];
        let mut i: usize = 0;
        while i < value.len()
            invariant
                i <= value@.len() <= 12,
                data@.len() == 12,
                forall|j: int| 0 <= j < i ==> data@[j] == value@[j],
                forall|j: int| i <= j < 12 ==> data@[j] == 0u8,
            decreases value@.len() - i,
        {
            data[i] = value[i];
            i += 1;
        }
        let inlined = Inlined { size: value.len() as u32, data };
        assert(inlined.spec_value() =~= value@);
        assert(inlined.storage() =~= value@ + zeros(12 - value@.len()));
        inlined
    }

    /// The bytes of the element.
    pub fn value(&self) -> (value: &[u8])
        requires
            self.wf(),
        ensures
            value@ == self.spec_value(),
    {
        vstd::slice::slice_subrange(self.data.as_slice(), 0, self.size as usize)
    }
}

/// A reference to an element of more than 12 bytes that lies in a data buffer.
#[derive(Clone, Copy, Debug)]
pub struct Ref {
    size: u32,
    prefix: [u8; 4],
    buffer_index: u32,
    offset: u32,
}

impl Ref {
    pub closed spec fn spec_size(&self) -> u32 {
        self.size
    }

    pub closed spec fn spec_prefix(&self) -> Seq<u8> {
        self.prefix@
    }

    pub closed spec fn spec_buffer_index(&self) -> u32 {
        self.buffer_index
    }

    pub closed spec fn spec_offset(&self) -> u32 {
        self.offset
    }

    /// A reference to `size` bytes at `offset` in data buffer `buffer_index`,
    /// whose first four bytes are `prefix`.
    pub fn new(size: u32, prefix: [u8; 4], buffer_index: u32, offset: u32) -> (reference: Ref)
        ensures
            reference.spec_size() == size,
            reference.spec_prefix() == prefix@,
            reference.spec_buffer_index() == buffer_index,
            reference.spec_offset() == offset,
    {
        Ref { size, prefix, buffer_index, offset }
    }

    /// The index of the data buffer that holds the element.
    #[verifier::when_used_as_spec(spec_buffer_index)]
    pub fn buffer_index(&self) -> (index: u32)
        ensures
            index == self.spec_buffer_index(),
    {
        self.buffer_index
    }

    /// The offset of the element in its data buffer.
    #[verifier::when_used_as_spec(spec_offset)]
    pub fn offset(&self) -> (offset: u32)
        ensures
            offset == self.spec_offset(),
    {
        self.offset
    }

    /// The first four bytes of the element.
    pub fn prefix(&self) -> (prefix: &[u8; 4])
        ensures
            prefix@ == self.spec_prefix(),
    {
        &self.prefix
    }
}

/// One 16-byte view, aligned to 8 bytes.
#[derive(Clone, Copy, Debug)]
pub struct BinaryView {
    // Takes no space; raises the alignment of the bytes to that of a `u64`.
    align: [u64; 0],
    le_bytes: [u8; 16],
}

impl View for BinaryView {
    type V = Seq<u8>;

    /// The sixteen bytes of the view.
    closed spec fn view(&self) -> Seq<u8> {
        self.le_bytes@
    }
}

impl BinaryView {
    /// The longest element that a view holds inline.
    pub const MAX_INLINED_SIZE: usize = 12;

    /// The view that holds `value` inline.
    pub fn new_inlined(value: &[u8]) -> (view: BinaryView)
        requires
            value@.len() <= BinaryView::MAX_INLINED_SIZE,
        ensures
            view@ == inlined_view(value@),
            view_is_inlined(view@),
            view_size(view@) == value@.len(),
            view_inline_value(view@) == value@,
    {
        proof {
            lemma_inlined_view(value@);
        }
        let inlined = Inlined::new(value);
        let mut le_bytes = [0u8; 16];
        write_u32(&mut le_bytes, 0, inlined.size);
        let mut i: usize = 0;
        while i < 12
            invariant
                i <= 12,
                le_bytes@.len() == 16,
                le_bytes@.subrange(0, 4) == u32_le_bytes(inlined.size),
                forall|j: int| 0 <= j < i ==> le_bytes@[4 + j] == inlined.data@[j],
            decreases 12 - i,
        {
            le_bytes[4 + i] = inlined.data[i];
            i += 1;
            assert(le_bytes@.subrange(0, 4) =~= u32_le_bytes(inlined.size));
        }
        let view = BinaryView { align: [], le_bytes };
        assert(view@ =~= inlined_view(value@)) by {
            assert(view@.subrange(0, 4) == u32_le_bytes(value@.len() as u32));
            assert forall|j: int| 0 <= j < 16 implies view@[j] == inlined_view(value@)[j] by {
                if j < 4 {
                    assert(view@[j] == view@.subrange(0, 4)[j]);
                } else {
                    assert(view@[j] == inlined.data@[j - 4]);
                }
            }
        }
        view
    }

    /// The view that refers to `len` bytes at `offset` in data buffer `block`,
    /// the first four of which are `prefix`.
    ///
    /// A view of at most 12 bytes is read as inlined whatever built it, so a
    /// reference is meaningful only for `len > 12`.
    pub fn new_view(len: u32, prefix: [u8; 4], block: u32, offset: u32) -> (view: BinaryView)
        ensures
            view@ == reference_view(len, prefix@, block, offset),
            view_is_inlined(view@) == (len <= 12),
            view_size(view@) == len,
            view_prefix(view@) == prefix@,
            view_buffer_index(view@) == block,
            view_offset(view@) == offset,
    {
        proof {
            lemma_reference_view(len, prefix@, block, offset);
        }
        let reference = Ref::new(len, prefix, block, offset);
        let mut le_bytes = [0u8; 16];
        write_u32(&mut le_bytes, 0, reference.size);
        le_bytes[4] = reference.prefix[0];
        le_bytes[5] = reference.prefix[1];
        le_bytes[6] = reference.prefix[2];
        le_bytes[7] = reference.prefix[3];
        write_u32(&mut le_bytes, 8, reference.buffer_index);
        write_u32(&mut le_bytes, 12, reference.offset);
        let view = BinaryView { align: [], le_bytes };
        assert(view@ =~= reference_view(len, prefix@, block, offset));
        view
    }

    /// The view that `bytes` spell.
    pub fn from_le_bytes(bytes: [u8; 16]) -> (view: BinaryView)
        ensures
            view@ == bytes@,
            view@.len() == 16,
    {
        BinaryView { align: [], le_bytes: bytes }
    }

    /// The sixteen bytes of the view.
    pub fn to_le_bytes(&self) -> (bytes: [u8; 16])
        ensures
            bytes@ == self@,
    {
        self.le_bytes
    }

    pub open spec fn spec_len(&self) -> u32 {
        view_size(self@) as u32
    }

    /// The length of the element that the view describes.
    #[verifier::when_used_as_spec(spec_len)]
    pub fn len(&self) -> (len: u32)
        ensures
            len == view_size(self@),
            len == self.spec_len(),
    {
        read_u32(&self.le_bytes, 0)
    }

    /// Whether the element that the view describes has at least one byte:
    /// `true` for a view of a non-empty element and `false` for a view of the
    /// empty one, whatever the name suggests.
    pub fn is_empty(&self) -> (empty: bool)
        ensures
            empty == (view_size(self@) > 0),
    {
        self.len() > 0
    }

    pub open spec fn spec_is_inlined(&self) -> bool {
        view_is_inlined(self@)
    }

    /// Whether the view holds its element inline.
    #[verifier::when_used_as_spec(spec_is_inlined)]
    pub fn is_inlined(&self) -> (inlined: bool)
        ensures
            inlined == view_is_inlined(self@),
    {
        self.len() <= (BinaryView::MAX_INLINED_SIZE as u32)
    }

    /// The element of an inlined view.
    pub fn as_inlined(&self) -> (inlined: Inlined)
        requires
            view_is_inlined(self@),
        ensures
            inlined.wf(),
            inlined.spec_value() == view_inline_value(self@),
            inlined.storage() == self@.subrange(4, 16),
    {
        let size = self.len();
        let mut data = [0u8; 12];
        let mut i: usize = 0;
        while i < 12
            invariant
                i <= 12,
                data@.len() == 12,
                forall|j: int| 0 <= j < i ==> data@[j] == self.le_bytes@[4 + j],
            decreases 12 - i,
        {
            data[i] = self.le_bytes[4 + i];
            i += 1;
        }
        let inlined = Inlined { size, data };
        assert(inlined.spec_value() =~= view_inline_value(self@));
        assert(inlined.storage() =~= self@.subrange(4, 16));
        inlined
    }

    /// The four fields of the view, read as a reference.
    pub fn as_view(&self) -> (reference: Ref)
        ensures
            reference.spec_size() == view_size(self@),
            reference.spec_prefix() == view_prefix(self@),
            reference.spec_buffer_index() == view_buffer_index(self@),
            reference.spec_offset() == view_offset(self@),
    {
        let prefix = [self.le_bytes[4], self.le_bytes[5], self.le_bytes[6], self.le_bytes[7]];
        assert(prefix@ =~= view_prefix(self@));
        Ref {
            size: read_u32(&self.le_bytes, 0),
            prefix,
            buffer_index: read_u32(&self.le_bytes, 8),
            offset: read_u32(&self.le_bytes, 12),
        }
    }

    /// The view as one 128-bit number, its bytes taken in little-endian order.
    pub fn as_u128(&self) -> (word: u128)
        ensures
            word == le_u128(self@),
    {
        let w0 = read_u32(&self.le_bytes, 0) as u128;
        let w1 = read_u32(&self.le_bytes, 4) as u128;
        let w2 = read_u32(&self.le_bytes, 8) as u128;
        let w3 = read_u32(&self.le_bytes, 12) as u128;
        w0 + w1 * 0x1_0000_0000 + w2 * 0x1_0000_0000_0000_0000 + w3
            * 0x1_0000_0000_0000_0000_0000_0000
    }
}

} // verus!
