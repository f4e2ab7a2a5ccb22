//! Buffers made of a `u32` count header followed by a flexible array member.
//!
//! ```c
//! struct {
//!     uint32_t count;
//!     Item items[];
//! }
//! ```
//!
//! [`flexible_layout`] sizes such a buffer by the rules of `std::alloc::Layout`
//! (`Layout::array` for the tail, `Layout::extend` of the `u32` header by the
//! tail, then `Layout::pad_to_align`), refusing tails over
//! [`MAX_FLEXIBLE_BYTES`]; [`alloc_flexible_struct`] makes a zeroed buffer of
//! that shape whose count holds the capacity.

use vstd::prelude::*;
use vstd::arithmetic::power2::is_pow2;
use vstd::layout::layout_for_type_is_valid;

use crate::error::OsRotError;
use crate::ffi::{OsRotCerts, OsRotLog, OsRotMeasurement, OS_ROT_HASH_SIZE};

verus! {

/// Upper bound on the trailing array we'll allocate for.
pub const MAX_FLEXIBLE_BYTES: usize = 16 * 1024 * 1024;

/// `x` rounded up to the next multiple of `align`.
pub open spec fn round_up(x: int, align: int) -> int {
    ((x + align - 1) / align) * align
}

/// The largest size that a layout of alignment `align` may have
/// (its size rounded up to `align` must not exceed `isize::MAX`).
pub open spec fn max_size_for_align(align: int) -> int {
    isize::MAX - (align - 1)
}

/// The alignment of the `u32` count header.
pub open spec fn header_align() -> int {
    vstd::layout::align_of::<u32>() as int
}

/// What the `u32` header's layout is known to satisfy: a non-zero alignment
/// that divides its size of 4 bytes.
pub open spec fn header_layout_valid() -> bool {
    0 < header_align() <= 4 && 4int % header_align() == 0
}

/// The layout of a flexible buffer with room for `capacity` items of
/// `item_size` bytes aligned to `item_align`, as (size, alignment, offset of
/// the tail), or the error that refuses it.
pub open spec fn flexible_layout_spec(capacity: int, item_size: int, item_align: int) -> Result<
    (int, int, int),
    OsRotError,
> {
    let array = capacity * item_size;
    if array > max_size_for_align(item_align) {
        Err(OsRotError::LayoutOverflow)
    } else if array > MAX_FLEXIBLE_BYTES {
        Err(OsRotError::TooLarge { requested: array as usize })
    } else {
        let align = if header_align() >= item_align {
            header_align()
        } else {
            item_align
        };
        let offset = round_up(4, item_align);
        let size = offset + array;
        if size > max_size_for_align(align) {
            Err(OsRotError::LayoutOverflow)
        } else {
            Ok((round_up(size, align), align, offset))
        }
    }
}

/// The memory layout of a flexible buffer.
#[derive(Debug, Clone, Copy, PartialEq, Eq, Structural)]
pub struct FlexibleLayout {
    /// Total size in bytes, padded to `align`.
    pub size: usize,
    /// Alignment of the whole buffer.
    pub align: usize,
    /// Offset in bytes of the first trailing item; the count is at offset 0.
    pub tail_offset: usize,
}

/// A buffer made of a `u32` count header and a trailing array of items.
///
/// Implementers state the driver ABI's size and alignment of one item, and
/// build the buffer from its header and its items.
pub trait FlexibleArrayMember: Sized {
    /// Element type of the trailing flexible array member.
    type Item: Copy;

    /// Size in bytes of one item in the driver ABI.
    spec fn abi_item_size() -> nat;

    /// Alignment of one item in the driver ABI.
    spec fn abi_item_align() -> nat;

    /// The count header.
    spec fn header(&self) -> u32;

    /// The trailing items.
    spec fn tail(&self) -> Seq<Self::Item>;

    /// Whether an item is all zero bytes.
    spec fn is_zero_item(item: Self::Item) -> bool;

    fn item_size() -> (r: usize)
        ensures
            r == Self::abi_item_size(),
    ;

    fn item_align() -> (r: usize)
        ensures
            r == Self::abi_item_align(),
            r > 0,
            is_pow2(r as int),
    ;

    fn zeroed_item() -> (r: Self::Item)
        ensures
            Self::is_zero_item(r),
    ;

    fn from_parts(header: u32, tail: Vec<Self::Item>) -> (r: Self)
        ensures
            r.header() == header,
            r.tail() == tail@,
    ;
}

/// Learns what the `u32` header's layout satisfies.
pub fn header_layout_facts()
    ensures
        header_layout_valid(),
{
    layout_for_type_is_valid::<u32>();
    proof {
        broadcast use vstd::layout::layout_of_primitives;

        assert(vstd::layout::size_of::<u32>() == 4);
        let a = header_align();
        assert(a <= 4) by (nonlinear_arith)
            requires
                a > 0,
                4int % a == 0,
        ;
    }
}

/// The layout of a buffer of `D` with room for `capacity` items.
pub open spec fn layout_of<D: FlexibleArrayMember>(capacity: u32) -> Result<(int, int, int), OsRotError> {
    flexible_layout_spec(capacity as int, D::abi_item_size() as int, D::abi_item_align() as int)
}

/// `x` rounded up to a multiple of `align`.
fn round_up_exec(x: usize, align: usize) -> (r: usize)
    requires
        align > 0,
        x + align - 1 <= usize::MAX,
    ensures
        r == round_up(x as int, align as int),
        x <= r <= x + align - 1,
{
    let y: usize = x + (align - 1);
    assert(y - (align - 1) <= (y / align) * align <= y) by (nonlinear_arith)
        requires
            align > 0,
            y >= 0,
    ;
    (y / align) * align
}

/// The layout of a buffer of `D` with room for `capacity` items.
///
/// The tail is refused with `LayoutOverflow` where `Layout::array` refuses
/// it, and with `TooLarge` where it exceeds [`MAX_FLEXIBLE_BYTES`]; the
/// header is then extended by the tail and the whole padded to its alignment.
pub fn flexible_layout<D: FlexibleArrayMember>(capacity: u32) -> (r: Result<FlexibleLayout, OsRotError>)
    ensures
        match layout_of::<D>(capacity) {
            Ok((size, align, offset)) => r == Ok::<FlexibleLayout, OsRotError>(
                FlexibleLayout { size: size as usize, align: align as usize, tail_offset: offset as usize },
            ) && size <= usize::MAX && align <= usize::MAX && offset <= usize::MAX,
            Err(e) => r == Err::<FlexibleLayout, OsRotError>(e),
        },
{
    header_layout_facts();
    let header_size: usize = core::mem::size_of::<u32>();
    let header_align: usize = core::mem::align_of::<u32>();
    proof {
        broadcast use vstd::layout::layout_of_primitives;

        assert(header_size == 4);
    }
    let item_size: usize = D::item_size();
    let item_align: usize = D::item_align();
    if item_align - 1 > isize::MAX as usize {
        return Err(OsRotError::LayoutOverflow);
    }
    let limit: usize = (isize::MAX as usize) - (item_align - 1);
    // Layout::array
    let array_size: usize = match (capacity as usize).checked_mul(item_size) {
        Some(n) => {
            if n > limit {
                return Err(OsRotError::LayoutOverflow);
            }
            n
        },
        None => {
            return Err(OsRotError::LayoutOverflow);
        },
    };
    if array_size > MAX_FLEXIBLE_BYTES {
        return Err(OsRotError::TooLarge { requested: array_size });
    }
    // Layout::extend of the header by the tail
    let align: usize = if header_align >= item_align {
        header_align
    } else {
        item_align
    };
    let offset: usize = round_up_exec(header_size, item_align);
    let size: usize = offset + array_size;
    if size > (isize::MAX as usize) - (align - 1) {
        return Err(OsRotError::LayoutOverflow);
    }
    // Layout::pad_to_align
    let padded: usize = round_up_exec(size, align);
    Ok(FlexibleLayout { size: padded, align, tail_offset: offset })
}

/// What [`alloc_flexible_struct`] gives for `capacity`: where the layout is
/// refused, its error; otherwise a buffer whose count is `capacity` and whose
/// tail holds `capacity` zeroed items.
pub open spec fn allocated<D: FlexibleArrayMember>(r: Result<D, OsRotError>, capacity: u32) -> bool {
    match layout_of::<D>(capacity) {
        Ok(_) => r matches Ok(d) && d.header() == capacity && d.tail().len() == capacity && forall|i: int|
            0 <= i < capacity ==> D::is_zero_item(#[trigger] d.tail()[i]),
        Err(e) => r == Err::<D, OsRotError>(e),
    }
}

/// Make a zeroed buffer of `D` with room for `capacity` items, its count set
/// to `capacity`.
pub fn alloc_flexible_struct<D: FlexibleArrayMember>(capacity: u32) -> (r: Result<D, OsRotError>)
    ensures
        allocated(r, capacity),
        r is Ok <==> layout_of::<D>(capacity) is Ok,
        r matches Ok(d) ==> d.header() == capacity && d.tail().len() == capacity && forall|i: int|
            0 <= i < capacity ==> D::is_zero_item(#[trigger] d.tail()[i]),
{
    match flexible_layout::<D>(capacity) {
        Ok(_) => {},
        Err(e) => {
            return Err(e);
        },
    }
    let zero = D::zeroed_item();
    let n: usize = capacity as usize;
    let mut tail: Vec<D::Item> = Vec::new();
    while tail.len() < n
        invariant
            tail.len() <= n,
            n == capacity,
            D::is_zero_item(zero),
            forall|i: int| 0 <= i < tail.len() ==> D::is_zero_item(#[trigger] tail@[i]),
        decreases n - tail.len(),
    {
        tail.push(zero);
    }
    Ok(D::from_parts(capacity, tail))
}

/// Rounding a multiple of `align` up to `align` leaves it unchanged.
proof fn lemma_round_up_multiple(x: int, align: int)
    requires
        align > 0,
        x >= 0,
        x % align == 0,
    ensures
        round_up(x, align) == x,
{
    assert(((x + align - 1) / align) * align == x) by (nonlinear_arith)
        requires
            align > 0,
            x >= 0,
            x % align == 0,
    ;
}

/// The measurement log buffer is laid out as the C `os_rot_log_t`: the count
/// at offset 0, the measurements right after it at offset 4, and a total size
/// of `4 + 48 * capacity` bytes, for every capacity whose measurements fit in
/// [`MAX_FLEXIBLE_BYTES`]; a larger capacity is refused as too large (or, where
/// it exceeds what a layout may hold at all, as an overflow).
pub proof fn lemma_log_layout(capacity: u32)
    requires
        header_layout_valid(),
    ensures
        ({
            let bytes = capacity * OS_ROT_HASH_SIZE;
            &&& bytes > isize::MAX ==> layout_of::<OsRotLog>(capacity) == Err::<
                (int, int, int),
                OsRotError,
            >(OsRotError::LayoutOverflow)
            &&& MAX_FLEXIBLE_BYTES < bytes <= isize::MAX ==> layout_of::<OsRotLog>(capacity) == Err::<
                (int, int, int),
                OsRotError,
            >(OsRotError::TooLarge { requested: bytes as usize })
            &&& bytes <= MAX_FLEXIBLE_BYTES ==> layout_of::<OsRotLog>(capacity) == Ok::<
                (int, int, int),
                OsRotError,
            >((4 + bytes, header_align(), 4))
        }),
{
    let bytes = capacity * OS_ROT_HASH_SIZE;
    let a = header_align();
    assert(round_up(4, 1) == 4);
    assert(round_up(bytes, 1) == bytes);
    assert((4 + bytes) % a == 0) by (nonlinear_arith)
        requires
            0 < a <= 4,
            4int % a == 0,
            bytes == capacity * 48,
    ;
    lemma_round_up_multiple(4 + bytes, a);
}

/// The certificate buffer is laid out as the C `os_rot_certs_t`: the size at
/// offset 0, the chain bytes right after it at offset 4, and a total of
/// `4 + capacity` bytes padded to the header's alignment, for every capacity
/// up to [`MAX_FLEXIBLE_BYTES`]; a larger capacity is refused as too large
/// (or, where it exceeds what a layout may hold at all, as an overflow).
pub proof fn lemma_certs_layout(capacity: u32)
    requires
        header_layout_valid(),
    ensures
        capacity > isize::MAX ==> layout_of::<OsRotCerts>(capacity) == Err::<
            (int, int, int),
            OsRotError,
        >(OsRotError::LayoutOverflow),
        MAX_FLEXIBLE_BYTES < capacity <= isize::MAX ==> layout_of::<OsRotCerts>(capacity) == Err::<
            (int, int, int),
            OsRotError,
        >(OsRotError::TooLarge { requested: capacity as usize }),
        capacity <= MAX_FLEXIBLE_BYTES ==> layout_of::<OsRotCerts>(capacity) == Ok::<
            (int, int, int),
            OsRotError,
        >((round_up(4 + capacity, header_align()), header_align(), 4)),
{
    assert(round_up(4, 1) == 4);
    assert(capacity * 1 == capacity);
}

/// A buffer that is allocated for `capacity` tells the driver exactly that
/// capacity in its count, and has exactly that many zeroed items in its tail.
pub proof fn lemma_allocated_holds_capacity<D: FlexibleArrayMember>(r: Result<D, OsRotError>, capacity: u32)
    requires
        allocated(r, capacity),
        r is Ok,
    ensures
        r->Ok_0.header() == capacity,
        r->Ok_0.tail().len() == capacity,
        forall|i: int| 0 <= i < capacity ==> D::is_zero_item(#[trigger] r->Ok_0.tail()[i]),
{
}

/// No buffer is ever allocated for a trailing array over
/// [`MAX_FLEXIBLE_BYTES`]: whatever count the driver reports, a successful
/// allocation holds at most that many bytes of items.
pub proof fn lemma_allocation_bounded<D: FlexibleArrayMember>(r: Result<D, OsRotError>, capacity: u32)
    requires
        allocated(r, capacity),
        r is Ok,
    ensures
        capacity * D::abi_item_size() <= MAX_FLEXIBLE_BYTES,
        r->Ok_0.tail().len() * D::abi_item_size() <= MAX_FLEXIBLE_BYTES,
{
}

/// One is a power of two (two to the zeroth).
proof fn lemma_one_is_pow2()
    ensures
        is_pow2(1),
{
    reveal(is_pow2);
}

/// Whether every byte of a measurement is zero.
pub open spec fn is_zero_measurement(m: OsRotMeasurement) -> bool {
    forall|i: int| 0 <= i < OS_ROT_HASH_SIZE ==> #[trigger] m.hash@[i] == 0
}

impl FlexibleArrayMember for OsRotLog {
    type Item = OsRotMeasurement;

    open spec fn abi_item_size() -> nat {
        OS_ROT_HASH_SIZE as nat
    }

    open spec fn abi_item_align() -> nat {
        1
    }

    open spec fn header(&self) -> u32 {
        self.count
    }

    open spec fn tail(&self) -> Seq<OsRotMeasurement> {
        self.measurements@
    }

    open spec fn is_zero_item(item: OsRotMeasurement) -> bool {
        is_zero_measurement(item)
    }

    fn item_size() -> usize {
        OS_ROT_HASH_SIZE
    }

    fn item_align() -> usize {
        proof {
            lemma_one_is_pow2();
        }
        1
    }

    fn zeroed_item() -> OsRotMeasurement {
        OsRotMeasurement { hash: [0u8; 48] }
    }

    fn from_parts(header: u32, tail: Vec<OsRotMeasurement>) -> OsRotLog {
        OsRotLog { count: header, measurements: tail }
    }
}

impl FlexibleArrayMember for OsRotCerts {
    type Item = u8;

    open spec fn abi_item_size() -> nat {
        1
    }

    open spec fn abi_item_align() -> nat {
        1
    }

    open spec fn header(&self) -> u32 {
        self.chain_size
    }

    open spec fn tail(&self) -> Seq<u8> {
        self.chain@
    }

    open spec fn is_zero_item(item: u8) -> bool {
        item == 0
    }

    fn item_size() -> usize {
        1
    }

    fn item_align() -> usize {
        proof {
            lemma_one_is_pow2();
        }
        1
    }

    fn zeroed_item() -> u8 {
        0
    }

    fn from_parts(header: u32, tail: Vec<u8>) -> OsRotCerts {
        OsRotCerts { chain_size: header, chain: tail }
    }
}

} // verus!
