//! Offset-addressed writes into a fixed-size buffer, checked at the boundary.
//!
//! Two ways of naming an element other than by its index: a byte address,
//! the buffer's base address plus the element index times the element's byte
//! width; and a position advanced by a count of elements. Either one that
//! lands outside the buffer is refused, and the buffer is left as it was.
use vstd::layout::size_of;
use vstd::prelude::*;

verus! {

/// Why an offset-addressed write was refused.
#[derive(Debug, Clone, Copy, PartialEq, Eq, Structural)]
pub enum OffsetError {
    /// The address or position does not name an element of the buffer.
    OutOfBoundsOffset,
}

/// Whether byte `address` is the start of one of the `len` elements, each
/// `width` bytes wide, of a buffer whose first element starts at `base`.
pub open spec fn address_in_bounds(base: int, address: int, width: int, len: int) -> bool {
    &&& width > 0
    &&& base <= address
    &&& (address - base) % width == 0
    &&& (address - base) / width < len
}

/// The index of the element that starts at byte `address`.
pub open spec fn address_index(base: int, address: int, width: int) -> int {
    (address - base) / width
}

/// Writes `value` into the element of `buf` that starts at byte `address`,
/// where the buffer's first element starts at byte `base` and each element is
/// as wide as a `T`.
pub fn write_at_address<T: Copy>(buf: &mut Vec<T>, base: usize, address: usize, value: T) -> (r: Result<(), OffsetError>)
    ensures
        r is Ok <==> address_in_bounds(base as int, address as int, size_of::<T>() as int, old(buf)@.len() as int),
        r is Ok ==> final(buf)@ == old(buf)@.update(address_index(base as int, address as int, size_of::<T>() as int), value),
        r is Err ==> final(buf)@ == old(buf)@,
{
    let width = core::mem::size_of::<T>();
    if width == 0 || address < base {
        return Err(OffsetError::OutOfBoundsOffset);
    }
    let bytes = address - base;
    if bytes % width != 0 {
        return Err(OffsetError::OutOfBoundsOffset);
    }
    let index = bytes / width;
    if index >= buf.len() {
        return Err(OffsetError::OutOfBoundsOffset);
    }
    buf[index] = value;
    Ok(())
}

/// Writes `value` into the element reached by advancing `count` elements
/// from position `start` of `buf`.
pub fn write_at_offset<T: Copy>(buf: &mut Vec<T>, start: usize, count: usize, value: T) -> (r: Result<(), OffsetError>)
    ensures
        r is Ok <==> start + count < old(buf)@.len(),
        r is Ok ==> final(buf)@ == old(buf)@.update(start + count, value),
        r is Err ==> final(buf)@ == old(buf)@,
{
    if start >= buf.len() || count >= buf.len() - start {
        return Err(OffsetError::OutOfBoundsOffset);
    }
    buf[start + count] = value;
    Ok(())
}

/// Both ways reach element `i`: the byte address `base + i * width` and the
/// position `i` elements past the start name the same element as index `i`.
pub proof fn lemma_address_and_offset_agree(base: int, width: int, len: int, i: int)
    requires
        width > 0,
        0 <= i < len,
    ensures
        address_in_bounds(base, base + i * width, width, len),
        address_index(base, base + i * width, width) == i,
        0 + i < len,
{
    assert((i * width) % width == 0 && (i * width) / width == i) by (nonlinear_arith)
        requires
            width > 0,
            i >= 0,
    ;
    assert(base + i * width - base == i * width);
}

/// A buffer of five `fill` elements, counted in bytes from its first element;
/// the third element (index 2) is set to `third` through its byte address and
/// the fourth (index 3) to `fourth` by advancing three elements from the
/// start.
pub fn raw_pointer<T: Copy>(fill: T, third: T, fourth: T) -> (r: Vec<T>)
    requires
        0 < size_of::<T>(),
        5 * size_of::<T>() <= usize::MAX,
    ensures
        r@ == seq![fill, fill, third, fourth, fill],
{
    let mut array: Vec<T> = vec![fill, fill, fill, fill, fill];
    let base: usize = 0;
    let width = core::mem::size_of::<T>();
    proof {
        lemma_address_and_offset_agree(base as int, width as int, 5, 2);
    }
    let at_third = write_at_address(&mut array, base, base + width * 2, third);
    let at_fourth = write_at_offset(&mut array, 0, 3, fourth);
    proof {
        assert(at_third is Ok && at_fourth is Ok);
        assert(array@ =~= seq![fill, fill, third, fourth, fill]);
    }
    array
}

} // verus!
