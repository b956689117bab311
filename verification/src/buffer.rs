//! Byte buffers whose visible range honors a requested alignment.

use std::alloc::Layout;

use vstd::arithmetic::power2::is_pow2;
use vstd::prelude::*;

use crate::status::{invalid, invalid_view, Status};

verus! {

/// A size rounded up to the next multiple of an alignment.
pub open spec fn rounded_up(size: nat, alignment: nat) -> nat
    recommends
        alignment > 0,
{
    ((size + alignment - 1) / alignment as int * alignment) as nat
}

/// Whether a size and an alignment describe memory that can be asked for.
pub open spec fn layout_valid(size: nat, alignment: nat) -> bool {
    is_pow2(alignment as int) && rounded_up(size, alignment) <= isize::MAX
}

/// Whether a payload of a length can be lent out with an alignment. An empty
/// payload takes the space of one byte.
pub open spec fn loan_valid(len: nat, alignment: nat) -> bool {
    layout_valid(
        if len == 0 {
            1
        } else {
            len
        },
        alignment,
    )
}

/// Whether `std::alloc::Layout::from_size_align` accepts a size and an
/// alignment.
///
/// Trusted: it does exactly when the alignment is a power of two and the size
/// rounded up to a multiple of it fits the signed address range.
#[verifier::external_body]
fn layout_accepted(size: usize, alignment: usize) -> (accepted: bool)
    ensures
        accepted == layout_valid(size as nat, alignment as nat),
{
    Layout::from_size_align(size, alignment).is_ok()
}

/// Address of the first byte of a vector, by `Vec::as_ptr`.
///
/// Trusted: nothing is claimed of the address.
#[verifier::external_body]
fn base_address(bytes: &Vec<u8>) -> (address: usize) {
    bytes.as_ptr().addr()
}

/// How many bytes to skip from an address to reach an aligned one.
pub fn aligned_offset(address: usize, alignment: usize) -> (offset: usize)
    requires
        alignment > 0,
    ensures
        offset < alignment,
        (address + offset) % (alignment as int) == 0,
{
    let excess: usize = address % alignment;
    if excess == 0 {
        0
    } else {
        proof {
            let whole: int = address as int / alignment as int;
            assert(address as int == alignment * whole + excess) by (nonlinear_arith)
                requires
                    whole == address as int / alignment as int,
                    excess as int == address as int % alignment as int,
                    alignment > 0,
            ;
            assert(address + (alignment - excess) == alignment * (whole + 1)) by (nonlinear_arith)
                requires
                    address as int == alignment * whole + excess,
            ;
            assert((alignment * (whole + 1)) % (alignment as int) == 0) by (nonlinear_arith)
                requires
                    alignment > 0,
            ;
        }
        alignment - excess
    }
}

/// A size that rounds up within a bound is itself within it, and so is the
/// alignment.
proof fn lemma_rounded_up(size: nat, alignment: nat)
    requires
        size > 0,
        alignment > 0,
    ensures
        rounded_up(size, alignment) >= size,
        rounded_up(size, alignment) >= alignment,
{
    let total: int = size + alignment - 1;
    let whole: int = total / alignment as int;
    assert(total == alignment * whole + total % (alignment as int) && total % (alignment as int)
        < alignment && whole >= 1) by (nonlinear_arith)
        requires
            whole == total / alignment as int,
            total >= alignment,
            alignment > 0,
    ;
    assert(whole * alignment == alignment * whole) by (nonlinear_arith);
    assert(whole * alignment >= alignment) by (nonlinear_arith)
        requires
            whole >= 1,
            alignment > 0,
    ;
}

/// Bytes in a larger allocation, starting where their alignment asks for.
pub struct AlignedBytes {
    storage: Vec<u8>,
    offset: usize,
    len: usize,
    base: Ghost<usize>,
}

impl AlignedBytes {
    /// The visible range lies within the allocation.
    pub closed spec fn wf(&self) -> bool {
        self.offset + self.len <= self.storage@.len()
    }

    /// Address of the first visible byte, counted from the address that was
    /// drawn for the allocation when it was made.
    ///
    /// This is ghost only: the drawn address comes from the allocator, of which
    /// nothing is claimed, so that it is the machine address is not proved.
    pub closed spec fn address(&self) -> int {
        self.base@ + self.offset
    }
}

impl View for AlignedBytes {
    type V = Seq<u8>;

    closed spec fn view(&self) -> Seq<u8> {
        self.storage@.subrange(self.offset as int, self.offset + self.len)
    }
}

impl AlignedBytes {
    /// Places a number of bytes in an allocation with the given address, at the
    /// first place that honors an alignment.
    fn placed(storage: Vec<u8>, base: usize, len: usize, alignment: usize) -> (bytes: AlignedBytes)
        requires
            alignment > 0,
            len + alignment <= storage@.len() + 1,
        ensures
            bytes.wf(),
            base <= bytes.address() < base + alignment,
            bytes.address() % (alignment as int) == 0,
            bytes@ == storage@.subrange(bytes.address() - base, bytes.address() - base + len),
    {
        let offset: usize = aligned_offset(base, alignment);
        AlignedBytes { storage, offset, len, base: Ghost(base) }
    }

    /// Lends out a number of zero bytes at an alignment.
    ///
    /// An allocation never moves, so the bytes stay aligned for as long as they
    /// are lent. What `address` speaks of is the address that was drawn for the
    /// allocation.
    pub fn zeroed(len: usize, alignment: usize) -> (lent: Result<AlignedBytes, Status>)
        ensures
            match lent {
                Ok(bytes) => {
                    &&& loan_valid(len as nat, alignment as nat)
                    &&& bytes.wf()
                    &&& bytes@ == Seq::new(len as nat, |i: int| 0u8)
                    &&& bytes.address() % (alignment as int) == 0
                },
                Err(status) => {
                    &&& !loan_valid(len as nat, alignment as nat)
                    &&& status@ == invalid_view("invalid requested payload allocation layout"@)
                },
            },
    {
        let size: usize = if len == 0 {
            1
        } else {
            len
        };
        if !layout_accepted(size, alignment) {
            return Err(invalid("invalid requested payload allocation layout"));
        }
        proof {
            reveal(is_pow2);
            lemma_rounded_up(size as nat, alignment as nat);
        }
        let storage: Vec<u8> = vec![0u8; size + (alignment - 1)];
        let base: usize = base_address(&storage);
        let bytes = Self::placed(storage, base, len, alignment);
        assert(bytes@ =~= Seq::new(len as nat, |i: int| 0u8));
        Ok(bytes)
    }

    /// Lends out a number of bytes at an alignment, to be overwritten before
    /// they are read. They happen to be zero.
    pub fn uninitialized(len: usize, alignment: usize) -> (lent: Result<AlignedBytes, Status>)
        ensures
            match lent {
                Ok(bytes) => {
                    &&& loan_valid(len as nat, alignment as nat)
                    &&& bytes.wf()
                    &&& bytes@ == Seq::new(len as nat, |i: int| 0u8)
                    &&& bytes.address() % (alignment as int) == 0
                },
                Err(status) => {
                    &&& !loan_valid(len as nat, alignment as nat)
                    &&& status@ == invalid_view("invalid requested payload allocation layout"@)
                },
            },
    {
        Self::zeroed(len, alignment)
    }

    /// The visible bytes.
    pub fn as_slice(&self) -> (bytes: &[u8])
        requires
            self.wf(),
        ensures
            bytes@ == self@,
    {
        let (_, rest) = self.storage.as_slice().split_at(self.offset);
        let (visible, _) = rest.split_at(self.len);
        assert(visible@ =~= self@);
        visible
    }

    /// Number of visible bytes.
    pub fn len(&self) -> (len: usize)
        requires
            self.wf(),
        ensures
            len == self@.len(),
    {
        self.len
    }

    /// The visible bytes, to be changed in place.
    pub fn as_mut_slice(&mut self) -> (bytes: &mut [u8])
        requires
            old(self).wf(),
        ensures
            bytes@ == old(self)@,
            final(bytes)@.len() == bytes@.len() ==> final(self).wf(),
            final(bytes)@.len() == bytes@.len() ==> final(self)@ == final(bytes)@,
            final(self).address() == old(self).address(),
    {
        let offset: usize = self.offset;
        let len: usize = self.len;
        let (head, rest) = self.storage.as_mut_slice().split_at_mut(offset);
        let (visible, tail) = rest.split_at_mut(len);
        visible
    }
}

/// A size is rounded up to a multiple of the alignment, and to no larger one
/// than needed.
pub proof fn law_rounding_up_is_tight(size: nat, alignment: nat)
    requires
        alignment > 0,
    ensures
        rounded_up(size, alignment) % alignment == 0,
        size <= rounded_up(size, alignment) < size + alignment,
{
    let total: int = size + alignment - 1;
    let whole: int = total / alignment as int;
    assert(total == alignment * whole + total % (alignment as int) && 0 <= total % (
    alignment as int) < alignment && whole >= 0) by (nonlinear_arith)
        requires
            whole == total / alignment as int,
            total >= 0,
            alignment > 0,
    ;
    assert(whole * alignment == alignment * whole) by (nonlinear_arith);
    assert(whole * alignment >= 0) by (nonlinear_arith)
        requires
            whole >= 0,
            alignment > 0,
    ;
    assert((whole * alignment) % (alignment as int) == 0) by (nonlinear_arith)
        requires
            alignment > 0,
    ;
}

/// A loan is possible if and only if its alignment is a power of two and its
/// bytes, at least one, rounded up to that alignment, fit the address range.
pub proof fn law_possible_loans(len: nat, alignment: nat)
    ensures
        loan_valid(len, alignment) <==> is_pow2(alignment as int) && (if len == 0 {
            rounded_up(1, alignment) <= isize::MAX
        } else {
            rounded_up(len, alignment) <= isize::MAX
        }),
{
}

} // verus!
