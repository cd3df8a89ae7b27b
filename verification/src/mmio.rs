//! Capability-tagged handles for fixed hardware addresses.
//!
//! A hardware register lives at a fixed, compile-time-known location in the
//! physical address space. A handle binds one such location to a value type
//! and to two capability tags: one for loads and one for stores. A tag is
//! [`Safe`] when the access is always allowed, and `()` when it is never
//! allowed; the tags are zero-sized and enforced entirely at compile time.
//!
//! The handles only compute and expose addresses. The uncached,
//! non-reorderable load or store itself is a hardware effect that the
//! surrounding unverified binary performs at the address a handle yields;
//! that binary also vouches that each address is real hardware backing the
//! declared value type and capabilities.

use core::marker::PhantomData;
use vstd::prelude::*;

verus! {

/// Capability tag: the tagged kind of access (load or store, depending on
/// the position it is used in) is always allowed. The absence of a
/// capability is written `()`.
#[derive(Clone, Copy)]
pub struct Safe;

/// A typed handle bound to one fixed hardware address.
///
/// `T` is the value type stored at the address, `R` the load capability and
/// `W` the store capability.
pub struct VolAddress<T, R, W> {
    address: usize,
    target: PhantomData<T>,
    read_status: PhantomData<R>,
    write_status: PhantomData<W>,
}

impl<T, R, W> VolAddress<T, R, W> {
    /// The fixed location in the physical address space that this handle is
    /// bound to.
    pub closed spec fn spec_addr(self) -> usize {
        self.address
    }

    /// Binds a handle to `address`. The caller vouches that the address is
    /// real hardware matching the declared value type and capabilities and
    /// that no incompatible handle aliases it; none of that is visible to
    /// this crate.
    pub fn new(address: usize) -> (a: Self)
        requires
            0 < address,
        ensures
            a.spec_addr() == address,
    {
        VolAddress {
            address,
            target: PhantomData,
            read_status: PhantomData,
            write_status: PhantomData,
        }
    }

    /// The bound address as a plain number.
    pub fn as_usize(&self) -> (a: usize)
        ensures
            a == self.spec_addr(),
    {
        self.address
    }
}

impl<T, W> VolAddress<T, Safe, W> {
    /// The address at which a load is permitted. Only a handle whose load
    /// capability is [`Safe`] offers this; calling it on any other handle is
    /// rejected at compile time.
    pub fn read_address(&self) -> (a: usize)
        ensures
            a == self.spec_addr(),
    {
        self.address
    }
}

impl<T, R> VolAddress<T, R, Safe> {
    /// The address at which a store is permitted. Only a handle whose store
    /// capability is [`Safe`] offers this; calling it on any other handle is
    /// rejected at compile time.
    pub fn write_address(&self) -> (a: usize)
        ensures
            a == self.spec_addr(),
    {
        self.address
    }
}

/// A register family: `count` logically identical registers of element size
/// `stride` bytes, packed contiguously from a base address.
pub struct VolBlock<T, R, W> {
    base: usize,
    count: usize,
    stride: usize,
    target: PhantomData<T>,
    read_status: PhantomData<R>,
    write_status: PhantomData<W>,
}

impl<T, R, W> VolBlock<T, R, W> {
    /// The base address of the family.
    pub closed spec fn spec_base(self) -> usize {
        self.base
    }

    /// The number of elements in the family.
    pub closed spec fn spec_count(self) -> usize {
        self.count
    }

    /// The distance in bytes between consecutive elements; for a block this
    /// is the element size.
    pub closed spec fn spec_stride(self) -> usize {
        self.stride
    }

    /// The family is non-degenerate and its last element ends within the
    /// address space.
    pub closed spec fn wf(self) -> bool {
        0 < self.base && 0 < self.stride && self.base + self.count * self.stride
            <= usize::MAX
    }

    /// Lays a family of `count` elements of `stride` bytes each over the
    /// addresses starting at `base`. The caller vouches for the hardware
    /// behind those addresses, as in [`VolAddress::new`].
    pub fn new(base: usize, count: usize, stride: usize) -> (b: Self)
        requires
            0 < base,
            0 < stride,
            base + count * stride <= usize::MAX,
        ensures
            b.wf(),
            b.spec_base() == base,
            b.spec_count() == count,
            b.spec_stride() == stride,
    {
        VolBlock {
            base,
            count,
            stride,
            target: PhantomData,
            read_status: PhantomData,
            write_status: PhantomData,
        }
    }

    /// The handle for element `index`: its address is exactly
    /// `base + index * stride`. An out-of-range index is excluded by
    /// precondition, because the hardware behind out-of-range addresses is
    /// unspecified; there is no runtime recovery.
    pub fn index(&self, index: usize) -> (a: VolAddress<T, R, W>)
        requires
            self.wf(),
            index < self.spec_count(),
        ensures
            a.spec_addr() == self.spec_base() + index * self.spec_stride(),
    {
        proof {
            lemma_element_offset_in_range(index as int, self.count as int, self.stride as int);
        }
        VolAddress::new(self.base + index * self.stride)
    }
}

/// A register family: `count` logically identical registers spaced every
/// `stride` bytes from a base address. Unlike a block, the stride is chosen
/// by the hardware layout and may differ from the element size, so elements
/// need not be contiguous.
pub struct VolSeries<T, R, W> {
    base: usize,
    count: usize,
    stride: usize,
    target: PhantomData<T>,
    read_status: PhantomData<R>,
    write_status: PhantomData<W>,
}

impl<T, R, W> VolSeries<T, R, W> {
    /// The base address of the family.
    pub closed spec fn spec_base(self) -> usize {
        self.base
    }

    /// The number of elements in the family.
    pub closed spec fn spec_count(self) -> usize {
        self.count
    }

    /// The distance in bytes between the starts of consecutive elements.
    pub closed spec fn spec_stride(self) -> usize {
        self.stride
    }

    /// The family is non-degenerate and the start of its last element lies
    /// within the address space.
    pub closed spec fn wf(self) -> bool {
        0 < self.base && 0 < self.stride && self.base + self.count * self.stride
            <= usize::MAX
    }

    /// Lays a family of `count` elements spaced `stride` bytes apart over
    /// the addresses starting at `base`. The caller vouches for the hardware
    /// behind those addresses, as in [`VolAddress::new`].
    pub fn new(base: usize, count: usize, stride: usize) -> (s: Self)
        requires
            0 < base,
            0 < stride,
            base + count * stride <= usize::MAX,
        ensures
            s.wf(),
            s.spec_base() == base,
            s.spec_count() == count,
            s.spec_stride() == stride,
    {
        VolSeries {
            base,
            count,
            stride,
            target: PhantomData,
            read_status: PhantomData,
            write_status: PhantomData,
        }
    }

    /// The handle for element `index`: its address is exactly
    /// `base + index * stride`. An out-of-range index is excluded by
    /// precondition, because the hardware behind out-of-range addresses is
    /// unspecified; there is no runtime recovery.
    pub fn index(&self, index: usize) -> (a: VolAddress<T, R, W>)
        requires
            self.wf(),
            index < self.spec_count(),
        ensures
            a.spec_addr() == self.spec_base() + index * self.spec_stride(),
    {
        proof {
            lemma_element_offset_in_range(index as int, self.count as int, self.stride as int);
        }
        VolAddress::new(self.base + index * self.stride)
    }
}

/// An in-range index offsets strictly less than `count` whole strides, so
/// the element address stays within `base + count * stride`.
proof fn lemma_element_offset_in_range(index: int, count: int, stride: int)
    by (nonlinear_arith)
    requires
        0 <= index < count,
        0 < stride,
    ensures
        index * stride + stride <= count * stride,
{
}

/// Two distinct in-range indices never yield the same element address when
/// the stride is positive.
pub proof fn lemma_distinct_indices_distinct_addresses(base: int, stride: int, i: int, j: int)
    by (nonlinear_arith)
    requires
        0 < stride,
        0 <= i,
        0 <= j,
        i != j,
    ensures
        base + i * stride != base + j * stride,
{
}

} // verus!
