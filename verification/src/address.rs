//! Addresses, sizes and half-open address ranges within a GPU buffer.

use vstd::prelude::*;

verus! {

/// Address or length within a GPU buffer, in bytes.
pub type BufferAddress = u64;

/// Length of a part of a buffer, in bytes. Never zero: "no size" is written
/// as `None` and stands for "up to the end".
#[derive(Clone, Copy, Debug, PartialEq, Eq, Structural, Hash)]
pub struct BufferSize {
    value: u64,
}

impl View for BufferSize {
    type V = u64;

    closed spec fn view(&self) -> u64 {
        self.value
    }
}

impl BufferSize {
    #[verifier::type_invariant]
    spec fn nonzero(self) -> bool {
        self.value != 0
    }

    /// The size of `value` bytes, or `None` for zero.
    pub fn new(value: u64) -> (size: Option<BufferSize>)
        ensures
            value == 0 <==> size is None,
            size matches Some(s) ==> s@ == value,
    {
        if value == 0 {
            None
        } else {
            Some(BufferSize { value })
        }
    }

    /// The number of bytes.
    pub fn get(&self) -> (value: u64)
        ensures
            value == self@,
            value != 0,
    {
        proof {
            use_type_invariant(self);
        }
        self.value
    }
}

/// The number of bytes that an optional size stands for, where it names one.
pub open spec fn size_value(size: Option<BufferSize>) -> Option<u64> {
    match size {
        Some(s) => Some(s@),
        None => None,
    }
}

/// The addresses from `start` up to, but not including, `end`.
///
/// A range whose `end` is not above its `start` holds no address.
#[derive(Clone, Copy, Debug, PartialEq, Eq, Structural, Hash)]
pub struct AddressRange {
    pub start: BufferAddress,
    pub end: BufferAddress,
}

impl AddressRange {
    /// Whether `address` lies in the range.
    pub open spec fn contains(self, address: int) -> bool {
        self.start <= address < self.end
    }

    /// Whether the range holds no address.
    pub open spec fn is_empty(self) -> bool {
        self.end <= self.start
    }

    /// Whether one of the two ranges ends where the other begins, or before.
    pub open spec fn apart_from(self, other: AddressRange) -> bool {
        self.end <= other.start || other.end <= self.start
    }

    /// Whether the range begins in `outer`, ends in it, and does not end
    /// before it begins.
    pub open spec fn inside(self, outer: AddressRange) -> bool {
        outer.start <= self.start && self.start <= self.end && self.end <= outer.end
    }

    /// The range that holds nothing and starts at zero: what is mapped when
    /// nothing is.
    pub open spec fn nothing() -> AddressRange {
        AddressRange { start: 0, end: 0 }
    }

    /// Ranges that are apart share no address.
    pub proof fn lemma_apart_shares_no_address(self, other: AddressRange, address: int)
        requires
            self.apart_from(other),
        ensures
            !(self.contains(address) && other.contains(address)),
    {
    }

    /// Two ranges that both hold an address and are not apart share one.
    pub proof fn lemma_not_apart_shares_address(self, other: AddressRange)
        requires
            !self.is_empty(),
            !other.is_empty(),
            !self.apart_from(other),
        ensures
            exists|address: int| self.contains(address) && other.contains(address),
    {
        let address: int = if self.start <= other.start {
            other.start as int
        } else {
            self.start as int
        };
        assert(self.contains(address) && other.contains(address));
    }

    /// The range from `start` to `end`.
    pub fn new(start: BufferAddress, end: BufferAddress) -> (range: AddressRange)
        ensures
            range.start == start,
            range.end == end,
    {
        AddressRange { start, end }
    }

    /// Tells whether the range lies inside `outer`.
    pub fn is_inside(&self, outer: &AddressRange) -> (inside: bool)
        ensures
            inside == self.inside(*outer),
    {
        outer.start <= self.start && self.start <= self.end && self.end <= outer.end
    }

    /// Tells whether the two ranges are apart.
    pub fn is_apart_from(&self, other: &AddressRange) -> (apart: bool)
        ensures
            apart == self.apart_from(*other),
    {
        self.end <= other.start || other.end <= self.start
    }
}

} // verus!
