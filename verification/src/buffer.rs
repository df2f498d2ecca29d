//! Buffers on the host side: slices, mappings and the views into them.
//!
//! A [`Buffer`] carries the handle that the backend gave it, what it may be
//! used for, and a [`MapContext`]. Every request that touches the mapping is
//! settled here before anything is asked of the backend: the functions return
//! what is to be asked, and refuse what must not be.

use vstd::prelude::*;
use crate::address::{size_value, AddressRange, BufferAddress, BufferSize};
use crate::map_context::{MapContext, MapError, MapState};
use crate::resource::{Sampler, TextureView};

verus! {

/// One end of a range of addresses, as the caller wrote it.
#[derive(Clone, Copy, Debug, PartialEq, Eq, Structural, Hash)]
pub enum RangeBound {
    /// The range reaches this address and holds it.
    Included(BufferAddress),
    /// The range reaches this address and does not hold it.
    Excluded(BufferAddress),
    /// The range is open at this end.
    Unbounded,
}

/// The first address of a range that starts at `start`.
pub open spec fn range_offset(start: RangeBound) -> int {
    match start {
        RangeBound::Included(bound) => bound as int,
        RangeBound::Excluded(bound) => bound + 1,
        RangeBound::Unbounded => 0,
    }
}

/// The number of addresses from `offset` to the end `end` of a range; `None`
/// where the range is open at its end.
pub open spec fn range_length(offset: int, end: RangeBound) -> Option<int> {
    match end {
        RangeBound::Included(bound) => Some(bound + 1 - offset),
        RangeBound::Excluded(bound) => Some(bound - offset),
        RangeBound::Unbounded => None,
    }
}

/// Whether a range from `start` to `end` can be written as an offset and a
/// size: its first address is an address, and where it has an end, the end is
/// none before its first address and no more than one past the last address.
pub open spec fn range_is_expressible(start: RangeBound, end: RangeBound) -> bool {
    &&& range_offset(start) <= BufferAddress::MAX
    &&& end matches RangeBound::Included(bound) ==> bound + 1 <= BufferAddress::MAX
    &&& range_length(range_offset(start), end) matches Some(length) ==> 0 <= length
}

/// Whether `size` is how a length of a range is written: no size for an open
/// end and for no address at all, else the number of addresses.
pub open spec fn size_stands_for(size: Option<BufferSize>, length: Option<int>) -> bool {
    match length {
        Some(n) => if n == 0 {
            size is None
        } else {
            size_value(size) == Some(n as BufferAddress)
        },
        None => size is None,
    }
}

/// Writes the range from `start` to `end` as an offset and a size.
///
/// A range that holds no address gets no size, like one that is open at its
/// end.
pub fn range_to_offset_size(start: RangeBound, end: RangeBound) -> (normal: (
    BufferAddress,
    Option<BufferSize>,
))
    requires
        range_is_expressible(start, end),
    ensures
        normal.0 == range_offset(start),
        size_stands_for(normal.1, range_length(range_offset(start), end)),
{
    let offset = match start {
        RangeBound::Included(bound) => bound,
        RangeBound::Excluded(bound) => bound + 1,
        RangeBound::Unbounded => 0,
    };
    let size = match end {
        RangeBound::Included(bound) => BufferSize::new(bound + 1 - offset),
        RangeBound::Excluded(bound) => BufferSize::new(bound - offset),
        RangeBound::Unbounded => None,
    };
    (offset, size)
}

/// Writes the range from `start` to `end` as an offset and a size, or returns
/// `None` where it cannot be written so.
pub fn checked_range_to_offset_size(start: RangeBound, end: RangeBound) -> (normal: Option<
    (BufferAddress, Option<BufferSize>),
>)
    ensures
        normal is Some <==> range_is_expressible(start, end),
        normal matches Some(pair) ==> pair.0 == range_offset(start) && size_stands_for(
            pair.1,
            range_length(range_offset(start), end),
        ),
{
    let start_fits = match start {
        RangeBound::Excluded(bound) => bound < BufferAddress::MAX,
        _ => true,
    };
    if !start_fits {
        return None;
    }
    let offset = match start {
        RangeBound::Included(bound) => bound,
        RangeBound::Excluded(bound) => bound + 1,
        RangeBound::Unbounded => 0,
    };
    let end_fits = match end {
        RangeBound::Included(bound) => bound < BufferAddress::MAX && offset <= bound + 1,
        RangeBound::Excluded(bound) => offset <= bound,
        RangeBound::Unbounded => true,
    };
    if end_fits {
        Some(range_to_offset_size(start, end))
    } else {
        None
    }
}

/// What a buffer may be used for, as a set of flags in the bits of a number.
#[derive(Clone, Copy, Debug, PartialEq, Eq, Structural, Hash)]
pub struct BufferUsage {
    pub bits: u32,
}

impl BufferUsage {
    /// Whether the flag for mapping for reading, the lowest bit, is set.
    pub open spec fn allows_map_read(self) -> bool {
        self.bits & 1 == 1
    }

    /// Tells whether the buffer may be mapped for reading.
    pub fn can_map_read(&self) -> (allowed: bool)
        ensures
            allowed == self.allows_map_read(),
    {
        usage_contains_map_read(self.bits)
    }
}

/// Calls `wgpu_types::BufferUsage::contains` with the flag `MAP_READ`, on the
/// usage that `from_bits_truncate` makes of `bits`. `MAP_READ` is the lowest
/// bit, truncation keeps it, and `contains` tells whether every bit of the
/// flag is set: so the result is whether the lowest bit of `bits` is set.
#[verifier::external_body]
fn usage_contains_map_read(bits: u32) -> (contained: bool)
    ensures
        contained == (bits & 1 == 1),
{
    wgpu_types::BufferUsage::from_bits_truncate(bits).contains(wgpu_types::BufferUsage::MAP_READ)
}

/// Describes a buffer to create.
#[derive(Clone, Debug, PartialEq, Eq, Hash)]
pub struct BufferDescriptor<'a> {
    /// Name of the buffer for debugging.
    pub label: Option<&'a str>,
    /// Size of the buffer, in bytes.
    pub size: BufferAddress,
    /// What the buffer may be used for.
    pub usage: BufferUsage,
    /// Whether the whole buffer is mapped from the start.
    pub mapped_at_creation: bool,
}

/// What a mapping is for.
#[derive(Clone, Copy, Debug, PartialEq, Eq, Structural)]
pub enum MapMode {
    /// Map only for reading.
    Read,
    /// Map only for writing.
    Write,
}

/// Mapping a buffer failed.
#[derive(Clone, Copy, Debug, PartialEq, Eq, Structural)]
pub struct BufferAsyncError;

impl BufferAsyncError {
    /// The failure in words.
    pub fn message(&self) -> (text: String)
        ensures
            text@ == "Error occurred when trying to async map a buffer"@,
    {
        "Error occurred when trying to async map a buffer".to_string()
    }
}

/// A mapping to ask of the backend.
#[derive(Clone, Copy, Debug, PartialEq, Eq, Structural)]
pub struct MapRequest {
    pub mode: MapMode,
    pub range: AddressRange,
}

/// The map state of a buffer of `size` bytes right after its creation:
/// mapped as a whole if it was created mapped, else not mapped.
pub open spec fn created_state(size: BufferAddress, mapped_at_creation: bool) -> MapState {
    if mapped_at_creation {
        MapState::unmapped(size).after_map(AddressRange { start: 0, end: size })
    } else {
        MapState::unmapped(size)
    }
}

/// What a [`Buffer`] stands for.
pub struct BufferState<H> {
    pub handle: H,
    pub usage: BufferUsage,
    pub map: MapState,
}

/// A buffer that the backend holds under the handle `H`.
#[derive(Debug)]
pub struct Buffer<H> {
    handle: H,
    map_context: MapContext,
    usage: BufferUsage,
}

impl<H> View for Buffer<H> {
    type V = BufferState<H>;

    closed spec fn view(&self) -> BufferState<H> {
        BufferState { handle: self.handle, usage: self.usage, map: self.map_context@ }
    }
}

/// Something that can be bound to a pipeline.
#[derive(Debug)]
#[allow(inconsistent_fields)]
pub enum BindingResource<'a, H> {
    /// The part of a buffer of `size` bytes at `offset`, or without a size
    /// the rest of the buffer from `offset` on.
    Buffer { buffer: &'a Buffer<H>, offset: BufferAddress, size: Option<BufferSize> },
    /// A sampler.
    Sampler(&'a Sampler<H>),
    /// A view of a texture.
    TextureView(&'a TextureView<H>),
    /// Views of textures, as an array.
    TextureViewArray(&'a [TextureView<H>]),
}

/// A part of a buffer: `size` bytes at `offset`, or without a size the rest
/// of the buffer from `offset` on.
#[derive(Clone, Copy, Debug, PartialEq, Eq, Structural)]
pub struct BufferSlice {
    pub offset: BufferAddress,
    pub size: Option<BufferSize>,
}

/// An open view for reading. It is to be given back with
/// [`BufferView::release`].
#[derive(Debug)]
pub struct BufferView {
    slice: BufferSlice,
    range: AddressRange,
}

/// An open view for writing. It is to be given back with
/// [`BufferViewMut::release`].
#[derive(Debug)]
pub struct BufferViewMut {
    slice: BufferSlice,
    range: AddressRange,
    readable: bool,
}

impl<H> Buffer<H> {
    /// The buffer that the backend made under `handle` for `desc`.
    pub fn new(handle: H, desc: &BufferDescriptor) -> (buffer: Buffer<H>)
        ensures
            buffer@.handle == handle,
            buffer@.usage == desc.usage,
            buffer@.map == created_state(desc.size, desc.mapped_at_creation),
            buffer@.map.wf(),
    {
        let mut map_context = MapContext::new(desc.size);
        if desc.mapped_at_creation {
            map_context.map(AddressRange::new(0, desc.size));
        }
        Buffer { handle, map_context, usage: desc.usage }
    }

    /// The handle of the buffer.
    pub fn handle(&self) -> (handle: &H)
        ensures
            *handle == self@.handle,
    {
        &self.handle
    }

    /// What the buffer may be used for.
    pub fn usage(&self) -> (usage: BufferUsage)
        ensures
            usage == self@.usage,
    {
        self.usage
    }

    /// The record of what is mapped.
    pub fn map_context(&self) -> (context: &MapContext)
        ensures
            context@ == self@.map,
    {
        &self.map_context
    }

    /// The whole buffer as something to bind.
    pub fn as_entire_binding<'a>(&'a self) -> (binding: BindingResource<'a, H>)
        ensures
            binding === (BindingResource::Buffer { buffer: self, offset: 0, size: None }),
    {
        BindingResource::Buffer { buffer: self, offset: 0, size: None }
    }

    /// The part of the buffer from `start` to `end`. A range without an end
    /// takes the rest of the buffer; one without either, all of it.
    pub fn slice(&self, start: RangeBound, end: RangeBound) -> (slice: BufferSlice)
        requires
            range_is_expressible(start, end),
        ensures
            slice.offset == range_offset(start),
            size_stands_for(slice.size, range_length(range_offset(start), end)),
    {
        let (offset, size) = range_to_offset_size(start, end);
        BufferSlice { offset, size }
    }

    /// Tells whether the buffer may be unmapped, and if not, why.
    pub fn check_unmap(&self) -> (verdict: Result<(), MapError>)
        ensures
            verdict is Ok <==> self@.map.reset_allowed(),
            verdict matches Err(e) ==> e == MapError::ViewsOpen,
    {
        self.map_context.check_reset()
    }

    /// Forgets the mapping, so that the backend may be told to unmap. No view
    /// may be open.
    pub fn unmap(&mut self)
        requires
            old(self)@.map.reset_allowed(),
        ensures
            final(self)@.handle == old(self)@.handle,
            final(self)@.usage == old(self)@.usage,
            final(self)@.map == MapState::unmapped(old(self)@.map.total_size),
            final(self)@.map.wf(),
    {
        self.map_context.reset();
    }

    /// Forgets the mapping, so that the backend may be told to unmap, or
    /// tells that views are still open: then nothing changes and nothing is to
    /// be told to the backend.
    pub fn try_unmap(&mut self) -> (result: Result<(), MapError>)
        ensures
            result is Ok <==> old(self)@.map.reset_allowed(),
            result is Ok ==> final(self)@.map == MapState::unmapped(old(self)@.map.total_size),
            result matches Err(e) ==> e == MapError::ViewsOpen,
            result is Err ==> final(self)@.map == old(self)@.map,
            final(self)@.handle == old(self)@.handle,
            final(self)@.usage == old(self)@.usage,
            final(self)@.map.wf(),
    {
        self.map_context.try_reset()
    }

    /// Gives the handle back for the backend to drop, unless the thread is
    /// unwinding from a failure: then nothing more is asked of the backend.
    /// A buffer that goes in good order has no view open.
    pub fn release(self, unwinding: bool) -> (dropped: Option<H>)
        requires
            !unwinding ==> self@.map.reset_allowed(),
        ensures
            dropped == (if unwinding {
                None
            } else {
                Some(self@.handle)
            }),
    {
        if unwinding {
            None
        } else {
            Some(self.handle)
        }
    }
}

impl BufferSlice {
    /// Where a mapping of the slice would end in a buffer in state `map`.
    pub open spec fn mapping_end(self, map: MapState) -> int {
        match self.size {
            Some(s) => self.offset + s@,
            None => map.total_size as int,
        }
    }

    /// Whether the slice may be mapped: the end of the slice is an address,
    /// the buffer has no mapping, and what is open lies inside the slice.
    pub open spec fn map_async_allowed(self, map: MapState) -> bool {
        self.mapping_end(map) <= BufferAddress::MAX && map.map_allowed(self.mapping_range(map))
    }

    /// The range that a mapping of the slice covers.
    pub open spec fn mapping_range(self, map: MapState) -> AddressRange {
        AddressRange { start: self.offset, end: self.mapping_end(map) as BufferAddress }
    }

    /// Why the slice may not be mapped, where it may not: the buffer has a
    /// mapping, or else the end of the slice is no address, or else a view is
    /// open that does not lie inside the slice.
    pub open spec fn map_async_refusal(self, map: MapState) -> MapError {
        if map.mapping != AddressRange::nothing() {
            MapError::AlreadyMapped
        } else if self.mapping_end(map) > BufferAddress::MAX {
            MapError::OutOfBounds
        } else {
            MapError::ViewsOpen
        }
    }

    /// Tells whether the slice may be mapped, and if not, why.
    pub fn check_map_async<H>(&self, buffer: &Buffer<H>) -> (verdict: Result<(), MapError>)
        ensures
            verdict is Ok <==> self.map_async_allowed(buffer@.map),
            verdict matches Err(e) ==> e == self.map_async_refusal(buffer@.map),
            buffer@.map.wf(),
    {
        let mapped = buffer.map_context.initial_range();
        if !(mapped.start == 0 && mapped.end == 0) {
            return Err(MapError::AlreadyMapped);
        }
        let end = match self.size {
            Some(s) => match self.offset.checked_add(s.get()) {
                Some(end) => end,
                None => {
                    return Err(MapError::OutOfBounds);
                },
            },
            None => buffer.map_context.total_size(),
        };
        buffer.map_context.check_map(AddressRange::new(self.offset, end))
    }

    /// Records that the slice is being mapped and returns what to ask of the
    /// backend. The buffer may have no mapping yet, and what is open must lie
    /// inside the slice.
    pub fn map_async<H>(&self, buffer: &mut Buffer<H>, mode: MapMode) -> (request: MapRequest)
        requires
            self.map_async_allowed(old(buffer)@.map),
        ensures
            request.mode == mode,
            request.range == self.mapping_range(old(buffer)@.map),
            final(buffer)@.handle == old(buffer)@.handle,
            final(buffer)@.usage == old(buffer)@.usage,
            final(buffer)@.map == old(buffer)@.map.after_map(request.range),
            final(buffer)@.map.wf(),
    {
        let end = match self.size {
            Some(s) => self.offset + s.get(),
            None => buffer.map_context.total_size(),
        };
        let range = AddressRange::new(self.offset, end);
        buffer.map_context.map(range);
        MapRequest { mode, range }
    }

    /// Records that the slice is being mapped and returns what to ask of the
    /// backend, or tells why the slice may not be mapped: then nothing changes
    /// and nothing is to be asked.
    pub fn try_map_async<H>(&self, buffer: &mut Buffer<H>, mode: MapMode) -> (result: Result<
        MapRequest,
        MapError,
    >)
        ensures
            result is Ok <==> self.map_async_allowed(old(buffer)@.map),
            result matches Ok(request) ==> {
                &&& request.mode == mode
                &&& request.range == self.mapping_range(old(buffer)@.map)
                &&& final(buffer)@.map == old(buffer)@.map.after_map(request.range)
            },
            result matches Err(e) ==> e == self.map_async_refusal(old(buffer)@.map),
            result is Err ==> final(buffer)@.map == old(buffer)@.map,
            final(buffer)@.handle == old(buffer)@.handle,
            final(buffer)@.usage == old(buffer)@.usage,
            final(buffer)@.map.wf(),
    {
        match self.check_map_async(buffer) {
            Ok(()) => Ok(self.map_async(buffer, mode)),
            Err(e) => Err(e),
        }
    }

    /// Tells whether a view of the slice may be opened, and if not, why.
    pub fn check_get_mapped_range<H>(&self, buffer: &Buffer<H>) -> (verdict: Result<
        (),
        MapError,
    >)
        ensures
            verdict is Ok <==> buffer@.map.add_allowed(self.offset, self.size),
            !buffer@.map.in_bounds(self.offset, self.size) ==> verdict == Err::<(), MapError>(
                MapError::OutOfBounds,
            ),
            buffer@.map.in_bounds(self.offset, self.size) ==> (verdict matches Err(e)
                ==> exists|i: int|
                buffer@.map.first_meeting(buffer@.map.requested(self.offset, self.size), i) && e
                    == MapError::Intersects(buffer@.map.open[i])),
            buffer@.map.wf(),
    {
        match buffer.map_context.check_add(self.offset, self.size) {
            Ok(_) => Ok(()),
            Err(e) => Err(e),
        }
    }

    /// Opens a view of the slice for reading. The slice must lie in the
    /// mapping and meet no open view.
    pub fn get_mapped_range<H>(&self, buffer: &mut Buffer<H>) -> (view: BufferView)
        requires
            old(buffer)@.map.add_allowed(self.offset, self.size),
        ensures
            view.slice() == *self,
            view.range() == old(buffer)@.map.requested(self.offset, self.size),
            final(buffer)@.handle == old(buffer)@.handle,
            final(buffer)@.usage == old(buffer)@.usage,
            final(buffer)@.map == old(buffer)@.map.after_add(self.offset, self.size),
            final(buffer)@.map.wf(),
            final(buffer)@.map.remove_allowed(self.offset, self.size),
    {
        let end = buffer.map_context.add(self.offset, self.size);
        BufferView { slice: *self, range: AddressRange::new(self.offset, end) }
    }

    /// Opens a view of the slice for writing. The slice must lie in the
    /// mapping and meet no open view. The view can also be read where the
    /// buffer may be mapped for reading.
    pub fn get_mapped_range_mut<H>(&self, buffer: &mut Buffer<H>) -> (view: BufferViewMut)
        requires
            old(buffer)@.map.add_allowed(self.offset, self.size),
        ensures
            view.slice() == *self,
            view.range() == old(buffer)@.map.requested(self.offset, self.size),
            view.readable() == old(buffer)@.usage.allows_map_read(),
            final(buffer)@.handle == old(buffer)@.handle,
            final(buffer)@.usage == old(buffer)@.usage,
            final(buffer)@.map == old(buffer)@.map.after_add(self.offset, self.size),
            final(buffer)@.map.wf(),
            final(buffer)@.map.remove_allowed(self.offset, self.size),
    {
        let end = buffer.map_context.add(self.offset, self.size);
        BufferViewMut {
            slice: *self,
            range: AddressRange::new(self.offset, end),
            readable: buffer.usage.can_map_read(),
        }
    }

    /// Opens a view of the slice for reading, or tells why the view is
    /// refused: then no view is open that was not open before, and nothing is
    /// to be asked of the backend.
    pub fn try_get_mapped_range<H>(&self, buffer: &mut Buffer<H>) -> (result: Result<
        BufferView,
        MapError,
    >)
        ensures
            result is Ok <==> old(buffer)@.map.add_allowed(self.offset, self.size),
            result matches Ok(view) ==> {
                &&& view.slice() == *self
                &&& view.range() == old(buffer)@.map.requested(self.offset, self.size)
                &&& final(buffer)@.map == old(buffer)@.map.after_add(self.offset, self.size)
                &&& final(buffer)@.map.remove_allowed(self.offset, self.size)
            },
            result is Err ==> final(buffer)@.map == old(buffer)@.map,
            !old(buffer)@.map.in_bounds(self.offset, self.size) ==> (result matches Err(e) && e
                == MapError::OutOfBounds),
            old(buffer)@.map.in_bounds(self.offset, self.size) ==> (result matches Err(e)
                ==> exists|i: int|
                old(buffer)@.map.first_meeting(
                    old(buffer)@.map.requested(self.offset, self.size),
                    i,
                ) && e == MapError::Intersects(old(buffer)@.map.open[i])),
            final(buffer)@.handle == old(buffer)@.handle,
            final(buffer)@.usage == old(buffer)@.usage,
            final(buffer)@.map.wf(),
    {
        match self.check_get_mapped_range(buffer) {
            Ok(()) => Ok(self.get_mapped_range(buffer)),
            Err(e) => Err(e),
        }
    }

    /// Opens a view of the slice for writing, or tells why the view is
    /// refused: then no view is open that was not open before, and nothing is
    /// to be asked of the backend.
    pub fn try_get_mapped_range_mut<H>(&self, buffer: &mut Buffer<H>) -> (result: Result<
        BufferViewMut,
        MapError,
    >)
        ensures
            result is Ok <==> old(buffer)@.map.add_allowed(self.offset, self.size),
            result matches Ok(view) ==> {
                &&& view.slice() == *self
                &&& view.range() == old(buffer)@.map.requested(self.offset, self.size)
                &&& view.readable() == old(buffer)@.usage.allows_map_read()
                &&& final(buffer)@.map == old(buffer)@.map.after_add(self.offset, self.size)
                &&& final(buffer)@.map.remove_allowed(self.offset, self.size)
            },
            result is Err ==> final(buffer)@.map == old(buffer)@.map,
            !old(buffer)@.map.in_bounds(self.offset, self.size) ==> (result matches Err(e) && e
                == MapError::OutOfBounds),
            old(buffer)@.map.in_bounds(self.offset, self.size) ==> (result matches Err(e)
                ==> exists|i: int|
                old(buffer)@.map.first_meeting(
                    old(buffer)@.map.requested(self.offset, self.size),
                    i,
                ) && e == MapError::Intersects(old(buffer)@.map.open[i])),
            final(buffer)@.handle == old(buffer)@.handle,
            final(buffer)@.usage == old(buffer)@.usage,
            final(buffer)@.map.wf(),
    {
        match self.check_get_mapped_range(buffer) {
            Ok(()) => Ok(self.get_mapped_range_mut(buffer)),
            Err(e) => Err(e),
        }
    }
}

impl BufferView {
    /// The slice that the view is of.
    pub closed spec fn slice(self) -> BufferSlice {
        self.slice
    }

    /// The addresses that the view covers.
    pub closed spec fn range(self) -> AddressRange {
        self.range
    }

    /// The slice that the view is of.
    pub fn get_slice(&self) -> (slice: BufferSlice)
        ensures
            slice == self.slice(),
    {
        self.slice
    }

    /// The addresses that the view covers.
    pub fn get_range(&self) -> (range: AddressRange)
        ensures
            range == self.range(),
    {
        self.range
    }

    /// Tells whether the view is open in `buffer`, and if not, why it cannot
    /// be given back.
    pub fn check_release<H>(&self, buffer: &Buffer<H>) -> (verdict: Result<(), MapError>)
        ensures
            verdict is Ok <==> buffer@.map.remove_allowed(self.slice().offset, self.slice().size),
            verdict matches Err(e) ==> e == MapError::NotOpen,
    {
        buffer.map_context.check_remove(self.slice.offset, self.slice.size)
    }

    /// Gives the view back, or tells that it is not open in `buffer` and
    /// leaves the buffer as it was.
    pub fn try_release<H>(self, buffer: &mut Buffer<H>) -> (result: Result<(), MapError>)
        ensures
            result is Ok <==> old(buffer)@.map.remove_allowed(
                self.slice().offset,
                self.slice().size,
            ),
            result is Ok ==> final(buffer)@.map == old(buffer)@.map.after_remove(
                self.slice().offset,
                self.slice().size,
            ),
            result matches Err(e) ==> e == MapError::NotOpen,
            result is Err ==> final(buffer)@.map == old(buffer)@.map,
            final(buffer)@.handle == old(buffer)@.handle,
            final(buffer)@.usage == old(buffer)@.usage,
            final(buffer)@.map.wf(),
    {
        buffer.map_context.try_remove(self.slice.offset, self.slice.size)
    }

    /// Gives the view back: its range is no longer open.
    pub fn release<H>(self, buffer: &mut Buffer<H>)
        requires
            old(buffer)@.map.remove_allowed(self.slice().offset, self.slice().size),
        ensures
            final(buffer)@.handle == old(buffer)@.handle,
            final(buffer)@.usage == old(buffer)@.usage,
            final(buffer)@.map == old(buffer)@.map.after_remove(
                self.slice().offset,
                self.slice().size,
            ),
            final(buffer)@.map.wf(),
    {
        buffer.map_context.remove(self.slice.offset, self.slice.size);
    }
}

impl BufferViewMut {
    /// The slice that the view is of.
    pub closed spec fn slice(self) -> BufferSlice {
        self.slice
    }

    /// The addresses that the view covers.
    pub closed spec fn range(self) -> AddressRange {
        self.range
    }

    /// Whether the view may be read as well as written.
    pub closed spec fn readable(self) -> bool {
        self.readable
    }

    /// The slice that the view is of.
    pub fn get_slice(&self) -> (slice: BufferSlice)
        ensures
            slice == self.slice(),
    {
        self.slice
    }

    /// The addresses that the view covers.
    pub fn get_range(&self) -> (range: AddressRange)
        ensures
            range == self.range(),
    {
        self.range
    }

    /// Tells whether the view may be read: a view for writing of a buffer
    /// that cannot be mapped for reading may not.
    pub fn check_read(&self) -> (verdict: Result<(), MapError>)
        ensures
            verdict is Ok <==> self.readable(),
            verdict matches Err(e) ==> e == MapError::WriteOnly,
    {
        if self.readable {
            Ok(())
        } else {
            Err(MapError::WriteOnly)
        }
    }

    /// Tells whether the view is open in `buffer`, and if not, why it cannot
    /// be given back.
    pub fn check_release<H>(&self, buffer: &Buffer<H>) -> (verdict: Result<(), MapError>)
        ensures
            verdict is Ok <==> buffer@.map.remove_allowed(self.slice().offset, self.slice().size),
            verdict matches Err(e) ==> e == MapError::NotOpen,
    {
        buffer.map_context.check_remove(self.slice.offset, self.slice.size)
    }

    /// Gives the view back, or tells that it is not open in `buffer` and
    /// leaves the buffer as it was.
    pub fn try_release<H>(self, buffer: &mut Buffer<H>) -> (result: Result<(), MapError>)
        ensures
            result is Ok <==> old(buffer)@.map.remove_allowed(
                self.slice().offset,
                self.slice().size,
            ),
            result is Ok ==> final(buffer)@.map == old(buffer)@.map.after_remove(
                self.slice().offset,
                self.slice().size,
            ),
            result matches Err(e) ==> e == MapError::NotOpen,
            result is Err ==> final(buffer)@.map == old(buffer)@.map,
            final(buffer)@.handle == old(buffer)@.handle,
            final(buffer)@.usage == old(buffer)@.usage,
            final(buffer)@.map.wf(),
    {
        buffer.map_context.try_remove(self.slice.offset, self.slice.size)
    }

    /// Gives the view back: its range is no longer open.
    pub fn release<H>(self, buffer: &mut Buffer<H>)
        requires
            old(buffer)@.map.remove_allowed(self.slice().offset, self.slice().size),
        ensures
            final(buffer)@.handle == old(buffer)@.handle,
            final(buffer)@.usage == old(buffer)@.usage,
            final(buffer)@.map == old(buffer)@.map.after_remove(
                self.slice().offset,
                self.slice().size,
            ),
            final(buffer)@.map.wf(),
    {
        buffer.map_context.remove(self.slice.offset, self.slice.size);
    }
}

/// A buffer that was created mapped lets any part of it be viewed, the view
/// be given back, and the buffer be unmapped after that.
///
/// The part is `length` bytes at `offset`, written as the slice from `offset`
/// to `offset + length`, and lies in the buffer.
pub proof fn lemma_view_round_trip(
    total_size: BufferAddress,
    offset: BufferAddress,
    length: BufferAddress,
    slice: BufferSlice,
)
    requires
        offset + length <= total_size,
        slice.offset == range_offset(RangeBound::Included(offset)),
        size_stands_for(
            slice.size,
            range_length(
                range_offset(RangeBound::Included(offset)),
                RangeBound::Excluded((offset + length) as BufferAddress),
            ),
        ),
    ensures
        range_is_expressible(
            RangeBound::Included(offset),
            RangeBound::Excluded((offset + length) as BufferAddress),
        ),
        created_state(total_size, true).wf(),
        created_state(total_size, true).add_allowed(slice.offset, slice.size),
        created_state(total_size, true).after_add(slice.offset, slice.size).remove_allowed(
            slice.offset,
            slice.size,
        ),
        created_state(total_size, true).after_add(slice.offset, slice.size).after_remove(
            slice.offset,
            slice.size,
        ).reset_allowed(),
{
    let created = created_state(total_size, true);
    let opened = created.after_add(slice.offset, slice.size);
    let range = created.requested(slice.offset, slice.size);
    assert(opened.open[0] == range);
    assert(opened.open.contains(range));
    assert(opened.requested(slice.offset, slice.size) == range);
    opened.lemma_without_is_removal(range);
}

} // verus!
