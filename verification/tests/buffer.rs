use wgpu::{
    checked_range_to_offset_size, range_to_offset_size, AddressRange, BindingResource, Buffer,
    BufferAsyncError, BufferDescriptor, BufferSize, BufferSlice, BufferUsage, Device, Instance,
    MapError, MapMode, MapRequest, RangeBound,
};

fn usage(flags: wgpu_types::BufferUsage) -> BufferUsage {
    BufferUsage { bits: flags.bits() }
}

fn descriptor(size: u64, flags: wgpu_types::BufferUsage, mapped: bool) -> BufferDescriptor<'static> {
    BufferDescriptor { label: Some("test"), size, usage: usage(flags), mapped_at_creation: mapped }
}

fn mapped_buffer(size: u64) -> Buffer<u32> {
    Buffer::new(7, &descriptor(size, wgpu_types::BufferUsage::MAP_WRITE, true))
}

#[test]
fn half_open_range_becomes_offset_and_length() {
    let (offset, size) = range_to_offset_size(RangeBound::Included(4), RangeBound::Excluded(16));
    assert_eq!(offset, 4);
    assert_eq!(size, BufferSize::new(12));
    assert_eq!(size.map(|s| s.get()), Some(12));
}

#[test]
fn closed_range_holds_its_last_address() {
    let (offset, size) = range_to_offset_size(RangeBound::Included(4), RangeBound::Included(16));
    assert_eq!(offset, 4);
    assert_eq!(size.map(|s| s.get()), Some(13));
}

#[test]
fn excluded_start_begins_one_later() {
    let (offset, size) = range_to_offset_size(RangeBound::Excluded(3), RangeBound::Included(7));
    assert_eq!(offset, 4);
    assert_eq!(size.map(|s| s.get()), Some(4));
}

#[test]
fn open_ended_range_has_no_size() {
    assert_eq!(range_to_offset_size(RangeBound::Included(9), RangeBound::Unbounded), (9, None));
    assert_eq!(range_to_offset_size(RangeBound::Unbounded, RangeBound::Unbounded), (0, None));
    let (offset, size) = range_to_offset_size(RangeBound::Unbounded, RangeBound::Excluded(32));
    assert_eq!(offset, 0);
    assert_eq!(size.map(|s| s.get()), Some(32));
}

#[test]
fn range_of_no_address_has_no_size() {
    assert_eq!(range_to_offset_size(RangeBound::Included(5), RangeBound::Excluded(5)), (5, None));
    assert_eq!(range_to_offset_size(RangeBound::Included(5), RangeBound::Included(4)), (5, None));
    assert_eq!(range_to_offset_size(RangeBound::Unbounded, RangeBound::Excluded(0)), (0, None));
}

#[test]
fn range_that_cannot_be_written_is_refused() {
    let max = u64::MAX;
    assert_eq!(checked_range_to_offset_size(RangeBound::Excluded(max), RangeBound::Unbounded), None);
    assert_eq!(checked_range_to_offset_size(RangeBound::Unbounded, RangeBound::Included(max)), None);
    assert_eq!(checked_range_to_offset_size(RangeBound::Included(8), RangeBound::Excluded(7)), None);
    assert_eq!(checked_range_to_offset_size(RangeBound::Included(8), RangeBound::Included(6)), None);
    assert_eq!(checked_range_to_offset_size(RangeBound::Excluded(8), RangeBound::Excluded(8)), None);
}

#[test]
fn range_that_can_be_written_is_written_as_unchecked() {
    let max = u64::MAX;
    let cases = [
        (RangeBound::Included(4), RangeBound::Excluded(16)),
        (RangeBound::Excluded(3), RangeBound::Included(7)),
        (RangeBound::Unbounded, RangeBound::Unbounded),
        (RangeBound::Included(max), RangeBound::Excluded(max)),
        (RangeBound::Included(0), RangeBound::Excluded(max)),
        (RangeBound::Excluded(max - 1), RangeBound::Unbounded),
        (RangeBound::Included(8), RangeBound::Included(7)),
    ];
    for (start, end) in cases {
        assert_eq!(checked_range_to_offset_size(start, end), Some(range_to_offset_size(start, end)));
    }
    let (offset, size) = range_to_offset_size(RangeBound::Included(0), RangeBound::Excluded(max));
    assert_eq!((offset, size.map(|s| s.get())), (0, Some(max)));
}

#[test]
fn buffer_created_mapped_is_mapped_as_a_whole() {
    let buffer = mapped_buffer(256);
    assert_eq!(*buffer.handle(), 7);
    assert_eq!(buffer.usage(), usage(wgpu_types::BufferUsage::MAP_WRITE));
    assert_eq!(buffer.map_context().total_size(), 256);
    assert_eq!(buffer.map_context().initial_range(), AddressRange::new(0, 256));
    assert_eq!(buffer.map_context().open_count(), 0);
}

#[test]
fn buffer_created_unmapped_has_no_mapping() {
    let buffer: Buffer<u32> =
        Buffer::new(1, &descriptor(256, wgpu_types::BufferUsage::COPY_DST, false));
    assert_eq!(buffer.map_context().total_size(), 256);
    assert_eq!(buffer.map_context().initial_range(), AddressRange::new(0, 0));
    let slice = buffer.slice(RangeBound::Included(0), RangeBound::Excluded(64));
    assert_eq!(slice.check_get_mapped_range(&buffer), Err(MapError::OutOfBounds));
}

#[test]
fn device_creates_the_buffer_that_new_creates() {
    let instance = Instance::new(0u8);
    let adapter = instance.request_adapter(Some(3u16)).unwrap();
    let (device, _queue) = adapter.request_device::<u32, u64>(Ok((5, 6))).ok().unwrap();
    let desc = descriptor(128, wgpu_types::BufferUsage::MAP_READ, true);
    let buffer = device.create_buffer(&desc, "handle");
    assert_eq!(*buffer.handle(), "handle");
    assert_eq!(buffer.usage(), desc.usage);
    assert_eq!(buffer.map_context().initial_range(), AddressRange::new(0, 128));
    assert_eq!(buffer.map_context().total_size(), 128);
}

#[test]
fn overlapping_slice_is_refused_until_the_first_view_is_released() {
    let mut buffer = mapped_buffer(256);
    let first = buffer.slice(RangeBound::Included(0), RangeBound::Excluded(64));
    let second = buffer.slice(RangeBound::Included(32), RangeBound::Excluded(96));
    assert_eq!(first.check_get_mapped_range(&buffer), Ok(()));
    let view = first.get_mapped_range(&mut buffer);
    assert_eq!(view.get_range(), AddressRange::new(0, 64));
    assert_eq!(
        second.check_get_mapped_range(&buffer),
        Err(MapError::Intersects(AddressRange::new(0, 64)))
    );
    assert_eq!(view.check_release(&buffer), Ok(()));
    view.release(&mut buffer);
    assert_eq!(second.check_get_mapped_range(&buffer), Ok(()));
    let view = second.get_mapped_range(&mut buffer);
    assert_eq!(view.get_range(), AddressRange::new(32, 96));
    assert_eq!(view.get_slice(), second);
}

#[test]
fn view_release_unmap_round_trip() {
    for (size, offset, length) in [(256u64, 0u64, 256u64), (256, 64, 32), (256, 255, 1), (256, 256, 0), (256, 10, 0), (1, 0, 1), (0, 0, 0)] {
        let mut buffer = mapped_buffer(size);
        let slice = buffer.slice(RangeBound::Included(offset), RangeBound::Excluded(offset + length));
        assert_eq!(slice.offset, offset);
        assert_eq!(slice.size, BufferSize::new(length));
        assert_eq!(slice.check_get_mapped_range(&buffer), Ok(()));
        let view = slice.get_mapped_range(&mut buffer);
        assert_eq!(buffer.check_unmap(), Err(MapError::ViewsOpen));
        assert_eq!(view.check_release(&buffer), Ok(()));
        view.release(&mut buffer);
        assert_eq!(buffer.check_unmap(), Ok(()));
        buffer.unmap();
        assert_eq!(buffer.map_context().initial_range(), AddressRange::new(0, 0));
        assert_eq!(buffer.map_context().open_count(), 0);
        assert_eq!(buffer.map_context().total_size(), size);
    }
}

#[test]
fn unmap_is_refused_while_a_view_is_open() {
    let mut buffer = mapped_buffer(64);
    assert_eq!(buffer.check_unmap(), Ok(()));
    let slice = BufferSlice { offset: 0, size: None };
    let view = slice.get_mapped_range_mut(&mut buffer);
    assert_eq!(view.get_range(), AddressRange::new(0, 64));
    assert_eq!(buffer.check_unmap(), Err(MapError::ViewsOpen));
    view.release(&mut buffer);
    assert_eq!(buffer.check_unmap(), Ok(()));
}

#[test]
fn view_cannot_be_released_twice() {
    let mut buffer = mapped_buffer(64);
    let slice = BufferSlice { offset: 8, size: BufferSize::new(8) };
    let first = slice.get_mapped_range(&mut buffer);
    assert_eq!(first.check_release(&buffer), Ok(()));
    first.release(&mut buffer);
    let again = slice.get_mapped_range(&mut buffer);
    again.release(&mut buffer);
    let stale = slice.get_mapped_range(&mut buffer);
    let other = BufferSlice { offset: 16, size: BufferSize::new(8) }.get_mapped_range(&mut buffer);
    stale.release(&mut buffer);
    assert_eq!(other.check_release(&buffer), Ok(()));
    other.release(&mut buffer);
    assert_eq!(buffer.map_context().check_remove(8, BufferSize::new(8)), Err(MapError::NotOpen));
}

#[test]
fn map_async_records_the_mapping_and_asks_for_it() {
    let mut buffer: Buffer<u32> =
        Buffer::new(1, &descriptor(256, wgpu_types::BufferUsage::MAP_READ, false));
    let slice = buffer.slice(RangeBound::Included(16), RangeBound::Excluded(48));
    assert_eq!(slice.check_map_async(&buffer), Ok(()));
    let request = slice.map_async(&mut buffer, MapMode::Read);
    assert_eq!(request, MapRequest { mode: MapMode::Read, range: AddressRange::new(16, 48) });
    assert_eq!(buffer.map_context().initial_range(), AddressRange::new(16, 48));
    assert_eq!(slice.check_map_async(&buffer), Err(MapError::AlreadyMapped));
    let inside = BufferSlice { offset: 16, size: BufferSize::new(32) };
    assert_eq!(inside.check_get_mapped_range(&buffer), Ok(()));
    let outside = BufferSlice { offset: 0, size: BufferSize::new(32) };
    assert_eq!(outside.check_get_mapped_range(&buffer), Err(MapError::OutOfBounds));
}

#[test]
fn map_async_without_size_maps_to_the_end_of_the_buffer() {
    let mut buffer: Buffer<u32> =
        Buffer::new(1, &descriptor(256, wgpu_types::BufferUsage::MAP_WRITE, false));
    let slice = buffer.slice(RangeBound::Included(100), RangeBound::Unbounded);
    let request = slice.map_async(&mut buffer, MapMode::Write);
    assert_eq!(request.mode, MapMode::Write);
    assert_eq!(request.range, AddressRange::new(100, 256));
    buffer.unmap();
    assert_eq!(slice.check_map_async(&buffer), Ok(()));
    let whole = buffer.slice(RangeBound::Unbounded, RangeBound::Unbounded);
    assert_eq!(whole.map_async(&mut buffer, MapMode::Read).range, AddressRange::new(0, 256));
}

#[test]
fn view_of_a_slice_beyond_the_buffer_is_refused() {
    let mut buffer = mapped_buffer(256);
    let beyond = buffer.slice(RangeBound::Included(300), RangeBound::Unbounded);
    assert_eq!(beyond.check_get_mapped_range(&buffer), Err(MapError::OutOfBounds));
    let past = buffer.slice(RangeBound::Included(257), RangeBound::Unbounded);
    assert_eq!(past.check_get_mapped_range(&buffer), Err(MapError::OutOfBounds));
    assert_eq!(buffer.map_context().open_count(), 0);
    let edge = buffer.slice(RangeBound::Included(256), RangeBound::Unbounded);
    assert_eq!(edge.check_get_mapped_range(&buffer), Ok(()));
    let view = edge.get_mapped_range(&mut buffer);
    assert_eq!(view.get_range(), AddressRange::new(256, 256));
    view.release(&mut buffer);
    assert_eq!(buffer.check_unmap(), Ok(()));
}

#[test]
fn map_async_is_refused_while_a_view_would_lie_outside_the_slice() {
    let mut buffer: Buffer<u32> =
        Buffer::new(1, &descriptor(64, wgpu_types::BufferUsage::MAP_READ, false));
    let nothing = BufferSlice { offset: 0, size: None };
    let view = nothing.get_mapped_range(&mut buffer);
    assert_eq!(view.get_range(), AddressRange::new(0, 0));
    let later = BufferSlice { offset: 8, size: BufferSize::new(8) };
    assert_eq!(later.check_map_async(&buffer), Err(MapError::ViewsOpen));
    let from_zero = BufferSlice { offset: 0, size: BufferSize::new(8) };
    assert_eq!(from_zero.check_map_async(&buffer), Ok(()));
    view.release(&mut buffer);
    assert_eq!(later.check_map_async(&buffer), Ok(()));
    assert_eq!(later.map_async(&mut buffer, MapMode::Read).range, AddressRange::new(8, 16));
}

#[test]
fn map_async_on_a_mapped_buffer_is_refused() {
    let buffer = mapped_buffer(64);
    let slice = BufferSlice { offset: 0, size: None };
    assert_eq!(slice.check_map_async(&buffer), Err(MapError::AlreadyMapped));
    let beyond = BufferSlice { offset: u64::MAX, size: BufferSize::new(1) };
    assert_eq!(beyond.check_map_async(&buffer), Err(MapError::AlreadyMapped));
}

#[test]
fn map_async_whose_end_is_beyond_every_address_is_refused() {
    let buffer: Buffer<u32> =
        Buffer::new(1, &descriptor(64, wgpu_types::BufferUsage::MAP_READ, false));
    let beyond = BufferSlice { offset: u64::MAX, size: BufferSize::new(1) };
    assert_eq!(beyond.check_map_async(&buffer), Err(MapError::OutOfBounds));
    let edge = BufferSlice { offset: u64::MAX - 1, size: BufferSize::new(1) };
    assert_eq!(edge.check_map_async(&buffer), Ok(()));
}

#[test]
fn writing_view_is_readable_only_with_map_read() {
    let read = wgpu_types::BufferUsage::MAP_READ;
    let write = wgpu_types::BufferUsage::MAP_WRITE;
    let cases = [
        (usage(write), false),
        (usage(read), true),
        (usage(read | write), true),
        (usage(wgpu_types::BufferUsage::all()), true),
        (usage(wgpu_types::BufferUsage::all() - read), false),
        (usage(wgpu_types::BufferUsage::empty()), false),
        (BufferUsage { bits: 0xffff_fffe }, false),
        (BufferUsage { bits: 0xffff_ffff }, true),
        (BufferUsage { bits: 0x8000_0001 }, true),
    ];
    for (flags, readable) in cases {
        assert_eq!(flags.can_map_read(), readable);
        let desc =
            BufferDescriptor { label: None, size: 16, usage: flags, mapped_at_creation: true };
        let mut buffer: Buffer<u8> = Buffer::new(0, &desc);
        let slice = BufferSlice { offset: 0, size: BufferSize::new(4) };
        let view = slice.get_mapped_range_mut(&mut buffer);
        assert_eq!(view.get_slice(), slice);
        assert_eq!(view.get_range(), AddressRange::new(0, 4));
        assert_eq!(view.check_read().is_ok(), readable);
        if !readable {
            assert_eq!(view.check_read(), Err(MapError::WriteOnly));
        }
        assert_eq!(view.check_release(&buffer), Ok(()));
        view.release(&mut buffer);
        assert_eq!(buffer.check_unmap(), Ok(()));
    }
}

#[test]
fn entire_binding_starts_at_zero_without_a_size() {
    let buffer = mapped_buffer(64);
    match buffer.as_entire_binding() {
        BindingResource::Buffer { buffer: bound, offset, size } => {
            assert_eq!(*bound.handle(), 7);
            assert_eq!(offset, 0);
            assert_eq!(size, None);
        }
        _ => panic!("the binding of a buffer is a buffer"),
    }
}

#[test]
fn buffer_gives_its_handle_back_unless_unwinding() {
    assert_eq!(mapped_buffer(64).release(false), Some(7));
    assert_eq!(mapped_buffer(64).release(true), None);
    let mut viewed = mapped_buffer(64);
    let view = BufferSlice { offset: 0, size: None }.get_mapped_range(&mut viewed);
    assert_eq!(viewed.check_unmap(), Err(MapError::ViewsOpen));
    assert_eq!(view.get_range(), AddressRange::new(0, 64));
    assert_eq!(viewed.release(true), None);
}

#[test]
fn map_failure_in_words() {
    assert_eq!(BufferAsyncError.message(), "Error occurred when trying to async map a buffer");
}

#[test]
fn device_is_unused_by_buffer_bookkeeping() {
    let device_a: Device<u8> =
        Instance::new(()).request_adapter(Some(0u8)).unwrap().request_device::<u8, u8>(Ok((1, 2))).ok().unwrap().0;
    let desc = descriptor(32, wgpu_types::BufferUsage::MAP_WRITE, false);
    let buffer = device_a.create_buffer(&desc, 9u8);
    assert_eq!(buffer.map_context().initial_range(), AddressRange::new(0, 0));
    assert_eq!(buffer.release(false), Some(9));
}

#[test]
fn refused_calls_leave_the_buffer_as_it_was() {
    let mut buffer = mapped_buffer(256);
    let first = BufferSlice { offset: 0, size: BufferSize::new(64) };
    let second = BufferSlice { offset: 32, size: BufferSize::new(64) };
    let beyond = BufferSlice { offset: 300, size: None };
    let view = first.try_get_mapped_range(&mut buffer).ok().unwrap();
    assert_eq!(view.get_range(), AddressRange::new(0, 64));
    assert_eq!(
        second.try_get_mapped_range(&mut buffer).err(),
        Some(MapError::Intersects(AddressRange::new(0, 64)))
    );
    assert_eq!(
        second.try_get_mapped_range_mut(&mut buffer).err(),
        Some(MapError::Intersects(AddressRange::new(0, 64)))
    );
    assert_eq!(beyond.try_get_mapped_range(&mut buffer).err(), Some(MapError::OutOfBounds));
    assert_eq!(first.try_map_async(&mut buffer, MapMode::Read), Err(MapError::AlreadyMapped));
    assert_eq!(buffer.try_unmap(), Err(MapError::ViewsOpen));
    assert_eq!(buffer.map_context().open_count(), 1);
    assert_eq!(buffer.map_context().initial_range(), AddressRange::new(0, 256));
    assert_eq!(view.try_release(&mut buffer), Ok(()));
    let written = second.try_get_mapped_range_mut(&mut buffer).ok().unwrap();
    assert_eq!(written.get_range(), AddressRange::new(32, 96));
    assert_eq!(written.check_read(), Err(MapError::WriteOnly));
    assert_eq!(written.try_release(&mut buffer), Ok(()));
    assert_eq!(buffer.try_unmap(), Ok(()));
    assert_eq!(buffer.map_context().initial_range(), AddressRange::new(0, 0));
    assert_eq!(
        second.try_map_async(&mut buffer, MapMode::Write),
        Ok(MapRequest { mode: MapMode::Write, range: AddressRange::new(32, 96) })
    );
    assert_eq!(buffer.map_context().initial_range(), AddressRange::new(32, 96));
}

#[test]
fn view_given_back_to_another_buffer_is_refused() {
    let mut one = mapped_buffer(64);
    let mut other = mapped_buffer(64);
    let view = BufferSlice { offset: 8, size: BufferSize::new(8) }.get_mapped_range(&mut one);
    assert_eq!(view.try_release(&mut other), Err(MapError::NotOpen));
    assert_eq!(other.map_context().open_count(), 0);
    assert_eq!(one.map_context().open_count(), 1);
}
