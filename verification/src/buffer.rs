//! Buffers: how they are made, and the ranges of them that are mapped.

use vstd::prelude::*;

use crate::conv::map_known;
use crate::native::{WGPUBool, WGPUFuture};

verus! {

/// How much of a buffer is mapped: all of it, or a number of bytes.
#[derive(Clone, Copy, Debug, PartialEq, Eq, Structural)]
pub enum MapSize {
    Whole,
    Bytes(usize),
}

/// How much of a buffer a native size asks for: one size stands for the whole of it.
pub fn map_size(size: usize, whole_map_size: usize) -> (asked: MapSize)
    ensures
        asked == (if size == whole_map_size {
            MapSize::Whole
        } else {
            MapSize::Bytes(size)
        }),
{
    if size == whole_map_size {
        MapSize::Whole
    } else {
        MapSize::Bytes(size)
    }
}

/// The bytes of a buffer from `start` up to and not with `end`.
#[derive(Clone, Copy, Debug, PartialEq, Eq, Structural)]
pub struct MappedRange {
    pub start: u64,
    pub end: u64,
}

/// How many bytes are mapped of a buffer of the given size. All of a buffer is as many bytes as
/// it has, wherever the range starts.
pub open spec fn mapped_len(size: MapSize, buffer_size: u64) -> int {
    match size {
        MapSize::Whole => buffer_size as int,
        MapSize::Bytes(bytes) => bytes as int,
    }
}

fn mapped_range(offset: usize, size: MapSize, buffer_size: u64) -> (range: MappedRange)
    requires
        offset + mapped_len(size, buffer_size) <= u64::MAX,
    ensures
        range.start == offset,
        range.end == offset + mapped_len(size, buffer_size),
        match size {
            MapSize::Whole => range.end == offset + buffer_size,
            MapSize::Bytes(bytes) => range.end == offset + bytes,
        },
{
    let offset = offset as u64;
    match size {
        MapSize::Whole => MappedRange { start: offset, end: offset + buffer_size },
        MapSize::Bytes(size) => MappedRange { start: offset, end: offset + size as u64 },
    }
}

/// The range of a buffer that is read through the mapping.
pub fn wgpuBufferGetConstMappedRange(offset: usize, size: MapSize, buffer_size: u64) -> (range:
    MappedRange)
    requires
        offset + mapped_len(size, buffer_size) <= u64::MAX,
    ensures
        range.start == offset,
        range.end == offset + mapped_len(size, buffer_size),
        match size {
            MapSize::Whole => range.end == offset + buffer_size,
            MapSize::Bytes(bytes) => range.end == offset + bytes,
        },
{
    mapped_range(offset, size, buffer_size)
}

/// The range of a buffer that is written through the mapping.
pub fn wgpuBufferGetMappedRange(offset: usize, size: MapSize, buffer_size: u64) -> (range:
    MappedRange)
    requires
        offset + mapped_len(size, buffer_size) <= u64::MAX,
    ensures
        range.start == offset,
        range.end == offset + mapped_len(size, buffer_size),
        match size {
            MapSize::Whole => range.end == offset + buffer_size,
            MapSize::Bytes(bytes) => range.end == offset + bytes,
        },
{
    mapped_range(offset, size, buffer_size)
}

#[derive(Debug)]
pub struct WGPUBufferDescriptor {
    pub label: Option<String>,
    pub usage: u64,
    pub size: u64,
    pub mappedAtCreation: WGPUBool,
}

#[derive(Debug)]
pub struct BufferDescriptor<U> {
    pub label: Option<String>,
    pub size: u64,
    pub usage: U,
    pub mapped_at_creation: bool,
}

/// The buffer to make. Its usage bits have to be known ones.
pub fn wgpuDeviceCreateBuffer<U, Convert: Fn(u64) -> Option<U>>(
    descriptor: WGPUBufferDescriptor,
    from_u64_bits: Convert,
) -> (desc: BufferDescriptor<U>)
    requires
        crate::conv::known(from_u64_bits, descriptor.usage),
    ensures
        desc.label == descriptor.label,
        desc.size == descriptor.size,
        call_ensures(from_u64_bits, (descriptor.usage,), Some(desc.usage)),
        desc.mapped_at_creation == (descriptor.mappedAtCreation != 0),
{
    BufferDescriptor {
        label: descriptor.label,
        size: descriptor.size,
        usage: map_known(&from_u64_bits, descriptor.usage),
        mapped_at_creation: descriptor.mappedAtCreation != 0,
    }
}

/// Asks for a buffer to be mapped. Nothing is mapped, the callback is not called, and there is no
/// future to wait on.
pub fn wgpuBufferMapAsync<C>(callback: C, offset: usize, size: usize) -> (future: WGPUFuture)
    ensures
        future == WGPUFuture::null(),
{
    WGPUFuture::null()
}

/// As many bytes are mapped as were asked for, and as many as the buffer has where all of it was:
/// so asking for all of it is asking for its size.
pub proof fn law_mapped_bytes_are_those_asked_for(size: MapSize, buffer_size: u64)
    ensures
        size matches MapSize::Bytes(bytes) ==> mapped_len(size, buffer_size) == bytes,
        size is Whole ==> mapped_len(size, buffer_size) == buffer_size,
        buffer_size <= usize::MAX ==> mapped_len(MapSize::Whole, buffer_size) == mapped_len(
            MapSize::Bytes(buffer_size as usize),
            0,
        ),
{
}

} // verus!
