//! A GPU-memory-backed linear buffer: created eagerly, owned by the caller,
//! and on release not destroyed but scheduled on the device's
//! deferred-destruction queue against the reserved timeline counter.

use vstd::prelude::*;

use crate::device::Device;
use crate::device::PendingDestruction;
use crate::device::ResourceToDestroy;
use crate::device::split_point;

verus! {

/// The buffer-usage bit that exposes the buffer's device address. The
/// device-address accessor is only usable on buffers created with it.
pub const SHADER_DEVICE_ADDRESS_USAGE: u32 = 0x20000;

/// Where the buffer's memory is placed.
#[derive(Clone, Copy, Debug, PartialEq, Eq, Structural)]
pub enum MemoryLocation {
    /// No placement preference.
    Unknown,
    /// Device-local memory, not visible to the host.
    GpuOnly,
    /// Host-visible memory for uploads.
    CpuToGpu,
    /// Host-visible memory for readback.
    GpuToCpu,
}

/// The one error a buffer accessor reports rather than aborting: asking for
/// the device address of a buffer that was not created with the
/// address-exposing usage flag.
#[derive(Clone, Copy, Debug, PartialEq, Eq, Structural)]
pub enum BufferError {
    MissingDeviceAddressUsage,
}

/// A buffer's state, as specifications see it.
pub struct BufferView {
    pub handle: u64,
    pub allocation_id: u64,
    pub address: u64,
    pub size: u64,
    pub offset: u64,
    pub usage: u32,
    pub location: MemoryLocation,
    pub dedicated: bool,
    pub mapped: bool,
}

/// A buffer: the buffer object's handle, the id its memory allocation is
/// kept under, its device address where exposed, and the plain facts of its
/// allocation — byte size, offset within the backing memory, usage flags,
/// placement, whether the allocation was dedicated, and whether a
/// host-visible mapping exists.
pub struct Buffer {
    handle: u64,
    allocation_id: u64,
    address: u64,
    size: u64,
    offset: u64,
    usage: u32,
    location: MemoryLocation,
    dedicated: bool,
    mapped: bool,
}

impl View for Buffer {
    type V = BufferView;

    closed spec fn view(&self) -> BufferView {
        BufferView {
            handle: self.handle,
            allocation_id: self.allocation_id,
            address: self.address,
            size: self.size,
            offset: self.offset,
            usage: self.usage,
            location: self.location,
            dedicated: self.dedicated,
            mapped: self.mapped,
        }
    }
}

impl Buffer {
    /// A buffer over an allocation already made on the device: `handle` and
    /// `allocation_id` name the created objects, `address` is the buffer's
    /// device address where `usage` exposes one and is meaningless
    /// otherwise, and the remaining arguments record what was asked of the
    /// allocator and what it returned.
    pub fn new(
        handle: u64,
        allocation_id: u64,
        address: u64,
        location: MemoryLocation,
        size: u64,
        offset: u64,
        usage: u32,
        dedicated: bool,
        mapped: bool,
    ) -> (b: Buffer)
        ensures
            b@ == (BufferView {
                handle,
                allocation_id,
                address,
                size,
                offset,
                usage,
                location,
                dedicated,
                mapped,
            }),
    {
        Buffer { handle, allocation_id, address, size, offset, usage, location, dedicated, mapped }
    }

    /// The buffer object's handle.
    pub fn handle(&self) -> (h: u64)
        ensures
            h == self@.handle,
    {
        self.handle
    }

    /// The byte size of the backing allocation.
    pub fn size(&self) -> (s: u64)
        ensures
            s == self@.size,
    {
        self.size
    }

    /// The buffer's offset within its backing memory.
    pub fn offset(&self) -> (o: u64)
        ensures
            o == self@.offset,
    {
        self.offset
    }

    /// The usage flags the buffer was created with.
    pub fn usage(&self) -> (u: u32)
        ensures
            u == self@.usage,
    {
        self.usage
    }

    /// Whether a host-visible mapping of the buffer exists.
    pub fn is_mapped(&self) -> (m: bool)
        ensures
            m == self@.mapped,
    {
        self.mapped
    }

    /// The buffer's device address. Reports an error, rather than a bogus
    /// value, if and only if the buffer was not created with the
    /// address-exposing usage flag.
    pub fn device_address(&self) -> (r: Result<u64, BufferError>)
        ensures
            self@.usage & SHADER_DEVICE_ADDRESS_USAGE != 0 ==> r == Ok::<u64, BufferError>(
                self@.address,
            ),
            self@.usage & SHADER_DEVICE_ADDRESS_USAGE == 0 ==> r == Err::<u64, BufferError>(
                BufferError::MissingDeviceAddressUsage,
            ),
    {
        if self.usage & SHADER_DEVICE_ADDRESS_USAGE != 0 {
            Ok(self.address)
        } else {
            Err(BufferError::MissingDeviceAddressUsage)
        }
    }

    /// Releases the buffer: nothing is destroyed here. The buffer and its
    /// allocation are queued on the device's deferred-destruction queue with
    /// the reserved counter snapshotted now — the conservative upper bound
    /// assuming the most recently reserved submission might still reference
    /// the buffer.
    pub fn release(self, device: &mut Device)
        requires
            old(device).wf(),
        ensures
            final(device).wf(),
            final(device).reserved() == old(device).reserved(),
            final(device).completed() == old(device).completed(),
            final(device).semaphore() == old(device).semaphore(),
            final(device).pending() == old(device).pending().insert(
                split_point(old(device).pending(), old(device).reserved()),
                PendingDestruction {
                    counter: old(device).reserved(),
                    resource: ResourceToDestroy::Buffer(self@.handle, self@.allocation_id),
                },
            ),
    {
        let counter = device.current_timeline_counter();
        device.schedule_destroy_resource(
            counter,
            ResourceToDestroy::Buffer(self.handle, self.allocation_id),
        );
    }
}

} // verus!
