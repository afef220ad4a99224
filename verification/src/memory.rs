//! Memory requirements, allocations, and the allocator that hands them out.

use crate::device::Device;
use crate::usage::ExternalMemoryHandleTypes;
use vstd::prelude::*;

verus! {

/// What the device asks of the memory that backs a resource.
#[derive(Clone, Copy, Debug, PartialEq, Eq, Structural)]
pub struct MemoryRequirements {
    /// Bytes needed.
    pub size: u64,
    /// The offset inside a memory block must be a multiple of this.
    pub alignment: u64,
    /// Bit `i` is set where memory type `i` is admissible.
    pub memory_type_bits: u32,
}

/// Properties of one memory type of a device.
#[derive(Clone, Copy, Debug, PartialEq, Eq, Structural)]
pub struct MemoryPropertyFlags {
    pub device_local: bool,
    pub host_visible: bool,
    pub host_coherent: bool,
    pub host_cached: bool,
}

/// What the memory of a resource is meant for.
#[derive(Clone, Copy, Debug, PartialEq, Eq, Structural)]
pub enum MemoryUsage {
    /// Read and written by the device alone.
    GpuOnly,
    /// Written by the host, read by the device.
    Upload,
    /// Written by the device, read by the host.
    Download,
}

/// How the device classifies the resource that memory is allocated for.
#[derive(Clone, Copy, Debug, PartialEq, Eq, Structural)]
pub enum AllocationType {
    Unknown,
    Linear,
    NonLinear,
}

/// Whether the allocator may, or must, take a fresh block from the device.
#[derive(Clone, Copy, Debug, PartialEq, Eq, Structural)]
pub enum MemoryAllocatePreference {
    Unknown,
    NeverAllocate,
    AlwaysAllocate,
}

/// The resource, named by its handle, that an allocation is dedicated to.
#[derive(Clone, Copy, Debug, PartialEq, Eq, Structural)]
pub enum DedicatedAllocation {
    Buffer(u64),
    Image(u64),
}

/// A request for a region of memory from an allocator's pools.
#[derive(Clone, Copy, Debug, PartialEq, Eq, Structural)]
pub struct AllocationCreateInfo {
    pub requirements: MemoryRequirements,
    pub allocation_type: AllocationType,
    pub usage: MemoryUsage,
    pub allocate_preference: MemoryAllocatePreference,
    pub dedicated_allocation: Option<DedicatedAllocation>,
}

/// A block of device memory.
#[derive(Clone, Copy, Debug, PartialEq, Eq, Structural)]
pub struct DeviceMemory {
    pub handle: u64,
    /// Size of the whole block in bytes.
    pub allocation_size: u64,
    /// The handle types through which the block can be exported.
    pub export_handle_types: ExternalMemoryHandleTypes,
}

/// A region of a block of device memory, owned by whoever holds the value.
#[derive(Debug, PartialEq, Eq, Structural)]
pub struct MemoryAlloc {
    pub offset: u64,
    pub size: u64,
    pub device_memory: DeviceMemory,
}

/// Why an allocator handed out no memory.
#[derive(Clone, Copy, Debug, PartialEq, Eq, Structural)]
pub enum AllocationCreationError {
    OutOfHostMemory,
    OutOfDeviceMemory,
    /// The pools are too fragmented to hold the region.
    OutOfPoolMemory,
    /// No memory type of the device is admissible and suits the usage: the
    /// device cannot hold the resource, and asking again will not help.
    NoSuitableMemoryType,
    /// A dedicated allocation was needed and the request forbade one.
    DedicatedAllocationRequired,
    /// The region is larger than a pool block.
    BlockSizeExceeded,
}

/// Why a handle to a block of device memory could not be exported.
#[derive(Clone, Copy, Debug, PartialEq, Eq, Structural)]
pub enum DeviceMemoryError {
    OutOfHostMemory,
    TooManyObjects,
    /// The block was not allocated for export through that handle type.
    HandleTypeNotSupported,
}

/// An allocator of device memory. An implementation decides where a region
/// lies; what it returns is checked by its callers, not taken on trust.
pub trait MemoryAllocator {
    type Device: Device;

    /// The device whose memory is allocated.
    fn device(&self) -> &Self::Device;

    /// A region from the allocator's pools, or a dedicated block where the
    /// request and the device call for one.
    fn allocate(&mut self, create_info: AllocationCreateInfo) -> Result<
        MemoryAlloc,
        AllocationCreationError,
    >;

    /// A block of `allocation_size` bytes of the given memory type, for one resource.
    fn allocate_dedicated(
        &mut self,
        memory_type_index: u32,
        allocation_size: u64,
        dedicated_allocation: Option<DedicatedAllocation>,
        export_handle_types: ExternalMemoryHandleTypes,
    ) -> Result<MemoryAlloc, AllocationCreationError>;

    /// Takes a region back.
    fn free(&mut self, alloc: MemoryAlloc);
}

impl MemoryPropertyFlags {
    /// Whether memory with these properties suits the usage: device-local
    /// memory for the device alone, host-visible memory for transfers.
    pub open spec fn spec_suits(self, usage: MemoryUsage) -> bool {
        match usage {
            MemoryUsage::GpuOnly => self.device_local,
            MemoryUsage::Upload => self.host_visible,
            MemoryUsage::Download => self.host_visible,
        }
    }

    /// Whether memory with these properties suits the usage.
    #[verifier::when_used_as_spec(spec_suits)]
    pub fn suits(self, usage: MemoryUsage) -> (b: bool)
        ensures
            b == self.spec_suits(usage),
    {
        match usage {
            MemoryUsage::GpuOnly => self.device_local,
            MemoryUsage::Upload => self.host_visible,
            MemoryUsage::Download => self.host_visible,
        }
    }
}

/// Whether the region meets the requirements it was allocated for: its
/// offset is a multiple of the alignment and its size is the size asked.
pub open spec fn fits(requirements: MemoryRequirements, alloc: MemoryAlloc) -> bool {
    requirements.alignment > 0 && alloc.offset % requirements.alignment == 0 && alloc.size
        == requirements.size
}

/// Tests whether a region meets the requirements it was allocated for.
pub fn allocation_fits(requirements: &MemoryRequirements, alloc: &MemoryAlloc) -> (b: bool)
    ensures
        b == fits(*requirements, *alloc),
{
    requirements.alignment > 0 && alloc.offset % requirements.alignment == 0 && alloc.size
        == requirements.size
}

/// Whether memory type `i` is admissible under the bit mask and suits the usage.
pub open spec fn type_eligible(
    memory_types: Seq<MemoryPropertyFlags>,
    memory_type_bits: u32,
    usage: MemoryUsage,
    i: u32,
) -> bool {
    i < memory_types.len() && i < 32 && (memory_type_bits >> i) & 1 == 1
        && memory_types[i as int].spec_suits(usage)
}

/// The first memory type that is admissible under the bit mask and suits the usage.
pub fn find_memory_type_index(
    memory_types: &Vec<MemoryPropertyFlags>,
    memory_type_bits: u32,
    usage: MemoryUsage,
) -> (r: Option<u32>)
    ensures
        match r {
            Some(i) => type_eligible(memory_types@, memory_type_bits, usage, i) && forall|j: u32|
                j < i ==> !#[trigger] type_eligible(memory_types@, memory_type_bits, usage, j),
            None => forall|j: u32| !#[trigger] type_eligible(
                memory_types@,
                memory_type_bits,
                usage,
                j,
            ),
        },
{
    let mut i: u32 = 0;
    while i < 32 && (i as usize) < memory_types.len()
        invariant
            i <= 32,
            forall|j: u32| j < i ==> !#[trigger] type_eligible(
                memory_types@,
                memory_type_bits,
                usage,
                j,
            ),
        decreases 32 - i,
    {
        if (memory_type_bits >> i) & 1 == 1 && memory_types[i as usize].suits(usage) {
            return Some(i);
        }
        i += 1;
    }
    None
}

} // verus!
