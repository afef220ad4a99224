//! The device: the driver operations that the image logic calls.

use crate::format::Format;
use crate::image::{ImageCreateInfo, ImageType};
use crate::memory::{DeviceMemoryError, MemoryPropertyFlags, MemoryRequirements};
use crate::usage::{ExternalMemoryHandleType, ImageCreateFlags, ImageUsage};
use vstd::prelude::*;

verus! {

/// Why the driver refused an operation.
#[derive(Clone, Copy, Debug, PartialEq, Eq, Structural)]
pub enum DriverError {
    OutOfHostMemory,
    OutOfDeviceMemory,
    InitializationFailed,
    FormatNotSupported,
    DeviceLost,
    Unknown,
}

/// A queue of a device.
#[derive(Clone, Copy, Debug, PartialEq, Eq, Structural)]
pub struct Queue {
    pub family_index: u32,
    pub index: u32,
}

impl Queue {
    /// The index of the family that the queue belongs to.
    pub fn queue_family_index(&self) -> (i: u32)
        ensures
            i == self.family_index,
    {
        self.family_index
    }
}

/// The image parameters for which format properties are asked.
#[derive(Clone, Copy, Debug, PartialEq, Eq, Structural)]
pub struct ImageFormatInfo {
    pub flags: ImageCreateFlags,
    pub format: Format,
    pub image_type: ImageType,
    pub usage: ImageUsage,
    pub external_memory_handle_type: Option<ExternalMemoryHandleType>,
}

/// What can be done with the memory of an image through an external handle type.
#[derive(Clone, Copy, Debug, PartialEq, Eq, Structural)]
pub struct ExternalMemoryProperties {
    pub dedicated_only: bool,
    pub exportable: bool,
    pub importable: bool,
}

/// What the device supports for images of given parameters.
#[derive(Clone, Copy, Debug, PartialEq, Eq, Structural)]
pub struct ImageFormatProperties {
    pub max_array_layers: u32,
    pub max_mip_levels: u32,
    pub max_resource_size: u64,
    pub external_memory_properties: ExternalMemoryProperties,
}

/// An image object that the driver has created and that has no memory yet.
#[derive(Clone, Copy, Debug, PartialEq, Eq, Structural)]
pub struct CreatedImage {
    pub handle: u64,
    pub requirements: MemoryRequirements,
}

/// A device. An implementation talks to the driver; nothing is assumed of
/// what it answers.
pub trait Device {
    /// The properties of the device's memory types, by index.
    fn memory_types(&self) -> Vec<MemoryPropertyFlags>;

    /// What the device supports for such images; `None` where it supports none.
    fn image_format_properties(&self, info: ImageFormatInfo) -> Result<
        Option<ImageFormatProperties>,
        DriverError,
    >;

    /// Creates an image object without memory.
    fn create_image(&self, info: &ImageCreateInfo) -> Result<CreatedImage, DriverError>;

    /// Binds the memory block at the offset to the image.
    fn bind_image_memory(&self, image: u64, memory: u64, offset: u64) -> Result<(), DriverError>;

    /// Destroys an image object.
    fn destroy_image(&self, image: u64);

    /// Creates a view of the whole image for the usage.
    fn create_image_view(&self, image: u64, usage: ImageUsage) -> Result<u64, DriverError>;

    /// Exports a memory block as a POSIX file descriptor.
    fn export_fd(&self, memory: u64, handle_type: ExternalMemoryHandleType) -> Result<
        i32,
        DeviceMemoryError,
    >;
}

} // verus!
