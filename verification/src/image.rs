//! Image parameters, unbound images and the errors of image construction.

use crate::device::{CreatedImage, DriverError};
use crate::format::Format;
use crate::memory::{AllocationCreationError, MemoryRequirements};
use crate::sharing::{sharing_for, Sharing, SharingModel};
use crate::usage::{ExternalMemoryHandleTypes, ImageCreateFlags, ImageUsage};
use vstd::prelude::*;

verus! {

/// The dimensionality of an image.
#[derive(Clone, Copy, Debug, PartialEq, Eq, Structural)]
pub enum ImageType {
    Dim1d,
    Dim2d,
    Dim3d,
}

/// The extent of an image.
#[derive(Clone, Copy, Debug, PartialEq, Eq, Structural)]
pub enum ImageDimensions {
    Dim1d { width: u32, array_layers: u32 },
    Dim2d { width: u32, height: u32, array_layers: u32 },
    Dim3d { width: u32, height: u32, depth: u32 },
}

impl ImageDimensions {
    /// The number of array layers; a three-dimensional image has one.
    pub open spec fn spec_array_layers(&self) -> u32 {
        match *self {
            ImageDimensions::Dim1d { array_layers, .. } => array_layers,
            ImageDimensions::Dim2d { array_layers, .. } => array_layers,
            ImageDimensions::Dim3d { .. } => 1,
        }
    }

    /// The dimensionality.
    pub open spec fn spec_image_type(&self) -> ImageType {
        match *self {
            ImageDimensions::Dim1d { .. } => ImageType::Dim1d,
            ImageDimensions::Dim2d { .. } => ImageType::Dim2d,
            ImageDimensions::Dim3d { .. } => ImageType::Dim3d,
        }
    }

    /// The number of array layers.
    #[verifier::when_used_as_spec(spec_array_layers)]
    pub fn array_layers(&self) -> (n: u32)
        ensures
            n == self.spec_array_layers(),
    {
        match *self {
            ImageDimensions::Dim1d { array_layers, .. } => array_layers,
            ImageDimensions::Dim2d { array_layers, .. } => array_layers,
            ImageDimensions::Dim3d { .. } => 1,
        }
    }

    /// The dimensionality.
    #[verifier::when_used_as_spec(spec_image_type)]
    pub fn image_type(&self) -> (t: ImageType)
        ensures
            t == self.spec_image_type(),
    {
        match *self {
            ImageDimensions::Dim1d { .. } => ImageType::Dim1d,
            ImageDimensions::Dim2d { .. } => ImageType::Dim2d,
            ImageDimensions::Dim3d { .. } => ImageType::Dim3d,
        }
    }
}

/// The layout in which an image's texels are arranged for some use.
#[derive(Clone, Copy, Debug, PartialEq, Eq, Structural)]
pub enum ImageLayout {
    Undefined,
    General,
    ColorAttachmentOptimal,
    DepthStencilAttachmentOptimal,
    ShaderReadOnlyOptimal,
    TransferSrcOptimal,
    TransferDstOptimal,
}

/// The layouts an image is in when it is bound to descriptors of each kind.
#[derive(Clone, Copy, Debug, PartialEq, Eq, Structural)]
pub struct ImageDescriptorLayouts {
    pub storage_image: ImageLayout,
    pub combined_image_sampler: ImageLayout,
    pub sampled_image: ImageLayout,
    pub input_attachment: ImageLayout,
}

/// The part of an image object that a resource covers.
#[derive(Clone, Copy, Debug, PartialEq, Eq, Structural)]
pub struct ImageInner {
    /// Handle of the image object.
    pub image: u64,
    pub first_layer: u32,
    pub num_layers: u32,
    pub first_mipmap_level: u32,
    pub num_mipmap_levels: u32,
}

/// The layers and mipmap levels of an image that a view covers.
#[derive(Clone, Copy, Debug, PartialEq, Eq, Structural)]
pub struct ImageSubresourceRange {
    pub first_layer: u32,
    pub num_layers: u32,
    pub first_mipmap_level: u32,
    pub num_mipmap_levels: u32,
}

/// The range that covers the whole of a general-purpose image of these
/// dimensions: every array layer, and the one mipmap level that it has.
pub open spec fn whole_range(dimensions: ImageDimensions) -> ImageSubresourceRange {
    ImageSubresourceRange {
        first_layer: 0,
        num_layers: dimensions.spec_array_layers(),
        first_mipmap_level: 0,
        num_mipmap_levels: 1,
    }
}

/// A request that is wrong in itself, whatever the device and the allocator do.
#[derive(Clone, Copy, Debug, PartialEq, Eq, Structural)]
pub enum ConfigurationError {
    /// A block-compressed format was asked of a general-purpose image.
    CompressedFormat,
    /// Disjoint planes were asked for; each plane would need memory of its own.
    DisjointFlags,
    /// The device knows no images of the parameters for which export was asked.
    FormatPropertiesUnavailable,
    /// The device cannot export the memory of such images.
    NotExportable,
}

/// Why a view of an image could not be made.
#[derive(Clone, Copy, Debug, PartialEq, Eq, Structural)]
pub enum ImageViewCreationError {
    /// The image was not created with a usage that the view needs.
    ImageMissingUsage,
    /// The driver refused the view.
    DriverRejected(DriverError),
}

/// Why an image, or a view made together with it, could not be constructed.
///
/// No kind is retried by the library. Three kinds are fatal: a
/// `Configuration` error, which the same request will meet again;
/// `AllocationMismatch`, which shows a fault in the allocator; and
/// `AllocError` with `NoSuitableMemoryType`, which says that the device
/// cannot hold such an image. A caller has nothing to gain from asking again.
#[derive(Clone, Copy, Debug, PartialEq, Eq, Structural)]
pub enum ImageError {
    /// The request is wrong in itself.
    Configuration(ConfigurationError),
    /// The driver refused to create the image object.
    CreationFailed(DriverError),
    /// The allocator handed out no memory.
    AllocError(AllocationCreationError),
    /// The allocator handed out memory that does not meet the requirements: a
    /// broken contract with the allocator, fatal and never to be retried.
    AllocationMismatch,
    /// The driver refused to bind the memory to the image.
    BindingFailed(DriverError),
    /// The image was made, the view of it was not.
    DirectImageViewCreationFailed(ImageViewCreationError),
}

/// Mathematical model of the parameters an image is created with.
pub struct CreateInfoModel {
    pub flags: ImageCreateFlags,
    pub dimensions: ImageDimensions,
    pub format: Format,
    pub usage: ImageUsage,
    pub sharing: SharingModel,
    pub external_memory_handle_types: ExternalMemoryHandleTypes,
}

/// The parameters an image is created with.
#[derive(Debug)]
pub struct ImageCreateInfo {
    pub flags: ImageCreateFlags,
    pub dimensions: ImageDimensions,
    pub format: Format,
    pub usage: ImageUsage,
    pub sharing: Sharing,
    pub external_memory_handle_types: ExternalMemoryHandleTypes,
}

impl View for ImageCreateInfo {
    type V = CreateInfoModel;

    open spec fn view(&self) -> CreateInfoModel {
        CreateInfoModel {
            flags: self.flags,
            dimensions: self.dimensions,
            format: self.format,
            usage: self.usage,
            sharing: self.sharing@,
            external_memory_handle_types: self.external_memory_handle_types,
        }
    }
}

/// The parameters that a constructor hands to the device: those given, with
/// the sharing mode that the queue family indices ask for.
pub open spec fn requested(
    dimensions: ImageDimensions,
    format: Format,
    usage: ImageUsage,
    flags: ImageCreateFlags,
    queue_family_indices: Seq<u32>,
    external_memory_handle_types: ExternalMemoryHandleTypes,
) -> CreateInfoModel {
    CreateInfoModel {
        flags,
        dimensions,
        format,
        usage,
        sharing: sharing_for(queue_family_indices),
        external_memory_handle_types,
    }
}

impl ImageCreateInfo {
    /// Puts the parameters of an image together.
    pub fn new(
        dimensions: ImageDimensions,
        format: Format,
        usage: ImageUsage,
        flags: ImageCreateFlags,
        queue_family_indices: &Vec<u32>,
        external_memory_handle_types: ExternalMemoryHandleTypes,
    ) -> (info: ImageCreateInfo)
        ensures
            info@ == requested(
                dimensions,
                format,
                usage,
                flags,
                queue_family_indices@,
                external_memory_handle_types,
            ),
    {
        ImageCreateInfo {
            flags,
            dimensions,
            format,
            usage,
            sharing: Sharing::from_queue_families(queue_family_indices),
            external_memory_handle_types,
        }
    }
}

/// An image object with its parameters and no memory bound to it yet.
#[derive(Debug)]
pub struct RawImage {
    pub info: ImageCreateInfo,
    pub handle: u64,
    pub requirements: MemoryRequirements,
}

impl RawImage {
    /// The image that comes of the driver's answer to the request to create
    /// one: the image created, or the driver's error as a failed creation.
    pub fn from_driver(info: ImageCreateInfo, created: Result<CreatedImage, DriverError>) -> (r:
        Result<RawImage, ImageError>)
        ensures
            match created {
                Ok(c) => r matches Ok(raw) && raw.info == info && raw.handle == c.handle
                    && raw.requirements == c.requirements,
                Err(e) => r == Err::<RawImage, ImageError>(ImageError::CreationFailed(e)),
            },
    {
        match created {
            Ok(c) => Ok(RawImage::from_created(info, c)),
            Err(e) => Err(ImageError::CreationFailed(e)),
        }
    }

    /// The image that the driver created for the parameters.
    pub fn from_created(info: ImageCreateInfo, created: CreatedImage) -> (raw: RawImage)
        ensures
            raw.info == info,
            raw.handle == created.handle,
            raw.requirements == created.requirements,
    {
        RawImage { info, handle: created.handle, requirements: created.requirements }
    }
}

} // verus!
