//! General-purpose images in device memory.

use crate::device::{Device, DriverError, ImageFormatInfo, ImageFormatProperties, Queue};
use crate::format::{Format, ImageAspects};
use crate::image::{
    requested, whole_range, ConfigurationError, CreateInfoModel, ImageCreateInfo,
    ImageDescriptorLayouts, ImageDimensions, ImageError, ImageInner, ImageLayout,
    ImageSubresourceRange, ImageViewCreationError, RawImage,
};
use crate::memory::{
    allocation_fits, find_memory_type_index, fits, type_eligible, AllocationCreateInfo,
    AllocationCreationError, AllocationType, DedicatedAllocation, MemoryAlloc,
    MemoryAllocatePreference, MemoryAllocator, MemoryPropertyFlags, MemoryRequirements,
    MemoryUsage,
};
use crate::sharing::Sharing;
use crate::usage::{
    ExternalMemoryHandleType, ExternalMemoryHandleTypes, ImageCreateFlags, ImageUsage,
};
use crate::view::ImageView;
use vstd::prelude::*;

verus! {

/// Mathematical model of an image with its memory.
pub struct ImageModel {
    pub info: CreateInfoModel,
    pub handle: u64,
    pub requirements: MemoryRequirements,
    pub memory: MemoryAlloc,
}

/// Whether the region can back an image of these requirements that is to be
/// exported through the given handle types: it fits the requirements, and its
/// block can be exported through each of the handle types.
pub open spec fn backs(
    requirements: MemoryRequirements,
    export: ExternalMemoryHandleTypes,
    alloc: MemoryAlloc,
) -> bool {
    &&& fits(requirements, alloc)
    &&& export.opaque_fd ==> alloc.device_memory.export_handle_types.opaque_fd
    &&& export.dma_buf ==> alloc.device_memory.export_handle_types.dma_buf
}

/// Whether a general-purpose image may have these parameters.
pub open spec fn admissible(flags: ImageCreateFlags, format: Format) -> bool {
    !flags.disjoint && format.spec_compression() is None
}

/// The usage of an image made without naming one: transfers both ways,
/// sampling, storage and input attachment, and the attachment kind of the
/// format's class.
pub open spec fn default_usage_for(format: Format) -> ImageUsage {
    ImageUsage {
        transfer_src: true,
        transfer_dst: true,
        sampled: true,
        storage: true,
        color_attachment: !format.is_depth_stencil(),
        depth_stencil_attachment: format.is_depth_stencil(),
        transient_attachment: false,
        input_attachment: true,
    }
}

/// The request that is made of the allocator's pools for an image that needs no export.
pub open spec fn pooled_request_for(image: RawImage) -> AllocationCreateInfo {
    AllocationCreateInfo {
        requirements: image.requirements,
        allocation_type: AllocationType::NonLinear,
        usage: MemoryUsage::GpuOnly,
        allocate_preference: MemoryAllocatePreference::Unknown,
        dedicated_allocation: Some(DedicatedAllocation::Image(image.handle)),
    }
}

/// What is asked of the allocator for an image whose memory is to be exported.
#[derive(Clone, Copy, Debug, PartialEq, Eq, Structural)]
pub struct DedicatedRequest {
    pub memory_type_index: u32,
    pub allocation_size: u64,
    pub dedicated_allocation: Option<DedicatedAllocation>,
    pub export_handle_types: ExternalMemoryHandleTypes,
}

/// Whether `request` is the dedicated request for the image on a device with
/// these memory types: a block of exactly the required size, of the first
/// memory type that the image admits and that is device-local, dedicated to
/// the image and exportable as an opaque file descriptor.
pub open spec fn is_dedicated_request_for(
    request: DedicatedRequest,
    image: RawImage,
    memory_types: Seq<MemoryPropertyFlags>,
) -> bool {
    &&& type_eligible(
        memory_types,
        image.requirements.memory_type_bits,
        MemoryUsage::GpuOnly,
        request.memory_type_index,
    )
    &&& forall|j: u32|
        j < request.memory_type_index ==> !#[trigger] type_eligible(
            memory_types,
            image.requirements.memory_type_bits,
            MemoryUsage::GpuOnly,
            j,
        )
    &&& request.allocation_size == image.requirements.size
    &&& request.dedicated_allocation == Some(DedicatedAllocation::Image(image.handle))
    &&& request.export_handle_types == ExternalMemoryHandleTypes::spec_opaque_fd()
}

/// What becomes of an allocator's answer for given requirements: an error is
/// passed on, a region that cannot back the image is refused and handed back
/// for release, and a region that can is kept.
pub open spec fn vetted(
    requirements: MemoryRequirements,
    export: ExternalMemoryHandleTypes,
    allocated: Result<MemoryAlloc, AllocationCreationError>,
) -> Result<MemoryAlloc, (ImageError, Option<MemoryAlloc>)> {
    match allocated {
        Err(e) => Err((ImageError::AllocError(e), None)),
        Ok(alloc) => if backs(requirements, export, alloc) {
            Ok(alloc)
        } else {
            Err((ImageError::AllocationMismatch, Some(alloc)))
        },
    }
}

/// Whether the device's answer on format properties allows export: it
/// must know such images and report their memory as exportable.
pub open spec fn export_allowed(
    properties: Result<Option<ImageFormatProperties>, DriverError>,
) -> Result<(), ImageError> {
    match properties {
        Err(_) => Err(ImageError::Configuration(ConfigurationError::FormatPropertiesUnavailable)),
        Ok(None) => Err(
            ImageError::Configuration(ConfigurationError::FormatPropertiesUnavailable),
        ),
        Ok(Some(p)) => if p.external_memory_properties.exportable {
            Ok(())
        } else {
            Err(ImageError::Configuration(ConfigurationError::NotExportable))
        },
    }
}

/// General-purpose image in device memory. Can be used for any usage, but will
/// be slower than a specialized image. The memory bound to it always fits its
/// requirements, and it never has disjoint planes or a compressed format.
#[derive(Debug)]
pub struct StorageImage {
    image: RawImage,
    memory: MemoryAlloc,
}

impl View for StorageImage {
    type V = ImageModel;

    closed spec fn view(&self) -> ImageModel {
        ImageModel {
            info: self.image.info@,
            handle: self.image.handle,
            requirements: self.image.requirements,
            memory: self.memory,
        }
    }
}

/// Tests an allocator's answer against the requirements it was asked for.
pub fn vet_allocation(
    requirements: &MemoryRequirements,
    export: ExternalMemoryHandleTypes,
    allocated: Result<MemoryAlloc, AllocationCreationError>,
) -> (r: Result<MemoryAlloc, (ImageError, Option<MemoryAlloc>)>)
    ensures
        r == vetted(*requirements, export, allocated),
{
    match allocated {
        Err(e) => Err((ImageError::AllocError(e), None)),
        Ok(alloc) => {
            let exports = &alloc.device_memory.export_handle_types;
            if allocation_fits(requirements, &alloc) && (!export.opaque_fd || exports.opaque_fd)
                && (!export.dma_buf || exports.dma_buf) {
                Ok(alloc)
            } else {
                Err((ImageError::AllocationMismatch, Some(alloc)))
            }
        },
    }
}

/// Decides from the device's answer on format properties whether export may go on.
pub fn check_exportable(properties: Result<Option<ImageFormatProperties>, DriverError>) -> (r:
    Result<(), ImageError>)
    ensures
        r == export_allowed(properties),
{
    match properties {
        Ok(Some(p)) => {
            if p.external_memory_properties.exportable {
                Ok(())
            } else {
                Err(ImageError::Configuration(ConfigurationError::NotExportable))
            }
        },
        _ => Err(ImageError::Configuration(ConfigurationError::FormatPropertiesUnavailable)),
    }
}

/// Rejects the parameters that no general-purpose image may have: disjoint
/// planes first, then a compressed format.
pub fn check_parameters(flags: ImageCreateFlags, format: Format) -> (r: Result<(), ImageError>)
    ensures
        r == if flags.disjoint {
            Err::<(), ImageError>(ImageError::Configuration(ConfigurationError::DisjointFlags))
        } else if format.spec_compression() is Some {
            Err(ImageError::Configuration(ConfigurationError::CompressedFormat))
        } else {
            Ok(())
        },
        r is Ok <==> admissible(flags, format),
{
    if flags.disjoint {
        Err(ImageError::Configuration(ConfigurationError::DisjointFlags))
    } else if format.compression().is_some() {
        Err(ImageError::Configuration(ConfigurationError::CompressedFormat))
    } else {
        Ok(())
    }
}

/// What the attempt at a view of a newly built image comes to: the view, or
/// the cause of the failure, unchanged, as a failed view, with the image
/// handed back for release.
pub fn view_outcome(viewed: Result<ImageView, (ImageViewCreationError, StorageImage)>) -> (r:
    Result<ImageView, (ImageError, StorageImage)>)
    ensures
        r == match viewed {
            Ok(view) => Ok::<ImageView, (ImageError, StorageImage)>(view),
            Err((e, image)) => Err((ImageError::DirectImageViewCreationFailed(e), image)),
        },
{
    match viewed {
        Ok(view) => Ok(view),
        Err((e, image)) => Err((ImageError::DirectImageViewCreationFailed(e), image)),
    }
}

impl StorageImage {
    #[verifier::type_invariant]
    spec fn well_formed(self) -> bool {
        &&& backs(
            self.image.requirements,
            self.image.info.external_memory_handle_types,
            self.memory,
        )
        &&& admissible(self.image.info.flags, self.image.info.format)
    }

    /// Whether the memory of the image can be exported as a POSIX file descriptor.
    pub open spec fn spec_exportable(&self) -> bool {
        self@.info.external_memory_handle_types.opaque_fd
    }

    /// The usage of an image made without naming one.
    pub fn default_usage(format: Format) -> (usage: ImageUsage)
        ensures
            usage == default_usage_for(format),
    {
        let aspects = format.aspects();
        let is_depth_stencil = aspects.intersects(
            ImageAspects { color: false, depth: true, stencil: true },
        );
        let baseline = ImageUsage {
            transfer_src: true,
            transfer_dst: true,
            sampled: true,
            storage: true,
            input_attachment: true,
            ..ImageUsage::empty()
        };
        let attachment = if is_depth_stencil {
            ImageUsage { depth_stencil_attachment: true, ..ImageUsage::empty() }
        } else {
            ImageUsage { color_attachment: true, ..ImageUsage::empty() }
        };
        baseline.union(attachment)
    }

    /// The request made of the allocator's pools for an image that needs no export.
    pub fn pooled_request(image: &RawImage) -> (info: AllocationCreateInfo)
        ensures
            info == pooled_request_for(*image),
    {
        AllocationCreateInfo {
            requirements: image.requirements,
            allocation_type: AllocationType::NonLinear,
            usage: MemoryUsage::GpuOnly,
            allocate_preference: MemoryAllocatePreference::Unknown,
            dedicated_allocation: Some(DedicatedAllocation::Image(image.handle)),
        }
    }

    /// The request made of the allocator for an image whose memory is to be
    /// exported. Where no memory type of the device is admissible and
    /// device-local, and only there, the allocation fails for want of a
    /// suitable memory type.
    pub fn dedicated_request(image: &RawImage, memory_types: &Vec<MemoryPropertyFlags>) -> (r:
        Result<DedicatedRequest, ImageError>)
        ensures
            match r {
                Ok(request) => is_dedicated_request_for(request, *image, memory_types@),
                Err(e) => e == ImageError::AllocError(
                    AllocationCreationError::NoSuitableMemoryType,
                ) && forall|j: u32|
                    !#[trigger] type_eligible(
                        memory_types@,
                        image.requirements.memory_type_bits,
                        MemoryUsage::GpuOnly,
                        j,
                    ),
            },
    {
        match find_memory_type_index(
            memory_types,
            image.requirements.memory_type_bits,
            MemoryUsage::GpuOnly,
        ) {
            Some(memory_type_index) => Ok(
                DedicatedRequest {
                    memory_type_index,
                    allocation_size: image.requirements.size,
                    dedicated_allocation: Some(DedicatedAllocation::Image(image.handle)),
                    export_handle_types: ExternalMemoryHandleTypes::opaque_fd(),
                },
            ),
            None => Err(ImageError::AllocError(AllocationCreationError::NoSuitableMemoryType)),
        }
    }

    /// What is asked of the driver to bind memory to an image: the image
    /// object, the block that holds the region, and the offset of the region
    /// in the block.
    pub fn bind_request(image: &RawImage, memory: &MemoryAlloc) -> (r: (u64, u64, u64))
        ensures
            r == (image.handle, memory.device_memory.handle, memory.offset),
    {
        (image.handle, memory.device_memory.handle, memory.offset)
    }

    /// What is asked of the device before an image is made for export:
    /// whether images of these parameters can have their memory exported as
    /// an opaque POSIX file descriptor.
    pub fn export_query(
        dimensions: ImageDimensions,
        format: Format,
        usage: ImageUsage,
        flags: ImageCreateFlags,
    ) -> (info: ImageFormatInfo)
        ensures
            info == (ImageFormatInfo {
                flags,
                format,
                image_type: dimensions.spec_image_type(),
                usage,
                external_memory_handle_type: Some(ExternalMemoryHandleType::OpaqueFd),
            }),
    {
        ImageFormatInfo {
            flags,
            format,
            image_type: dimensions.image_type(),
            usage,
            external_memory_handle_type: Some(ExternalMemoryHandleType::OpaqueFd),
        }
    }

    /// Makes the resource of an image and the memory that the driver was asked
    /// to bind to it. Where the driver refused, image and memory come back with
    /// the error, for release.
    pub fn from_bound(image: RawImage, memory: MemoryAlloc, bound: Result<(), DriverError>) -> (r:
        Result<StorageImage, (ImageError, RawImage, MemoryAlloc)>)
        requires
            backs(image.requirements, image.info.external_memory_handle_types, memory),
            admissible(image.info.flags, image.info.format),
        ensures
            match bound {
                Ok(_) => r matches Ok(s) && s@ == (ImageModel {
                    info: image.info@,
                    handle: image.handle,
                    requirements: image.requirements,
                    memory,
                }),
                Err(e) => r == Err::<StorageImage, (ImageError, RawImage, MemoryAlloc)>(
                    (ImageError::BindingFailed(e), image, memory),
                ),
            },
    {
        match bound {
            Ok(_) => Ok(StorageImage { image, memory }),
            Err(e) => Err((ImageError::BindingFailed(e), image, memory)),
        }
    }

    /// Finishes the construction of an image from the allocator's answer:
    /// vets the answer, asks the driver to bind the memory, and releases what
    /// was acquired where either fails. An answer that does not pass is
    /// refused with the error that the vetting gives; one that passes fails
    /// only where the driver refuses to bind.
    pub fn bind_allocated<A: MemoryAllocator>(
        allocator: &mut A,
        image: RawImage,
        allocated: Result<MemoryAlloc, AllocationCreationError>,
    ) -> (r: Result<StorageImage, ImageError>)
        requires
            admissible(image.info.flags, image.info.format),
        ensures
            r matches Ok(s) ==> s@.info == image.info@ && s@.handle == image.handle
                && s@.requirements == image.requirements && allocated == Ok::<
                MemoryAlloc,
                AllocationCreationError,
            >(s@.memory) && backs(
                image.requirements,
                image.info.external_memory_handle_types,
                s@.memory,
            ),
            match vetted(
                image.requirements,
                image.info.external_memory_handle_types,
                allocated,
            ) {
                Err((v, _)) => r == Err::<StorageImage, ImageError>(v),
                Ok(_) => r is Ok || (r matches Err(e) && e is BindingFailed),
            },
    {
        match vet_allocation(
            &image.requirements,
            image.info.external_memory_handle_types,
            allocated,
        ) {
            Err((e, stray)) => {
                match stray {
                    Some(alloc) => allocator.free(alloc),
                    None => {},
                }
                allocator.device().destroy_image(image.handle);
                Err(e)
            },
            Ok(memory) => {
                let (object, block, offset) = StorageImage::bind_request(&image, &memory);
                let bound = allocator.device().bind_image_memory(object, block, offset);
                match StorageImage::from_bound(image, memory, bound) {
                    Ok(s) => Ok(s),
                    Err((e, image, memory)) => {
                        allocator.free(memory);
                        allocator.device().destroy_image(image.handle);
                        Err(e)
                    },
                }
            },
        }
    }

    /// Creates a new image with the given dimensions and format, usable in
    /// every way that suits the format.
    pub fn new<A: MemoryAllocator>(
        allocator: &mut A,
        dimensions: ImageDimensions,
        format: Format,
        queue_family_indices: &Vec<u32>,
    ) -> (r: Result<StorageImage, ImageError>)
        ensures
            format.spec_compression() is Some ==> r == Err::<StorageImage, ImageError>(ImageError::Configuration(ConfigurationError::CompressedFormat))
                && *final(allocator) == *old(allocator),
            r matches Ok(s) ==> s@.info == requested(
                dimensions,
                format,
                default_usage_for(format),
                ImageCreateFlags::spec_empty(),
                queue_family_indices@,
                ExternalMemoryHandleTypes::spec_empty(),
            ) && fits(s@.requirements, s@.memory) && !s.spec_exportable(),
            r matches Err(e) ==> !(e is DirectImageViewCreationFailed) && (e is Configuration
                ==> format.spec_compression() is Some),
    {
        let usage = StorageImage::default_usage(format);
        let flags = ImageCreateFlags::empty();
        StorageImage::with_usage(allocator, dimensions, format, usage, flags, queue_family_indices)
    }

    /// Same as `new`, but allows specifying the usage and the creation flags.
    pub fn with_usage<A: MemoryAllocator>(
        allocator: &mut A,
        dimensions: ImageDimensions,
        format: Format,
        usage: ImageUsage,
        flags: ImageCreateFlags,
        queue_family_indices: &Vec<u32>,
    ) -> (r: Result<StorageImage, ImageError>)
        ensures
            flags.disjoint ==> r == Err::<StorageImage, ImageError>(ImageError::Configuration(ConfigurationError::DisjointFlags)) && *final(allocator) == *old(allocator),
            !flags.disjoint && format.spec_compression() is Some ==> r == Err::<StorageImage, ImageError>(ImageError::Configuration(ConfigurationError::CompressedFormat))
                && *final(allocator) == *old(allocator),
            r matches Ok(s) ==> s@.info == requested(
                dimensions,
                format,
                usage,
                flags,
                queue_family_indices@,
                ExternalMemoryHandleTypes::spec_empty(),
            ) && fits(s@.requirements, s@.memory) && !s.spec_exportable(),
            r matches Err(e) ==> !(e is DirectImageViewCreationFailed) && (e is Configuration
                ==> !admissible(flags, format)),
    {
        match check_parameters(flags, format) {
            Err(e) => { return Err(e); },
            Ok(_) => {},
        }
        let info = ImageCreateInfo::new(
            dimensions,
            format,
            usage,
            flags,
            queue_family_indices,
            ExternalMemoryHandleTypes::empty(),
        );
        let created = allocator.device().create_image(&info);
        let image = match RawImage::from_driver(info, created) {
            Ok(image) => image,
            Err(e) => { return Err(e); },
        };
        let request = StorageImage::pooled_request(&image);
        let allocated = allocator.allocate(request);
        StorageImage::bind_allocated(allocator, image, allocated)
    }

    /// Creates an image whose memory can be exported as a POSIX file
    /// descriptor: a dedicated block of the first device-local memory type
    /// that the image admits.
    pub fn new_with_exportable_fd<A: MemoryAllocator>(
        allocator: &mut A,
        dimensions: ImageDimensions,
        format: Format,
        usage: ImageUsage,
        flags: ImageCreateFlags,
        queue_family_indices: &Vec<u32>,
    ) -> (r: Result<StorageImage, ImageError>)
        ensures
            flags.disjoint ==> r == Err::<StorageImage, ImageError>(ImageError::Configuration(ConfigurationError::DisjointFlags)) && *final(allocator) == *old(allocator),
            !flags.disjoint && format.spec_compression() is Some ==> r == Err::<StorageImage, ImageError>(ImageError::Configuration(ConfigurationError::CompressedFormat))
                && *final(allocator) == *old(allocator),
            r matches Ok(s) ==> s@.info == requested(
                dimensions,
                format,
                usage,
                flags,
                queue_family_indices@,
                ExternalMemoryHandleTypes::spec_opaque_fd(),
            ) && fits(s@.requirements, s@.memory) && s.spec_exportable()
                && s@.memory.device_memory.export_handle_types.opaque_fd,
            r matches Err(e) ==> !(e is DirectImageViewCreationFailed),
            r matches Err(ImageError::Configuration(c)) ==> !admissible(flags, format) || c
                == ConfigurationError::FormatPropertiesUnavailable || c
                == ConfigurationError::NotExportable,
    {
        match check_parameters(flags, format) {
            Err(e) => { return Err(e); },
            Ok(_) => {},
        }
        let query = StorageImage::export_query(dimensions, format, usage, flags);
        let properties = allocator.device().image_format_properties(query);
        match check_exportable(properties) {
            Err(e) => { return Err(e); },
            Ok(_) => {},
        }
        let info = ImageCreateInfo::new(
            dimensions,
            format,
            usage,
            flags,
            queue_family_indices,
            ExternalMemoryHandleTypes::opaque_fd(),
        );
        let created = allocator.device().create_image(&info);
        let image = match RawImage::from_driver(info, created) {
            Ok(image) => image,
            Err(e) => { return Err(e); },
        };
        let memory_types = allocator.device().memory_types();
        let request = match StorageImage::dedicated_request(&image, &memory_types) {
            Ok(request) => request,
            Err(e) => {
                allocator.device().destroy_image(image.handle);
                return Err(e);
            },
        };
        let allocated = allocator.allocate_dedicated(
            request.memory_type_index,
            request.allocation_size,
            request.dedicated_allocation,
            request.export_handle_types,
        );
        StorageImage::bind_allocated(allocator, image, allocated)
    }

    /// Creates an image of two dimensions and one layer with the given usage,
    /// for one queue, and a view of the whole of it.
    pub fn general_purpose_image_view<A: MemoryAllocator>(
        allocator: &mut A,
        queue: &Queue,
        size: [u32; 2],
        format: Format,
        usage: ImageUsage,
    ) -> (r: Result<ImageView, ImageError>)
        ensures
            format.spec_compression() is Some ==> r == Err::<ImageView, ImageError>(ImageError::Configuration(ConfigurationError::CompressedFormat))
                && *final(allocator) == *old(allocator),
            r matches Ok(v) ==> v.spec_usage() == usage && usage.spec_supports_view()
                && v.spec_image()@.info == requested(
                ImageDimensions::Dim2d { width: size[0], height: size[1], array_layers: 1 },
                format,
                usage,
                ImageCreateFlags::spec_empty(),
                seq![queue.family_index],
                ExternalMemoryHandleTypes::spec_empty(),
            ) && fits(v.spec_image()@.requirements, v.spec_image()@.memory)
                && v.spec_subresource_range() == (ImageSubresourceRange {
                first_layer: 0,
                num_layers: 1,
                first_mipmap_level: 0,
                num_mipmap_levels: 1,
            }),
            r matches Err(ImageError::DirectImageViewCreationFailed(e)) ==> (e
                == ImageViewCreationError::ImageMissingUsage <==> !usage.spec_supports_view()),
            r matches Err(ImageError::Configuration(_)) ==> format.spec_compression() is Some,
    {
        let dims = ImageDimensions::Dim2d { width: size[0], height: size[1], array_layers: 1 };
        let flags = ImageCreateFlags::empty();
        let mut families: Vec<u32> = Vec::new();
        families.push(queue.queue_family_index());
        proof {
            assert(families@ == seq![queue.family_index]);
        }
        let image_result = StorageImage::with_usage(
            allocator,
            dims,
            format,
            usage,
            flags,
            &families,
        );
        StorageImage::view_of_built(allocator, image_result)
    }

    /// Makes the view of the whole of an image from the outcome of the
    /// image's construction. An error of the construction comes out as it is,
    /// and nothing is asked of the device or the allocator. Where the image
    /// was built and the view fails, the image is released and the cause of
    /// the failure comes out as it is, as a failed view.
    pub fn view_of_built<A: MemoryAllocator>(
        allocator: &mut A,
        built: Result<StorageImage, ImageError>,
    ) -> (r: Result<ImageView, ImageError>)
        ensures
            built matches Err(e) ==> r == Err::<ImageView, ImageError>(e) && *final(allocator)
                == *old(allocator),
            built matches Ok(image) ==> {
                &&& !image@.info.usage.spec_supports_view() ==> r == Err::<ImageView, ImageError>(
                    ImageError::DirectImageViewCreationFailed(
                        ImageViewCreationError::ImageMissingUsage,
                    ),
                )
                &&& r matches Ok(v) ==> v.spec_image() == image && v.spec_usage()
                    == image@.info.usage && image@.info.usage.spec_supports_view()
                    && v.spec_subresource_range() == whole_range(image@.info.dimensions)
                &&& r matches Err(e) ==> (e matches ImageError::DirectImageViewCreationFailed(c)
                    && (c == ImageViewCreationError::ImageMissingUsage
                    <==> !image@.info.usage.spec_supports_view()))
            },
    {
        match built {
            Ok(image) => {
                let viewed = ImageView::new_default(allocator.device(), image);
                match view_outcome(viewed) {
                    Ok(view) => Ok(view),
                    Err((e, image)) => {
                        image.release(allocator);
                        Err(e)
                    },
                }
            },
            Err(e) => Err(e),
        }
    }

    /// Gives the memory back to the allocator and destroys the image object.
    pub fn release<A: MemoryAllocator>(self, allocator: &mut A) {
        let (image, memory) = self.into_parts();
        allocator.free(memory);
        allocator.device().destroy_image(image.handle);
    }

    /// Whether the memory of the image can be exported as a POSIX file descriptor.
    #[verifier::when_used_as_spec(spec_exportable)]
    pub fn exportable(&self) -> (b: bool)
        ensures
            b == self.spec_exportable(),
            b ==> self@.memory.device_memory.export_handle_types.opaque_fd,
    {
        proof {
            use_type_invariant(self);
        }
        self.image.info.external_memory_handle_types.opaque_fd
    }

    /// What is asked of the driver to export the memory of the image: the
    /// block that holds the image, as an opaque POSIX file descriptor. Only an
    /// image that was made for export has a block to ask about, and that block
    /// was allocated for such an export.
    pub fn export_request(&self) -> (r: (u64, ExternalMemoryHandleType))
        requires
            self.spec_exportable(),
        ensures
            r == (self@.memory.device_memory.handle, ExternalMemoryHandleType::OpaqueFd),
            self@.memory.device_memory.export_handle_types.opaque_fd,
    {
        proof {
            use_type_invariant(self);
        }
        (self.memory.device_memory.handle, ExternalMemoryHandleType::OpaqueFd)
    }

    /// Takes the resource apart into the image object and the memory bound
    /// to it, which are then the caller's to give back to the device and to
    /// the allocator. The memory still fits the image.
    pub fn into_parts(self) -> (parts: (RawImage, MemoryAlloc))
        ensures
            parts.0.info@ == self@.info,
            parts.0.handle == self@.handle,
            parts.0.requirements == self@.requirements,
            parts.1 == self@.memory,
            backs(parts.0.requirements, parts.0.info.external_memory_handle_types, parts.1),
            admissible(parts.0.info.flags, parts.0.info.format),
    {
        proof {
            use_type_invariant(&self);
        }
        let StorageImage { image, memory } = self;
        (image, memory)
    }

    /// The size in bytes of the memory bound to the image, which is the size
    /// that the device required for it.
    pub fn mem_size(&self) -> (size: u64)
        ensures
            size == self@.memory.size,
            size == self@.requirements.size,
    {
        proof {
            use_type_invariant(self);
        }
        self.memory.size
    }

    /// The handle of the image object.
    pub fn handle(&self) -> (h: u64)
        ensures
            h == self@.handle,
    {
        self.image.handle
    }

    /// The usage that the image was created with.
    pub fn usage(&self) -> (u: ImageUsage)
        ensures
            u == self@.info.usage,
    {
        self.image.info.usage
    }

    /// The format of the image.
    pub fn format(&self) -> (f: Format)
        ensures
            f == self@.info.format,
            f.spec_compression() is None,
    {
        proof {
            use_type_invariant(self);
        }
        self.image.info.format
    }

    /// The dimensions of the image.
    pub fn dimensions(&self) -> (d: ImageDimensions)
        ensures
            d == self@.info.dimensions,
    {
        self.image.info.dimensions
    }

    /// The sharing mode of the image.
    pub fn sharing(&self) -> (s: &Sharing)
        ensures
            s@ == self@.info.sharing,
    {
        &self.image.info.sharing
    }

    /// The memory bound to the image. It fits the image's requirements.
    pub fn memory(&self) -> (m: &MemoryAlloc)
        ensures
            *m == self@.memory,
            fits(self@.requirements, *m),
    {
        proof {
            use_type_invariant(self);
        }
        &self.memory
    }

    /// The memory requirements that the device stated for the image.
    pub fn requirements(&self) -> (q: MemoryRequirements)
        ensures
            q == self@.requirements,
    {
        self.image.requirements
    }

    /// The part of the image object that the resource covers: all of its
    /// layers and its one mipmap level.
    pub fn inner(&self) -> (i: ImageInner)
        ensures
            i == (ImageInner {
                image: self@.handle,
                first_layer: 0,
                num_layers: self@.info.dimensions.spec_array_layers(),
                first_mipmap_level: 0,
                num_mipmap_levels: 1,
            }),
    {
        ImageInner {
            image: self.image.handle,
            first_layer: 0,
            num_layers: self.image.info.dimensions.array_layers(),
            first_mipmap_level: 0,
            num_mipmap_levels: 1,
        }
    }

    /// The layout that the image must be in before it is used.
    pub fn initial_layout_requirement(&self) -> (l: ImageLayout)
        ensures
            l == ImageLayout::General,
    {
        ImageLayout::General
    }

    /// The layout that the image must be left in after it was used.
    pub fn final_layout_requirement(&self) -> (l: ImageLayout)
        ensures
            l == ImageLayout::General,
    {
        ImageLayout::General
    }

    /// The layouts of the image in descriptors: general in each kind.
    pub fn descriptor_layouts(&self) -> (l: Option<ImageDescriptorLayouts>)
        ensures
            l == Some(
                ImageDescriptorLayouts {
                    storage_image: ImageLayout::General,
                    combined_image_sampler: ImageLayout::General,
                    sampled_image: ImageLayout::General,
                    input_attachment: ImageLayout::General,
                },
            ),
    {
        Some(
            ImageDescriptorLayouts {
                storage_image: ImageLayout::General,
                combined_image_sampler: ImageLayout::General,
                sampled_image: ImageLayout::General,
                input_attachment: ImageLayout::General,
            },
        )
    }

    /// Whether the texels of the image can be read as any given type. A
    /// general-purpose image puts no constraint on that.
    pub fn matches_format(&self) -> (b: bool)
        ensures
            b,
    {
        true
    }
}

/// Default construction adds no failure of its own. The parameters of a
/// default image are admissible whenever the format is not compressed, and a
/// region that fits the requirements passes the vetting as it is; what can
/// still fail is the device and the allocator.
pub proof fn lemma_default_construction(
    format: Format,
    requirements: MemoryRequirements,
    alloc: MemoryAlloc,
)
    requires
        format.spec_compression() is None,
    ensures
        admissible(ImageCreateFlags::spec_empty(), format),
        fits(requirements, alloc) ==> vetted(
            requirements,
            ExternalMemoryHandleTypes::spec_empty(),
            Ok(alloc),
        ) == Ok::<MemoryAlloc, (ImageError, Option<MemoryAlloc>)>(alloc),
        !fits(requirements, alloc) ==> vetted(
            requirements,
            ExternalMemoryHandleTypes::spec_empty(),
            Ok(alloc),
        ) == Err::<MemoryAlloc, (ImageError, Option<MemoryAlloc>)>(
            (ImageError::AllocationMismatch, Some(alloc)),
        ),
{
}

/// The default usage grants transfers both ways, sampling, storage and input
/// attachment, and with them the depth/stencil attachment for a depth or
/// stencil format, the colour attachment for any other.
pub proof fn lemma_default_usage(format: Format)
    ensures
        default_usage_for(format).spec_contains(
            ImageUsage {
                transfer_src: true,
                transfer_dst: true,
                sampled: true,
                storage: true,
                input_attachment: true,
                ..ImageUsage::spec_empty()
            },
        ),
        format.spec_aspects().depth || format.spec_aspects().stencil
            ==> default_usage_for(format).depth_stencil_attachment,
        !(format.spec_aspects().depth || format.spec_aspects().stencil) ==> default_usage_for(
            format,
        ).color_attachment,
        default_usage_for(format).spec_supports_view(),
{
}

} // verus!
