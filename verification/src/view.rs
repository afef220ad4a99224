//! Views of images.

use crate::device::{Device, DriverError};
use crate::image::{whole_range, ImageSubresourceRange, ImageViewCreationError};
use crate::storage::StorageImage;
use crate::usage::ImageUsage;
use vstd::prelude::*;

verus! {

/// Whether an image created with `granted` can have a view for `wanted`: every
/// use that the view is for was granted, and the image can have views at all.
pub open spec fn view_allowed(granted: ImageUsage, wanted: ImageUsage) -> bool {
    granted.spec_contains(wanted) && granted.spec_supports_view()
}

/// A view of a whole image, for some of the uses that the image was created
/// with. It covers every array layer of the image and its one mipmap level.
#[derive(Debug)]
pub struct ImageView {
    handle: u64,
    image: StorageImage,
    usage: ImageUsage,
    subresource_range: ImageSubresourceRange,
}

impl ImageView {
    /// The image that the view is of.
    pub closed spec fn spec_image(&self) -> StorageImage {
        self.image
    }

    /// The uses that the view is for.
    pub closed spec fn spec_usage(&self) -> ImageUsage {
        self.usage
    }

    /// The handle of the view object.
    pub closed spec fn spec_handle(&self) -> u64 {
        self.handle
    }

    /// The layers and mipmap levels that the view covers.
    pub closed spec fn spec_subresource_range(&self) -> ImageSubresourceRange {
        self.subresource_range
    }

    #[verifier::type_invariant]
    spec fn well_formed(self) -> bool {
        &&& view_allowed(self.image@.info.usage, self.usage)
        &&& self.subresource_range == whole_range(self.image@.info.dimensions)
    }

    /// Tests whether an image created with `granted` can have a view for `wanted`.
    pub fn check_usage(granted: ImageUsage, wanted: ImageUsage) -> (r: Result<
        (),
        ImageViewCreationError,
    >)
        ensures
            r == if view_allowed(granted, wanted) {
                Ok::<(), ImageViewCreationError>(())
            } else {
                Err(ImageViewCreationError::ImageMissingUsage)
            },
    {
        if granted.contains(wanted) && granted.supports_view() {
            Ok(())
        } else {
            Err(ImageViewCreationError::ImageMissingUsage)
        }
    }

    /// Makes the view from the driver's answer to the request for one. Where
    /// the driver refused, the image comes back with the error.
    pub fn from_created(image: StorageImage, usage: ImageUsage, created: Result<u64, DriverError>) -> (r:
        Result<ImageView, (ImageViewCreationError, StorageImage)>)
        requires
            view_allowed(image@.info.usage, usage),
        ensures
            match created {
                Ok(handle) => r matches Ok(v) && v.spec_image() == image && v.spec_usage() == usage
                    && v.spec_handle() == handle && v.spec_subresource_range() == whole_range(
                    image@.info.dimensions,
                ),
                Err(e) => r == Err::<ImageView, (ImageViewCreationError, StorageImage)>(
                    (ImageViewCreationError::DriverRejected(e), image),
                ),
            },
    {
        match created {
            Ok(handle) => {
                let subresource_range = ImageSubresourceRange {
                    first_layer: 0,
                    num_layers: image.dimensions().array_layers(),
                    first_mipmap_level: 0,
                    num_mipmap_levels: 1,
                };
                Ok(ImageView { handle, image, usage, subresource_range })
            },
            Err(e) => Err((ImageViewCreationError::DriverRejected(e), image)),
        }
    }

    /// Makes a view of the whole image for the given uses. A use that the
    /// image was not created with, or an image that can have no views, is
    /// refused as a missing usage before the driver is asked.
    pub fn new<D: Device>(device: &D, image: StorageImage, usage: ImageUsage) -> (r: Result<
        ImageView,
        (ImageViewCreationError, StorageImage),
    >)
        ensures
            !view_allowed(image@.info.usage, usage) ==> r == Err::<
                ImageView,
                (ImageViewCreationError, StorageImage),
            >((ImageViewCreationError::ImageMissingUsage, image)),
            r matches Ok(v) ==> v.spec_image() == image && v.spec_usage() == usage && view_allowed(
                image@.info.usage,
                usage,
            ) && v.spec_subresource_range() == whole_range(image@.info.dimensions),
            r matches Err((e, back)) ==> back == image && (e
                == ImageViewCreationError::ImageMissingUsage <==> !view_allowed(
                image@.info.usage,
                usage,
            )),
    {
        match ImageView::check_usage(image.usage(), usage) {
            Err(e) => Err((e, image)),
            Ok(_) => {
                let created = device.create_image_view(image.handle(), usage);
                ImageView::from_created(image, usage, created)
            },
        }
    }

    /// Makes a view of the whole image for every use that the image was created with.
    pub fn new_default<D: Device>(device: &D, image: StorageImage) -> (r: Result<
        ImageView,
        (ImageViewCreationError, StorageImage),
    >)
        ensures
            !image@.info.usage.spec_supports_view() ==> r == Err::<
                ImageView,
                (ImageViewCreationError, StorageImage),
            >((ImageViewCreationError::ImageMissingUsage, image)),
            r matches Ok(v) ==> v.spec_image() == image && v.spec_usage() == image@.info.usage
                && image@.info.usage.spec_supports_view() && v.spec_subresource_range()
                == whole_range(image@.info.dimensions),
            r matches Err((e, back)) ==> back == image && (e
                == ImageViewCreationError::ImageMissingUsage
                <==> !image@.info.usage.spec_supports_view()),
    {
        let usage = image.usage();
        ImageView::new(device, image, usage)
    }

    /// The image that the view is of.
    pub fn image(&self) -> (i: &StorageImage)
        ensures
            *i == self.spec_image(),
    {
        &self.image
    }

    /// The uses that the view is for. The image grants each of them.
    pub fn usage(&self) -> (u: ImageUsage)
        ensures
            u == self.spec_usage(),
            view_allowed(self.spec_image()@.info.usage, u),
    {
        proof {
            use_type_invariant(self);
        }
        self.usage
    }

    /// The layers and mipmap levels that the view covers: all of the image.
    pub fn subresource_range(&self) -> (range: ImageSubresourceRange)
        ensures
            range == self.spec_subresource_range(),
            range == whole_range(self.spec_image()@.info.dimensions),
    {
        proof {
            use_type_invariant(self);
        }
        self.subresource_range
    }

    /// The handle of the view object.
    pub fn handle(&self) -> (h: u64)
        ensures
            h == self.spec_handle(),
    {
        self.handle
    }
}

} // verus!
