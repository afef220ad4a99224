//! Usage and creation flags of images, and external memory handle types.

use vstd::prelude::*;

verus! {

/// The ways in which an image may be used. A flag that is set grants the use.
#[derive(Clone, Copy, Debug, PartialEq, Eq, Structural, Hash)]
pub struct ImageUsage {
    pub transfer_src: bool,
    pub transfer_dst: bool,
    pub sampled: bool,
    pub storage: bool,
    pub color_attachment: bool,
    pub depth_stencil_attachment: bool,
    pub transient_attachment: bool,
    pub input_attachment: bool,
}

impl ImageUsage {
    /// The usage that grants nothing.
    pub open spec fn spec_empty() -> ImageUsage {
        ImageUsage {
            transfer_src: false,
            transfer_dst: false,
            sampled: false,
            storage: false,
            color_attachment: false,
            depth_stencil_attachment: false,
            transient_attachment: false,
            input_attachment: false,
        }
    }

    /// The usage that grants what either of the two grants.
    pub open spec fn spec_union(self, other: ImageUsage) -> ImageUsage {
        ImageUsage {
            transfer_src: self.transfer_src || other.transfer_src,
            transfer_dst: self.transfer_dst || other.transfer_dst,
            sampled: self.sampled || other.sampled,
            storage: self.storage || other.storage,
            color_attachment: self.color_attachment || other.color_attachment,
            depth_stencil_attachment: self.depth_stencil_attachment
                || other.depth_stencil_attachment,
            transient_attachment: self.transient_attachment || other.transient_attachment,
            input_attachment: self.input_attachment || other.input_attachment,
        }
    }

    /// Whether `self` grants every use that `other` grants.
    pub open spec fn spec_contains(self, other: ImageUsage) -> bool {
        &&& other.transfer_src ==> self.transfer_src
        &&& other.transfer_dst ==> self.transfer_dst
        &&& other.sampled ==> self.sampled
        &&& other.storage ==> self.storage
        &&& other.color_attachment ==> self.color_attachment
        &&& other.depth_stencil_attachment ==> self.depth_stencil_attachment
        &&& other.transient_attachment ==> self.transient_attachment
        &&& other.input_attachment ==> self.input_attachment
    }

    /// Whether some use is granted by both.
    pub open spec fn spec_intersects(self, other: ImageUsage) -> bool {
        ||| self.transfer_src && other.transfer_src
        ||| self.transfer_dst && other.transfer_dst
        ||| self.sampled && other.sampled
        ||| self.storage && other.storage
        ||| self.color_attachment && other.color_attachment
        ||| self.depth_stencil_attachment && other.depth_stencil_attachment
        ||| self.transient_attachment && other.transient_attachment
        ||| self.input_attachment && other.input_attachment
    }

    /// Whether an image with this usage can have a view: a view needs the image
    /// to be sampled, stored to, or used as an attachment of some kind.
    pub open spec fn spec_supports_view(self) -> bool {
        self.sampled || self.storage || self.color_attachment || self.depth_stencil_attachment
            || self.transient_attachment || self.input_attachment
    }

    /// The usage that grants nothing.
    #[verifier::when_used_as_spec(spec_empty)]
    pub fn empty() -> (u: ImageUsage)
        ensures
            u == ImageUsage::spec_empty(),
    {
        ImageUsage {
            transfer_src: false,
            transfer_dst: false,
            sampled: false,
            storage: false,
            color_attachment: false,
            depth_stencil_attachment: false,
            transient_attachment: false,
            input_attachment: false,
        }
    }

    /// The usage that grants what either of the two grants.
    #[verifier::when_used_as_spec(spec_union)]
    pub fn union(self, other: ImageUsage) -> (u: ImageUsage)
        ensures
            u == self.spec_union(other),
    {
        ImageUsage {
            transfer_src: self.transfer_src || other.transfer_src,
            transfer_dst: self.transfer_dst || other.transfer_dst,
            sampled: self.sampled || other.sampled,
            storage: self.storage || other.storage,
            color_attachment: self.color_attachment || other.color_attachment,
            depth_stencil_attachment: self.depth_stencil_attachment
                || other.depth_stencil_attachment,
            transient_attachment: self.transient_attachment || other.transient_attachment,
            input_attachment: self.input_attachment || other.input_attachment,
        }
    }

    /// Whether `self` grants every use that `other` grants.
    #[verifier::when_used_as_spec(spec_contains)]
    pub fn contains(self, other: ImageUsage) -> (b: bool)
        ensures
            b == self.spec_contains(other),
    {
        (!other.transfer_src || self.transfer_src) && (!other.transfer_dst || self.transfer_dst)
            && (!other.sampled || self.sampled) && (!other.storage || self.storage) && (
        !other.color_attachment || self.color_attachment) && (!other.depth_stencil_attachment
            || self.depth_stencil_attachment) && (!other.transient_attachment
            || self.transient_attachment) && (!other.input_attachment || self.input_attachment)
    }

    /// Whether some use is granted by both.
    #[verifier::when_used_as_spec(spec_intersects)]
    pub fn intersects(self, other: ImageUsage) -> (b: bool)
        ensures
            b == self.spec_intersects(other),
    {
        (self.transfer_src && other.transfer_src) || (self.transfer_dst && other.transfer_dst)
            || (self.sampled && other.sampled) || (self.storage && other.storage) || (
        self.color_attachment && other.color_attachment) || (self.depth_stencil_attachment
            && other.depth_stencil_attachment) || (self.transient_attachment
            && other.transient_attachment) || (self.input_attachment && other.input_attachment)
    }

    /// Whether an image with this usage can have a view.
    #[verifier::when_used_as_spec(spec_supports_view)]
    pub fn supports_view(self) -> (b: bool)
        ensures
            b == self.spec_supports_view(),
    {
        self.sampled || self.storage || self.color_attachment || self.depth_stencil_attachment
            || self.transient_attachment || self.input_attachment
    }
}

/// Flags that change how an image is created.
#[derive(Clone, Copy, Debug, PartialEq, Eq, Structural, Hash)]
pub struct ImageCreateFlags {
    pub mutable_format: bool,
    pub cube_compatible: bool,
    pub disjoint: bool,
}

impl ImageCreateFlags {
    /// No flag set.
    pub open spec fn spec_empty() -> ImageCreateFlags {
        ImageCreateFlags { mutable_format: false, cube_compatible: false, disjoint: false }
    }

    /// No flag set.
    #[verifier::when_used_as_spec(spec_empty)]
    pub fn empty() -> (f: ImageCreateFlags)
        ensures
            f == ImageCreateFlags::spec_empty(),
    {
        ImageCreateFlags { mutable_format: false, cube_compatible: false, disjoint: false }
    }
}

/// A kind of operating-system handle through which device memory can be shared.
#[derive(Clone, Copy, Debug, PartialEq, Eq, Structural, Hash)]
pub enum ExternalMemoryHandleType {
    OpaqueFd,
    DmaBuf,
}

/// A set of external memory handle types.
#[derive(Clone, Copy, Debug, PartialEq, Eq, Structural, Hash)]
pub struct ExternalMemoryHandleTypes {
    pub opaque_fd: bool,
    pub dma_buf: bool,
}

impl ExternalMemoryHandleTypes {
    /// No handle type.
    pub open spec fn spec_empty() -> ExternalMemoryHandleTypes {
        ExternalMemoryHandleTypes { opaque_fd: false, dma_buf: false }
    }

    /// The opaque POSIX file descriptor alone.
    pub open spec fn spec_opaque_fd() -> ExternalMemoryHandleTypes {
        ExternalMemoryHandleTypes { opaque_fd: true, dma_buf: false }
    }

    /// No handle type.
    #[verifier::when_used_as_spec(spec_empty)]
    pub fn empty() -> (t: ExternalMemoryHandleTypes)
        ensures
            t == ExternalMemoryHandleTypes::spec_empty(),
    {
        ExternalMemoryHandleTypes { opaque_fd: false, dma_buf: false }
    }

    /// The opaque POSIX file descriptor alone.
    #[verifier::when_used_as_spec(spec_opaque_fd)]
    pub fn opaque_fd() -> (t: ExternalMemoryHandleTypes)
        ensures
            t == ExternalMemoryHandleTypes::spec_opaque_fd(),
    {
        ExternalMemoryHandleTypes { opaque_fd: true, dma_buf: false }
    }
}

} // verus!
