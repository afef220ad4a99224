//! Equality of images and views: two values are equal when they stand for the
//! same object of the device, whatever else they hold.

use crate::storage::StorageImage;
use crate::view::ImageView;
use vstd::prelude::*;
use vstd::std_specs::cmp::PartialEqSpecImpl;

verus! {

impl PartialEq for StorageImage {
    fn eq(&self, other: &Self) -> (b: bool) {
        self.handle() == other.handle()
    }
}

impl PartialEqSpecImpl for StorageImage {
    open spec fn obeys_eq_spec() -> bool {
        true
    }

    open spec fn eq_spec(&self, other: &Self) -> bool {
        self@.handle == other@.handle
    }
}

impl Eq for StorageImage {

}

impl PartialEq for ImageView {
    fn eq(&self, other: &Self) -> (b: bool) {
        self.handle() == other.handle()
    }
}

impl PartialEqSpecImpl for ImageView {
    open spec fn obeys_eq_spec() -> bool {
        true
    }

    open spec fn eq_spec(&self, other: &Self) -> bool {
        self.spec_handle() == other.spec_handle()
    }
}

impl Eq for ImageView {

}

impl std::hash::Hash for StorageImage {
    /// `Hasher::write_u64` on the handle of the image object: equal images
    /// feed the hasher the same value. Nothing is claimed of the hasher's state.
    #[verifier::external_body]
    fn hash<H: std::hash::Hasher>(&self, state: &mut H) {
        state.write_u64(self.handle())
    }
}

} // verus!
