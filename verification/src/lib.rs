//! Device-resident general-purpose images: construction, memory binding and
//! derived views, with the driver and the allocator behind traits.

pub mod device;
pub mod format;
pub mod identity;
pub mod image;
pub mod memory;
pub mod sharing;
pub mod storage;
pub mod usage;
pub mod vertex;
pub mod vertex_cgmath;
pub mod vertex_nalgebra;
pub mod view;
