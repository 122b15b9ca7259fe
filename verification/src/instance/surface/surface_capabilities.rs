//! What a surface can do.

use vstd::prelude::*;
use crate::image::ImageUsageFlags;
use crate::native::Extent2D;
use super::surface_transform_flags::SurfaceTransformFlags;
use super::CompositeAlphaFlags;

verus! {

/// The capabilities of a surface as the native layer writes them.
#[derive(Debug, Clone, Copy, PartialEq, Eq, Structural)]
pub struct NativeSurfaceCapabilities {
    pub min_image_count: u32,
    pub max_image_count: u32,
    pub current_extent: Extent2D,
    pub min_image_extent: Extent2D,
    pub max_image_extent: Extent2D,
    pub max_image_array_layers: u32,
    pub supported_transforms: u32,
    pub current_transform: u32,
    pub supported_composite_alpha: u32,
    pub supported_usage_flags: u32,
}

/// The capabilities of a surface on an adapter.
#[derive(Debug, Clone, Copy, PartialEq, Eq, Structural)]
pub struct SurfaceCapabilities {
    pub min_image_count: u32,
    pub max_image_count: u32,
    pub current_extent: Extent2D,
    pub min_image_extent: Extent2D,
    pub max_image_extent: Extent2D,
    pub max_image_array_layers: u32,
    pub supported_transforms: SurfaceTransformFlags,
    pub current_transform: SurfaceTransformFlags,
    pub supported_composite_alpha: CompositeAlphaFlags,
    pub supported_usage_flags: ImageUsageFlags,
}

impl SurfaceCapabilities {
    /// The record holds what the native record holds, field by field.
    pub open spec fn mirrors(self, vk: NativeSurfaceCapabilities) -> bool {
        &&& self.min_image_count == vk.min_image_count
        &&& self.max_image_count == vk.max_image_count
        &&& self.current_extent == vk.current_extent
        &&& self.min_image_extent == vk.min_image_extent
        &&& self.max_image_extent == vk.max_image_extent
        &&& self.max_image_array_layers == vk.max_image_array_layers
        &&& self.supported_transforms.raw() == vk.supported_transforms
        &&& self.current_transform.raw() == vk.current_transform
        &&& self.supported_composite_alpha == vk.supported_composite_alpha
        &&& self.supported_usage_flags.raw() == vk.supported_usage_flags
    }

    /// Copies a native record, field by field. Every bit of every mask is
    /// kept.
    pub fn from_vk(vk: &NativeSurfaceCapabilities) -> (capabilities: SurfaceCapabilities)
        ensures
            capabilities.mirrors(*vk),
    {
        SurfaceCapabilities {
            min_image_count: vk.min_image_count,
            max_image_count: vk.max_image_count,
            current_extent: vk.current_extent,
            min_image_extent: vk.min_image_extent,
            max_image_extent: vk.max_image_extent,
            max_image_array_layers: vk.max_image_array_layers,
            supported_transforms: SurfaceTransformFlags::from_raw(vk.supported_transforms),
            current_transform: SurfaceTransformFlags::from_raw(vk.current_transform),
            supported_composite_alpha: vk.supported_composite_alpha,
            supported_usage_flags: ImageUsageFlags::from_raw(vk.supported_usage_flags),
        }
    }
}

} // verus!
