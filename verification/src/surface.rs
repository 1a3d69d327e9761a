//! The presentation surface: the resolution, image-count and transform
//! decisions made from what the device reports about the surface.

use vstd::prelude::*;

use crate::flags::FORMAT_R16G16B16A16_SFLOAT;
use crate::geometry::Extent2d;

verus! {

/// The identity bit among the surface transform flags.
pub const SURFACE_TRANSFORM_IDENTITY: u32 = 0x1;

/// The special extent width that means the surface takes its size from
/// the swapchain rather than dictating one.
pub const SURFACE_EXTENT_UNDEFINED: u32 = 0xffff_ffff;

/// A color format paired with its color space, as the surface reports it.
#[derive(Clone, Copy, Debug, PartialEq, Eq, Structural)]
pub struct SurfaceFormat {
    pub format: u32,
    pub color_space: u32,
}

/// What the device reports about a surface.
#[derive(Clone, Copy, Debug, PartialEq, Eq, Structural)]
pub struct SurfaceCapabilities {
    pub current_extent: Extent2d,
    pub min_image_count: u32,
    pub max_image_count: u32,
    pub supported_transforms: u32,
    pub current_transform: u32,
}

/// The surface and the decisions derived from its capabilities.
#[derive(Clone, Copy, Debug, PartialEq, Eq, Structural)]
pub struct Surface {
    pub surface: u64,
    pub surface_format: SurfaceFormat,
    pub desired_format: u32,
    pub surface_resolution: Extent2d,
    pub pre_transform: u32,
    pub desired_image_count: u32,
}

/// The rendering resolution: the surface's own extent, unless the surface
/// leaves it undefined, in which case the window's width stands in for
/// both dimensions.
pub fn surface_resolution_from(current_extent: Extent2d, window_extent: Extent2d) -> (r:
    Extent2d)
    ensures
        r == if current_extent.width == SURFACE_EXTENT_UNDEFINED {
            Extent2d { width: window_extent.width, height: window_extent.width }
        } else {
            current_extent
        },
{
    if current_extent.width == SURFACE_EXTENT_UNDEFINED {
        Extent2d { width: window_extent.width, height: window_extent.width }
    } else {
        current_extent
    }
}

/// One image more than the surface's minimum, clamped to its maximum when
/// the surface has one (a maximum of zero means unbounded).
pub fn desired_image_count_from(min_image_count: u32, max_image_count: u32) -> (r: u32)
    requires
        min_image_count < u32::MAX,
    ensures
        r == if max_image_count > 0 && min_image_count + 1 > max_image_count {
            max_image_count
        } else {
            (min_image_count + 1) as u32
        },
{
    let mut desired_image_count = min_image_count + 1;
    if max_image_count > 0 && desired_image_count > max_image_count {
        desired_image_count = max_image_count;
    }
    desired_image_count
}

/// The identity transform when the surface supports it, otherwise the
/// surface's current transform.
pub fn pre_transform_from(supported_transforms: u32, current_transform: u32) -> (r: u32)
    ensures
        r == if supported_transforms & SURFACE_TRANSFORM_IDENTITY != 0 {
            SURFACE_TRANSFORM_IDENTITY
        } else {
            current_transform
        },
{
    if supported_transforms & SURFACE_TRANSFORM_IDENTITY != 0 {
        SURFACE_TRANSFORM_IDENTITY
    } else {
        current_transform
    }
}

impl Surface {
    /// Assembles the surface decisions from what the device reports: the
    /// resolution fallback, the image count clamp, the transform choice,
    /// and the fixed 16-bit-float color format this engine renders in.
    pub fn new(
        surface: u64,
        surface_format: SurfaceFormat,
        capabilities: SurfaceCapabilities,
        window_extent: Extent2d,
    ) -> (r: Surface)
        requires
            capabilities.min_image_count < u32::MAX,
        ensures
            r.surface == surface,
            r.surface_format == surface_format,
            r.desired_format == FORMAT_R16G16B16A16_SFLOAT,
            r.surface_resolution == if capabilities.current_extent.width
                == SURFACE_EXTENT_UNDEFINED {
                Extent2d { width: window_extent.width, height: window_extent.width }
            } else {
                capabilities.current_extent
            },
            r.pre_transform == if capabilities.supported_transforms
                & SURFACE_TRANSFORM_IDENTITY != 0 {
                SURFACE_TRANSFORM_IDENTITY
            } else {
                capabilities.current_transform
            },
            r.desired_image_count == if capabilities.max_image_count > 0
                && capabilities.min_image_count + 1 > capabilities.max_image_count {
                capabilities.max_image_count
            } else {
                (capabilities.min_image_count + 1) as u32
            },
    {
        let surface_resolution = surface_resolution_from(
            capabilities.current_extent,
            window_extent,
        );
        let desired_image_count = desired_image_count_from(
            capabilities.min_image_count,
            capabilities.max_image_count,
        );
        let pre_transform = pre_transform_from(
            capabilities.supported_transforms,
            capabilities.current_transform,
        );
        Surface {
            surface,
            surface_format,
            desired_format: FORMAT_R16G16B16A16_SFLOAT,
            surface_resolution,
            pre_transform,
            desired_image_count,
        }
    }
}

} // verus!
