//! The presentation surface of a window and the swapchain that is created on
//! it.

use vstd::prelude::*;
use ash::vk::SurfaceKHR;
use crate::queues::QueuesCtx;

verus! {

/// The number of images that the swapchain asks for at least.
pub const MIN_IMAGE_COUNT: u32 = 3;

/// Image usage bit: the images are rendered to as color attachments.
pub const IMAGE_USAGE_COLOR_ATTACHMENT: u32 = 0x10;

/// Sharing mode: one queue family at a time has access to an image.
pub const SHARING_MODE_EXCLUSIVE: i32 = 0;

/// Present mode: images are queued and shown one per vertical blank.
pub const PRESENT_MODE_FIFO: i32 = 2;

/// Composite alpha bit: the alpha channel is ignored when the image is shown.
pub const COMPOSITE_ALPHA_OPAQUE: u32 = 0x1;

/// A pixel format and color space that a surface supports, as the raw values
/// of the API.
#[derive(Clone, Copy, Debug, PartialEq, Eq)]
pub struct SurfaceFormat {
    pub format: i32,
    pub color_space: i32,
}

/// The settings that a swapchain is created with, as the raw values of the
/// API.
#[derive(Debug, PartialEq, Eq)]
pub struct SwapchainConfig {
    pub surface: SurfaceKHR,
    pub min_image_count: u32,
    pub image_format: i32,
    pub image_color_space: i32,
    pub image_array_layers: u32,
    pub image_usage: u32,
    pub image_sharing_mode: i32,
    pub queue_family_indices: Vec<usize>,
    pub present_mode: i32,
    pub pre_transform: u32,
    pub composite_alpha: u32,
}

impl SwapchainConfig {
    /// The swapchain on `surface` with the given format and transform, for the
    /// queue family `graphics_index`: three images at least, of one layer,
    /// used as color attachments by that family alone, presented first in
    /// first out, opaque.
    pub open spec fn describes(
        &self,
        surface: SurfaceKHR,
        format: SurfaceFormat,
        current_transform: u32,
        graphics_index: usize,
    ) -> bool {
        &&& self.surface == surface
        &&& self.min_image_count == MIN_IMAGE_COUNT
        &&& self.image_format == format.format
        &&& self.image_color_space == format.color_space
        &&& self.image_array_layers == 1
        &&& self.image_usage == IMAGE_USAGE_COLOR_ATTACHMENT
        &&& self.image_sharing_mode == SHARING_MODE_EXCLUSIVE
        &&& self.queue_family_indices@ == seq![graphics_index]
        &&& self.present_mode == PRESENT_MODE_FIFO
        &&& self.pre_transform == current_transform
        &&& self.composite_alpha == COMPOSITE_ALPHA_OPAQUE
    }
}

/// Why no window context could be set up.
#[derive(Clone, Copy, Debug, PartialEq, Eq)]
pub enum SurfaceError {
    /// The device reports no format for the surface.
    NoSurfaceFormat,
}

/// A surface and the swapchain to create on it.
#[derive(Debug, PartialEq, Eq)]
pub struct WindowCtx {
    pub surface_khr: SurfaceKHR,
    pub swapchain: SwapchainConfig,
}

impl WindowCtx {
    /// Plans the swapchain for a surface from what the device reports of it:
    /// the formats it supports, in the order reported, and its current
    /// transform. The first format is taken. The images belong to the graphics
    /// family of `queues`. Fails when no format is reported.
    pub fn new(
        surface_khr: SurfaceKHR,
        surface_formats: &[SurfaceFormat],
        current_transform: u32,
        queues: &QueuesCtx,
    ) -> (r: Result<WindowCtx, SurfaceError>)
        ensures
            r is Ok <==> surface_formats@.len() > 0,
            r matches Ok(w) ==> w.surface_khr == surface_khr && w.swapchain.describes(
                surface_khr,
                surface_formats@[0],
                current_transform,
                queues.graphics_index,
            ),
            r matches Err(e) ==> e == SurfaceError::NoSurfaceFormat,
    {
        if surface_formats.len() == 0 {
            return Err(SurfaceError::NoSurfaceFormat);
        }
        let first = surface_formats[0];
        let mut queue_family_indices: Vec<usize> = Vec::new();
        queue_family_indices.push(queues.graphics_index);
        let swapchain = SwapchainConfig {
            surface: surface_khr,
            min_image_count: MIN_IMAGE_COUNT,
            image_format: first.format,
            image_color_space: first.color_space,
            image_array_layers: 1,
            image_usage: IMAGE_USAGE_COLOR_ATTACHMENT,
            image_sharing_mode: SHARING_MODE_EXCLUSIVE,
            queue_family_indices,
            present_mode: PRESENT_MODE_FIFO,
            pre_transform: current_transform,
            composite_alpha: COMPOSITE_ALPHA_OPAQUE,
        };
        Ok(WindowCtx { surface_khr, swapchain })
    }
}

} // verus!
