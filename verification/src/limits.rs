//! The device limits that the engine checks descriptors against before
//! handing them to the GPU, as plain numbers read off the device.

use vstd::prelude::*;

verus! {

/// The subset of a GPU device's limits that descriptors are checked
/// against, with wgpu's field names.
#[derive(Clone, Copy, Debug, PartialEq, Eq, Structural)]
pub struct DeviceLimits {
    pub max_buffer_size: u64,
    pub max_uniform_buffer_binding_size: u64,
    pub max_storage_buffer_binding_size: u64,
    pub min_uniform_buffer_offset_alignment: u32,
    pub min_storage_buffer_offset_alignment: u32,
    pub max_bind_groups: u32,
    pub max_vertex_buffers: u32,
    pub max_vertex_attributes: u32,
    pub max_color_attachments: u32,
    pub max_texture_dimension_2d: u32,
}

} // verus!
