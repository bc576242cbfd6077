//! Descriptor, layout and bookkeeping logic for a GPU engine built on wgpu:
//! bind group layouts and pipeline descriptors checked against device
//! limits, buffer sizing, texture and mip planning, sampler descriptors,
//! the surface configuration and frame decisions, joint hierarchies, the
//! rules of glTF model loading, batched skinning, touch tracking and
//! frame-time statistics. Talking to the GPU, the window and the file
//! system is the caller's work; the library decides what to ask for.

pub mod flags;
pub mod skeleton;
pub mod text;
pub mod texture_format;
pub mod binding;
pub mod layout;
pub mod limits;
pub mod buffers;
pub mod vertex_format;
pub mod material;
pub mod compute;
pub mod mipmap;
pub mod textures;
pub mod texture_array;
pub mod cubemap;
pub mod texture_view;
pub mod render_bundle;
pub mod render_pass;
pub mod samplers;
pub mod instance;
pub mod material_instance;
pub mod window;
pub mod cursor;
pub mod profiler;
pub mod animation;
pub mod gltf_loader;
pub mod skinning;
pub mod skinned_mesh;
pub mod backend;
pub mod mesh;
