//! GL ES backend logic of the rafx graphics API: enum conversion, pipeline-state tracking,
//! descriptor layout and binding, and the bookkeeping of fences, semaphores and shaders.
use vstd::prelude::*;

pub mod buffer;
pub mod buffer_gles3;
pub mod command_buffer;
pub mod command_pool;
pub mod conversions;
pub mod device;
pub mod descriptor_binding;
pub mod descriptor_set_array;
pub mod fnv_maps;
pub mod fullscreen_quad;
pub mod gl_command;
pub mod gl_context;
pub mod gl_loader;
pub mod gl_type_util;
pub mod gles20;
pub mod pipeline;
pub mod reflection;
pub mod root_signature;
pub mod root_signature_gles2;
pub mod sampler;
pub mod shader;
pub mod shader_module;
pub mod swapchain;
pub mod sync;
pub mod sync_gles3;
pub mod texture;
pub mod types;

verus! {

} // verus!
