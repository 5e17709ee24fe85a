use rafx_api::buffer::{needs_gl_buffer, round_size_up_to_alignment_u64, RafxBufferDef, RafxBufferGl, RafxBufferGles2};
use rafx_api::device::{RafxDeviceContextGl, RafxDeviceContextGles3, RafxQueueGl, RafxQueueType};
use rafx_api::buffer_gles3::{RafxBufferGles3, UNIFORM_BUFFER};
use rafx_api::fullscreen_quad::{FullscreenQuad, FullscreenQuadGl};
use rafx_api::gl_command::GlCommand;
use rafx_api::gl_context::{
    resolve_symbol, to_gl_bool, BufferId, FnPtr, ProgramId, RenderbufferId, ShaderId, TextureId,
    GL_FALSE, GL_TRUE,
};
use rafx_api::gl_loader::{gles2_symbols, lookup_name, next_lookup, Gles2, GLES2_FUNCTION_COUNT};
use rafx_api::gl_type_util::{byte_size_of_type, is_uniform_buffer_field_type, uniform_setter, UniformSetter};
use rafx_api::gles20;
use rafx_api::sampler::{RafxSamplerGl, RafxSamplerGles2};
use rafx_api::shader::{ProgramStages, RafxShaderGl};
use rafx_api::shader_module::{Gles2CompiledShader, RafxShaderModuleGles2, ShaderCompileStep};
use rafx_api::sync::{RafxFenceGles2, RafxSemaphoreGles2};
use rafx_api::swapchain::{RafxSwapchainColorSpace, RafxSwapchainDef, RafxSwapchainGles3};
use rafx_api::sync_gles3::{GlFinishCounter, RafxFenceGles3, RafxSemaphoreGles3};
use rafx_api::texture::{
    array_layer_to_cube_map_target, Gles3TextureInfo, GlTextureFormatInfo, RafxRawImageGl, RafxRawImageGles3,
    RafxSampleCount, RafxTextureDef, RafxTextureDimensions, RafxTextureGl, RafxTextureGles3,
};
use rafx_api::types::{
    RafxAddressMode, RafxCompareOp, RafxError, RafxExtents3D, RafxFenceStatus, RafxFilterType,
    RafxMemoryUsage, RafxMipMapMode, RafxResourceType, RafxSamplerDef, RafxShaderStageFlags,
};

fn sampler_def() -> RafxSamplerDef {
    RafxSamplerDef {
        min_filter: RafxFilterType::Linear,
        mag_filter: RafxFilterType::Nearest,
        mip_map_mode: RafxMipMapMode::Nearest,
        address_mode_u: RafxAddressMode::Repeat,
        address_mode_v: RafxAddressMode::ClampToEdge,
        address_mode_w: RafxAddressMode::ClampToBorder,
        compare_op: RafxCompareOp::Never,
    }
}

#[test]
fn sampler_parameters() {
    let s = RafxSamplerGles2::new(&sampler_def()).unwrap();
    assert_eq!(s.inner.gl_mip_map_mode, gles20::LINEAR_MIPMAP_NEAREST);
    assert_eq!(s.inner.gl_min_filter, gles20::LINEAR);
    assert_eq!(s.inner.gl_mag_filter, gles20::NEAREST);
    assert_eq!(s.inner.gl_address_mode_s, gles20::REPEAT);
    assert_eq!(s.inner.gl_address_mode_t, gles20::CLAMP_TO_EDGE);
    assert_eq!(s.min_filter_for_mip_count(1), gles20::LINEAR);
    assert_eq!(s.min_filter_for_mip_count(5), gles20::LINEAR_MIPMAP_NEAREST);
    let mut d = sampler_def();
    d.min_filter = RafxFilterType::Nearest;
    d.mip_map_mode = RafxMipMapMode::Linear;
    assert_eq!(RafxSamplerGles2::new(&d).unwrap().inner.gl_mip_map_mode, gles20::NEAREST_MIPMAP_LINEAR);
}

#[test]
fn sampler_address_mode_errors() {
    let mut d = sampler_def();
    d.address_mode_u = RafxAddressMode::ClampToBorder;
    d.address_mode_v = RafxAddressMode::Mirror;
    assert_eq!(
        RafxSamplerGles2::new(&d).err(),
        Some(RafxError::AddressModeNotSupported(RafxAddressMode::ClampToBorder))
    );
    let mut d = sampler_def();
    d.address_mode_v = RafxAddressMode::ClampToBorder;
    assert_eq!(
        RafxSamplerGles2::new(&d).err(),
        Some(RafxError::AddressModeNotSupported(RafxAddressMode::ClampToBorder))
    );
}

#[test]
fn uniform_field_types() {
    assert!(is_uniform_buffer_field_type(gles20::FLOAT_VEC3));
    assert!(is_uniform_buffer_field_type(gles20::BOOL));
    assert!(!is_uniform_buffer_field_type(0x8B5E));
    assert_eq!(byte_size_of_type(gles20::FLOAT), 4);
    assert_eq!(byte_size_of_type(gles20::INT_VEC2), 8);
    assert_eq!(byte_size_of_type(gles20::FLOAT_VEC3), 16);
    assert_eq!(byte_size_of_type(gles20::BOOL_VEC4), 16);
    assert_eq!(byte_size_of_type(gles20::FLOAT_MAT2), 32);
    assert_eq!(byte_size_of_type(gles20::FLOAT_MAT3), 48);
    assert_eq!(byte_size_of_type(gles20::FLOAT_MAT4), 64);
    assert_eq!(uniform_setter(gles20::BOOL), UniformSetter::Uniform1iv);
    assert_eq!(uniform_setter(gles20::FLOAT_VEC2), UniformSetter::Uniform2fv);
    assert_eq!(uniform_setter(gles20::FLOAT_MAT3), UniformSetter::UniformMatrix3fv);
}

#[test]
fn raw_images() {
    let t = RafxRawImageGl::Texture(TextureId(7));
    let r = RafxRawImageGl::Renderbuffer(RenderbufferId(9));
    assert_eq!(t.gl_texture_id(), Some(TextureId(7)));
    assert_eq!(t.gl_renderbuffer_id(), None);
    assert_eq!(r.gl_texture_id(), None);
    assert_eq!(r.gl_renderbuffer_id(), Some(RenderbufferId(9)));
    assert_eq!(RafxRawImageGles3::Texture(TextureId(3)).gl_texture_id(), Some(TextureId(3)));
    assert_eq!(array_layer_to_cube_map_target(0), gles20::TEXTURE_CUBE_MAP_POSITIVE_X);
    assert_eq!(array_layer_to_cube_map_target(3), gles20::TEXTURE_CUBE_MAP_NEGATIVE_Y);
    assert_eq!(array_layer_to_cube_map_target(5), gles20::TEXTURE_CUBE_MAP_NEGATIVE_Z);
}

#[test]
fn fences_wait_and_status() {
    let mut f = RafxFenceGles2::new().unwrap();
    assert!(!f.submitted());
    assert_eq!(f.get_fence_status().unwrap(), RafxFenceStatus::Unsubmitted);
    f.set_submitted(true);
    assert_eq!(f.get_fence_status().unwrap(), RafxFenceStatus::Incomplete);
    assert_eq!(f.wait(Err(RafxError::NotSupported)), Err(RafxError::NotSupported));
    assert!(f.submitted());
    assert_eq!(f.wait(Ok(())), Ok(()));
    assert!(!f.submitted());
    assert_eq!(f.get_fence_status().unwrap(), RafxFenceStatus::Unsubmitted);
    // An unsubmitted fence needs no glFinish, so its outcome does not matter.
    assert_eq!(f.wait(Err(RafxError::NotSupported)), Ok(()));
}

#[test]
fn wait_for_several_fences() {
    let mut fences = vec![
        RafxFenceGles2 { submitted: false },
        RafxFenceGles2 { submitted: true },
        RafxFenceGles2 { submitted: false },
    ];
    assert_eq!(RafxFenceGles2::wait_for_fences(&mut fences, Err(RafxError::NotSupported)), Err(RafxError::NotSupported));
    assert!(fences[1].submitted);
    assert_eq!(RafxFenceGles2::wait_for_fences(&mut fences, Ok(())), Ok(()));
    assert!(fences.iter().all(|f| !f.submitted));
    let mut idle = vec![RafxFenceGles2 { submitted: false }];
    assert_eq!(RafxFenceGles2::wait_for_fences(&mut idle, Err(RafxError::NotSupported)), Ok(()));
}

#[test]
fn semaphores() {
    let mut s = RafxSemaphoreGles2::new().unwrap();
    assert!(!s.signal_available());
    s.set_signal_available(true);
    assert!(s.signal_available());
    s.set_signal_available(false);
    assert!(!s.signal_available());
}

#[test]
fn shader_module_compiles_once_per_stage() {
    let vertex = RafxShaderStageFlags(RafxShaderStageFlags::VERTEX);
    let fragment = RafxShaderStageFlags(RafxShaderStageFlags::FRAGMENT);
    let mut m = RafxShaderModuleGles2::new_from_src("void main() {}").unwrap();
    assert_eq!(m.src(), &b"void main() {}".to_vec());
    assert_eq!(m.compile_shader(vertex), Ok(ShaderCompileStep::Compile(gles20::VERTEX_SHADER)));
    let compiled = m.finish_compile_shader(vertex, ShaderId(11));
    assert_eq!(compiled.stage(), vertex);
    assert_eq!(compiled.shader_id(), ShaderId(11));
    assert_eq!(m.compile_shader(vertex), Ok(ShaderCompileStep::Compiled(compiled)));
    assert_eq!(m.compile_shader(fragment), Err(RafxError::ShaderStageMismatch(vertex, fragment)));
    let m2 = RafxShaderModuleGles2::new_from_src("x").unwrap();
    assert_eq!(m2.compile_shader(fragment), Ok(ShaderCompileStep::Compile(gles20::FRAGMENT_SHADER)));
    let both = RafxShaderStageFlags(RafxShaderStageFlags::VERTEX | RafxShaderStageFlags::FRAGMENT);
    assert_eq!(m2.compile_shader(both), Err(RafxError::UnexpectedShaderStage(both)));
    assert_eq!(RafxShaderModuleGles2::new_from_src("a\0b").err(), Some(RafxError::ShaderSourceHasNul));
}

#[test]
fn gl_bools() {
    assert_eq!(to_gl_bool(true), GL_TRUE);
    assert_eq!(to_gl_bool(false), GL_FALSE);
    assert_eq!(GL_TRUE, 1);
}

#[test]
fn entry_points_resolve_to_first_known_name() {
    assert_eq!(resolve_symbol(&vec![0x10, 0x20]), 0x10);
    assert_eq!(resolve_symbol(&vec![0, 0, 0x30]), 0x30);
    assert_eq!(resolve_symbol(&vec![0, 0]), 0);
    assert_eq!(resolve_symbol(&vec![]), 0);
    let f = FnPtr::new(0);
    assert!(!f.is_loaded());
    let g = FnPtr::new(0x40);
    assert!(g.is_loaded());
    assert_eq!(g.address(), 0x40);
    let symbols = gles2_symbols();
    assert_eq!(symbols.len(), GLES2_FUNCTION_COUNT);
    assert_eq!(symbols[0].name, "glActiveTexture");
    assert_eq!(symbols[0].fallbacks, vec!["glActiveTextureARB"]);
    let lookups: Vec<Vec<usize>> = symbols
        .iter()
        .enumerate()
        .map(|(i, s)| {
            let mut v = vec![0usize];
            v.extend(s.fallbacks.iter().map(|_| if i == 0 { 0x99 } else { 0 }));
            v
        })
        .collect();
    let gl = Gles2::load_with(&lookups);
    assert_eq!(gl.functions.len(), GLES2_FUNCTION_COUNT);
    assert!(gl.function(0).is_loaded());
    assert_eq!(gl.function(0).address(), 0x99);
    assert!(!gl.function(1).is_loaded());
}

#[test]
fn buffers() {
    assert_eq!(round_size_up_to_alignment_u64(10, 4), 12);
    assert_eq!(round_size_up_to_alignment_u64(12, 4), 12);
    assert_eq!(round_size_up_to_alignment_u64(0, 256), 0);
    assert_eq!(round_size_up_to_alignment_u64(1, 256), 256);
    let vertex = RafxBufferDef {
        size: 64,
        memory_usage: RafxMemoryUsage::CpuToGpu,
        resource_type: RafxResourceType(RafxResourceType::VERTEX_BUFFER),
    };
    assert!(needs_gl_buffer(&vertex));
    let (b, cmds) = RafxBufferGles2::new(&vertex, 256, Some(BufferId(5)));
    assert_eq!(b.gl_target(), gles20::ARRAY_BUFFER);
    assert_eq!(b.gl_buffer_id(), Some(BufferId(5)));
    assert_eq!(b.buffer_contents.as_ref().unwrap().len(), 64);
    assert_eq!(
        cmds,
        vec![
            GlCommand::BindBuffer { target: gles20::ARRAY_BUFFER, buffer: BufferId(5) },
            GlCommand::BufferData { target: gles20::ARRAY_BUFFER, size: 64, usage: gles20::DYNAMIC_DRAW },
            GlCommand::BindBuffer { target: gles20::ARRAY_BUFFER, buffer: BufferId(0) },
        ]
    );
    let index = RafxBufferDef {
        size: 32,
        memory_usage: RafxMemoryUsage::GpuOnly,
        resource_type: RafxResourceType(RafxResourceType::INDEX_BUFFER | RafxResourceType::VERTEX_BUFFER),
    };
    let (b, cmds) = RafxBufferGles2::new(&index, 256, Some(BufferId(6)));
    assert_eq!(b.gl_target(), gles20::ELEMENT_ARRAY_BUFFER);
    assert!(b.buffer_contents.is_none());
    assert_eq!(cmds.len(), 3);
    let cpu = RafxBufferDef {
        size: 32,
        memory_usage: RafxMemoryUsage::CpuOnly,
        resource_type: RafxResourceType(RafxResourceType::VERTEX_BUFFER),
    };
    let (_, cmds) = RafxBufferGles2::new(&cpu, 256, Some(BufferId(8)));
    assert_eq!(cmds.len(), 2);
    let uniform = RafxBufferDef {
        size: 100,
        memory_usage: RafxMemoryUsage::GpuOnly,
        resource_type: RafxResourceType(RafxResourceType::UNIFORM_BUFFER),
    };
    assert!(!needs_gl_buffer(&uniform));
    let (b, cmds) = RafxBufferGles2::new(&uniform, 64, None);
    assert!(cmds.is_empty());
    assert_eq!(b.gl_target(), gles20::NONE);
    assert_eq!(b.buffer_def().memory_usage, RafxMemoryUsage::CpuOnly);
    assert_eq!(b.buffer_contents.as_ref().unwrap(), &vec![0u8; 128]);
}

#[test]
fn fullscreen_quad_draw() {
    let quad = FullscreenQuad { program_id: ProgramId(1), buffer_id: BufferId(2), flip_y_buffer_id: BufferId(3) };
    let texture = Gles3TextureInfo {
        image: RafxRawImageGles3::Texture(TextureId(4)),
        gl_target: gles20::TEXTURE_2D,
        extents: RafxExtents3D { width: 8, height: 8, depth: 1 },
        mip_count: 1,
        format_info: GlTextureFormatInfo { gl_internal_format: 0x1908, gl_format: 0x1908, gl_type: 0x1401 },
    };
    let cmds = quad.draw(&texture, true);
    assert_eq!(cmds.len(), 20);
    assert_eq!(cmds[3], GlCommand::BindBuffer { target: gles20::ARRAY_BUFFER, buffer: BufferId(3) });
    assert_eq!(cmds[9], GlCommand::BindTexture { target: gles20::TEXTURE_2D, texture: TextureId(4) });
    assert_eq!(cmds[14], GlCommand::DrawArrays { mode: gles20::TRIANGLES, first: 0, count: 6 });
    assert_eq!(quad.draw(&texture, false)[3], GlCommand::BindBuffer { target: gles20::ARRAY_BUFFER, buffer: BufferId(2) });
}

#[test]
fn gl_sampler_keeps_compare_op() {
    let mut d = sampler_def();
    d.compare_op = RafxCompareOp::LessOrEqual;
    let s = RafxSamplerGl::new(&d).unwrap();
    assert_eq!(s.inner.gl_compare_op, gles20::LEQUAL);
    assert_eq!(s.inner.gl_mip_map_mode, gles20::LINEAR_MIPMAP_NEAREST);
    assert_eq!(s.inner.gl_address_mode_t, gles20::CLAMP_TO_EDGE);
    d.address_mode_u = RafxAddressMode::ClampToBorder;
    assert_eq!(
        RafxSamplerGl::new(&d).err(),
        Some(RafxError::AddressModeNotSupported(RafxAddressMode::ClampToBorder))
    );
    // The address mode is checked before the compare op, so no compare op is refused here.
    assert_eq!(
        RafxSamplerGles2::new(&d).err(),
        Some(RafxError::AddressModeNotSupported(RafxAddressMode::ClampToBorder))
    );
}

#[test]
fn gl_buffer_keeps_unpadded_uniform_contents() {
    let uniform = RafxBufferDef {
        size: 100,
        memory_usage: RafxMemoryUsage::GpuOnly,
        resource_type: RafxResourceType(RafxResourceType::UNIFORM_BUFFER),
    };
    let (b, cmds) = RafxBufferGl::new(&uniform, 64, None);
    assert!(cmds.is_empty());
    assert_eq!(b.buffer_contents.as_ref().unwrap().len(), 100);
    assert_eq!(b.buffer_def().memory_usage, RafxMemoryUsage::CpuOnly);
    assert_eq!(b.gl_buffer_d(), None);
    let vertex = RafxBufferDef {
        size: 16,
        memory_usage: RafxMemoryUsage::GpuOnly,
        resource_type: RafxResourceType(RafxResourceType::VERTEX_BUFFER),
    };
    let (b, cmds) = RafxBufferGl::new(&vertex, 64, Some(BufferId(9)));
    assert_eq!(b.gl_buffer_d(), Some(BufferId(9)));
    assert_eq!(b.target, gles20::ARRAY_BUFFER);
    assert!(b.buffer_contents.is_none());
    assert_eq!(
        cmds,
        vec![
            GlCommand::BindBuffer { target: gles20::ARRAY_BUFFER, buffer: BufferId(9) },
            GlCommand::BufferData { target: gles20::ARRAY_BUFFER, size: 16, usage: gles20::STATIC_DRAW },
            GlCommand::BindBuffer { target: gles20::ARRAY_BUFFER, buffer: BufferId(0) },
        ]
    );
}

fn compiled(id: u32, stage: u32) -> Gles2CompiledShader {
    Gles2CompiledShader { shader_id: ShaderId(id), stage: RafxShaderStageFlags(stage) }
}

#[test]
fn program_takes_a_vertex_and_a_fragment_shader() {
    let v = RafxShaderStageFlags::VERTEX;
    let f = RafxShaderStageFlags::FRAGMENT;
    let stages = RafxShaderGl::program_stages(&vec![compiled(1, v), compiled(2, f)]).unwrap();
    assert_eq!(
        stages,
        ProgramStages {
            stage_flags: RafxShaderStageFlags(v | f),
            vertex_shader_id: ShaderId(1),
            fragment_shader_id: ShaderId(2),
        }
    );
    let shader = RafxShaderGl::new(stages, ProgramId(7));
    assert_eq!(shader.program_id(), ProgramId(7));
    assert_eq!(shader.vertex_shader_id, ShaderId(1));
    let later_wins = RafxShaderGl::program_stages(&vec![compiled(1, v), compiled(2, f), compiled(3, v)]).unwrap();
    assert_eq!(later_wins.vertex_shader_id, ShaderId(3));
    assert_eq!(
        RafxShaderGl::program_stages(&vec![compiled(2, f)]),
        Err(RafxError::MissingVertexShader)
    );
    assert_eq!(
        RafxShaderGl::program_stages(&vec![compiled(1, v)]),
        Err(RafxError::MissingFragmentShader)
    );
    assert_eq!(RafxShaderGl::program_stages(&vec![]), Err(RafxError::MissingVertexShader));
    let compute = RafxShaderStageFlags::COMPUTE;
    assert_eq!(
        RafxShaderGl::program_stages(&vec![compiled(1, v), compiled(4, compute), compiled(2, f)]),
        Err(RafxError::UnexpectedShaderStage(RafxShaderStageFlags(compute)))
    );
}

#[test]
fn buffer_copies_and_flushes() {
    let vertex = RafxBufferDef {
        size: 8,
        memory_usage: RafxMemoryUsage::CpuToGpu,
        resource_type: RafxResourceType(RafxResourceType::VERTEX_BUFFER),
    };
    let (mut b, _) = RafxBufferGles2::new(&vertex, 4, Some(BufferId(3)));
    assert_eq!(b.mapped_count, 0);
    assert!(b.mapped_memory().is_none());
    let cmds = b.copy_to_host_visible_buffer_with_offset(&[1, 2, 3], 2).unwrap();
    assert_eq!(b.buffer_contents.as_ref().unwrap(), &vec![0, 0, 1, 2, 3, 0, 0, 0]);
    assert_eq!(
        cmds,
        vec![
            GlCommand::BindBuffer { target: gles20::ARRAY_BUFFER, buffer: BufferId(3) },
            GlCommand::BufferSubData { target: gles20::ARRAY_BUFFER, dst_offset: 0, src_offset: 0, size: 8 },
            GlCommand::BindBuffer { target: gles20::ARRAY_BUFFER, buffer: BufferId(0) },
        ]
    );
    assert_eq!(b.mapped_count, 1);
    assert_eq!(b.mapped_memory().unwrap()[2], 1);
    b.finish_unmap_buffer();
    assert_eq!(b.mapped_count, 0);
    b.copy_to_host_visible_buffer(&[9]).unwrap();
    b.finish_unmap_buffer();
    assert_eq!(b.buffer_contents.as_ref().unwrap()[..3], [9, 0, 1]);

    let mapped = b.map_buffer();
    mapped[7] = 5;
    assert_eq!(b.buffer_contents.as_ref().unwrap()[7], 5);
    assert_eq!(b.mapped_count, 1);
    assert_eq!(b.unmap_buffer().unwrap().len(), 3);
    b.finish_unmap_buffer();
    b.finish_unmap_buffer();
    assert_eq!(b.mapped_count, u32::MAX);

    let uniform = RafxBufferDef {
        size: 4,
        memory_usage: RafxMemoryUsage::CpuOnly,
        resource_type: RafxResourceType(RafxResourceType::UNIFORM_BUFFER),
    };
    let (mut u, _) = RafxBufferGl::new(&uniform, 16, None);
    assert_eq!(u.copy_to_host_visible_buffer(&[7, 7]).unwrap(), vec![]);
    assert_eq!(u.buffer_contents.as_ref().unwrap(), &vec![7, 7, 0, 0]);
}

#[test]
fn gles3_uniform_buffers_are_padded_buffer_objects() {
    let uniform = RafxBufferDef {
        size: 20,
        memory_usage: RafxMemoryUsage::CpuToGpu,
        resource_type: RafxResourceType(RafxResourceType::UNIFORM_BUFFER),
    };
    let (mut u, cmds) = RafxBufferGles3::new(&uniform, 16, Some(BufferId(4)));
    assert_eq!(u.allocation_size, 32);
    assert_eq!(u.target, UNIFORM_BUFFER);
    assert_eq!(u.buffer_contents.as_ref().unwrap().len(), 32);
    assert_eq!(
        cmds,
        vec![
            GlCommand::BindBuffer { target: UNIFORM_BUFFER, buffer: BufferId(4) },
            GlCommand::BufferData { target: UNIFORM_BUFFER, size: 32, usage: gles20::DYNAMIC_DRAW },
            GlCommand::BindBuffer { target: UNIFORM_BUFFER, buffer: BufferId(0) },
        ]
    );
    let flush = u.copy_to_host_visible_buffer_with_offset(&[1, 2], 30).unwrap();
    assert_eq!(u.buffer_contents.as_ref().unwrap()[29..], [0, 1, 2]);
    assert_eq!(
        flush[1],
        GlCommand::BufferSubData { target: UNIFORM_BUFFER, dst_offset: 0, src_offset: 0, size: 32 }
    );
    u.finish_unmap_buffer();
    assert!(u.mapped_memory().is_none());
}

#[test]
fn gles3_buffer_targets() {
    let index = RafxBufferDef {
        size: 6,
        memory_usage: RafxMemoryUsage::GpuOnly,
        resource_type: RafxResourceType(RafxResourceType::INDEX_BUFFER),
    };
    let (i, cmds) = RafxBufferGles3::new(&index, 16, Some(BufferId(2)));
    assert_eq!(i.target, gles20::ELEMENT_ARRAY_BUFFER);
    assert!(i.buffer_contents.is_none());
    assert_eq!(cmds[1], GlCommand::BufferData { target: gles20::ELEMENT_ARRAY_BUFFER, size: 6, usage: gles20::STATIC_DRAW });

    let vertex = RafxBufferDef {
        size: 6,
        memory_usage: RafxMemoryUsage::CpuOnly,
        resource_type: RafxResourceType(RafxResourceType::VERTEX_BUFFER),
    };
    let (v, cmds) = RafxBufferGles3::new(&vertex, 16, Some(BufferId(3)));
    assert_eq!(v.target, gles20::ARRAY_BUFFER);
    assert_eq!(cmds.len(), 2);
    assert_eq!(v.buffer_contents.as_ref().unwrap(), &vec![0; 6]);

    let storage = RafxBufferDef {
        size: 5,
        memory_usage: RafxMemoryUsage::GpuOnly,
        resource_type: RafxResourceType(RafxResourceType::BUFFER),
    };
    let (s, cmds) = RafxBufferGles3::new(&storage, 16, None);
    assert_eq!(s.target, gles20::NONE);
    assert_eq!(s.buffer_def.memory_usage, RafxMemoryUsage::CpuOnly);
    assert_eq!(s.allocation_size, 5);
    assert_eq!(s.buffer_contents.as_ref().unwrap().len(), 5);
    assert!(cmds.is_empty());
    assert!(s.unmap_buffer().unwrap().is_empty());
}

fn texture_def(resource_type: u32, array_length: u32, mip_count: u32) -> RafxTextureDef {
    RafxTextureDef {
        extents: RafxExtents3D { width: 8, height: 4, depth: 1 },
        array_length,
        mip_count,
        resource_type: RafxResourceType(resource_type),
        sample_count: RafxSampleCount::SampleCount1,
        dimensions: RafxTextureDimensions::Dim2D,
    }
}

const RGBA8: GlTextureFormatInfo = GlTextureFormatInfo { gl_internal_format: 0x8058, gl_format: 0x1908, gl_type: 0x1401 };

fn allocation(target: u32, mip_level: u8, width: u32, height: u32) -> GlCommand {
    GlCommand::TexImage2D {
        target,
        mip_level,
        internal_format: 0x8058,
        width,
        height,
        format: 0x1908,
        gl_type: 0x1401,
        src_offset: None,
    }
}

#[test]
fn new_texture_allocates_every_mip_level() {
    let def = texture_def(RafxResourceType::TEXTURE, 1, 3);
    let (t, cmds) = RafxTextureGles3::from_existing(None, &def, RafxTextureDimensions::Dim2D, Some(RGBA8), TextureId(12), 40).unwrap();
    assert_eq!(t.gl_target(), gles20::TEXTURE_2D);
    assert_eq!(*t.gl_raw_image(), RafxRawImageGles3::Texture(TextureId(12)));
    assert_eq!(t.texture_id, 40);
    assert_eq!(
        cmds,
        vec![
            GlCommand::PixelStorei { pname: gles20::UNPACK_ALIGNMENT, param: 1 },
            GlCommand::BindTexture { target: gles20::TEXTURE_2D, texture: TextureId(12) },
            allocation(gles20::TEXTURE_2D, 0, 8, 4),
            allocation(gles20::TEXTURE_2D, 1, 4, 2),
            allocation(gles20::TEXTURE_2D, 2, 2, 1),
            GlCommand::BindTexture { target: gles20::TEXTURE_2D, texture: TextureId(0) },
        ]
    );
    let info = t.recording_info();
    assert_eq!(info.mip_count, 3);
    assert_eq!(info.format_info, RGBA8);
}

#[test]
fn cube_texture_allocates_six_faces() {
    let def = texture_def(RafxResourceType::TEXTURE_CUBE, 6, 2);
    let (t, cmds) = RafxTextureGles3::from_existing(None, &def, RafxTextureDimensions::Dim2D, Some(RGBA8), TextureId(3), 1).unwrap();
    assert_eq!(t.gl_target, gles20::TEXTURE_CUBE_MAP);
    assert_eq!(cmds.len(), 2 + 6 * 2 + 1);
    assert_eq!(cmds[2], allocation(gles20::TEXTURE_CUBE_MAP_POSITIVE_X, 0, 8, 4));
    assert_eq!(cmds[3], allocation(gles20::TEXTURE_CUBE_MAP_POSITIVE_X, 1, 4, 2));
    assert_eq!(cmds[13], allocation(gles20::TEXTURE_CUBE_MAP_NEGATIVE_Z, 1, 4, 2));
    assert_eq!(cmds[14], GlCommand::BindTexture { target: gles20::TEXTURE_CUBE_MAP, texture: TextureId(0) });
}

#[test]
fn existing_texture_is_wrapped_and_format_is_required() {
    let def = texture_def(RafxResourceType::TEXTURE, 1, 1);
    let existing = RafxRawImageGles3::Texture(TextureId(77));
    let (t, cmds) = RafxTextureGles3::from_existing(Some(existing), &def, RafxTextureDimensions::Dim2D, Some(RGBA8), TextureId(0), 2).unwrap();
    assert!(cmds.is_empty());
    assert_eq!(t.image, existing);
    let (u, _) = RafxTextureGles3::from_existing(Some(existing), &def, RafxTextureDimensions::Dim2D, Some(RGBA8), TextureId(0), 2).unwrap();
    let (v, _) = RafxTextureGles3::from_existing(Some(existing), &def, RafxTextureDimensions::Dim2D, Some(RGBA8), TextureId(0), 3).unwrap();
    assert!(t == u);
    assert!(t != v);
    assert_eq!(
        RafxTextureGles3::from_existing(None, &def, RafxTextureDimensions::Dim2D, None, TextureId(0), 4).err(),
        Some(RafxError::FormatNotSupported)
    );
}

#[test]
fn swapchain_hands_out_indices_in_turn() {
    let def = texture_def(RafxResourceType::TEXTURE, 1, 1);
    let (image, _) = RafxTextureGles3::from_existing(Some(RafxRawImageGles3::Texture(TextureId(0))), &def, RafxTextureDimensions::Dim2D, Some(RGBA8), TextureId(0), 9).unwrap();
    let swapchain_def = RafxSwapchainDef { width: 8, height: 4, enable_vsync: true, color_space: RafxSwapchainColorSpace::Srgb };
    let mut swapchain = RafxSwapchainGles3::new(&swapchain_def, image).unwrap();
    assert_eq!(swapchain.image_count(), 3);
    let device = GlFinishCounter { count: 5 };
    let mut fence = RafxFenceGles3::new().unwrap();
    let mut semaphore = RafxSemaphoreGles3::new().unwrap();
    let first = swapchain.acquire_next_image_fence(&mut fence, &device).unwrap();
    assert_eq!(first.swapchain_image_index, 0);
    assert!(first.texture == image);
    assert!(fence.submitted);
    assert_eq!(fence.gl_finish_call_count, 5);
    assert_eq!(swapchain.acquire_next_image_semaphore(&mut semaphore).unwrap().swapchain_image_index, 1);
    assert!(semaphore.signal_available);
    assert_eq!(swapchain.acquire_next_image().unwrap().swapchain_image_index, 2);
    assert_eq!(swapchain.acquire_next_image().unwrap().swapchain_image_index, 0);
    let bigger = RafxSwapchainDef { width: 16, ..swapchain_def };
    swapchain.rebuild(&bigger, image).unwrap();
    assert_eq!(swapchain.swapchain_def().width, 16);
    assert_eq!(swapchain.acquire_next_image().unwrap().swapchain_image_index, 1);
}

#[test]
fn gles3_fence_polls_against_the_finish_count() {
    let mut device = GlFinishCounter::new();
    let mut fence = RafxFenceGles3::new().unwrap();
    assert_eq!(fence.get_fence_status(&device).unwrap(), RafxFenceStatus::Unsubmitted);
    fence.set_submitted(true, &device);
    assert_eq!(fence.get_fence_status(&device).unwrap(), RafxFenceStatus::Complete);
    assert_eq!(fence.get_fence_status(&device).unwrap(), RafxFenceStatus::Unsubmitted);

    fence.set_submitted(true, &device);
    assert!(device.gl_finish(Ok(())).is_ok());
    assert_eq!(device.count, 1);
    assert_eq!(fence.get_fence_status(&device).unwrap(), RafxFenceStatus::Incomplete);
    assert!(fence.submitted);

    assert_eq!(fence.wait(&mut device, Err(RafxError::GlError(0x0505))), Err(RafxError::GlError(0x0505)));
    assert!(fence.submitted);
    assert_eq!(device.count, 1);
    assert!(fence.wait(&mut device, Ok(())).is_ok());
    assert!(!fence.submitted);
    assert_eq!(device.count, 2);
    assert!(fence.wait(&mut device, Err(RafxError::GlError(1))).is_ok());
    assert_eq!(device.count, 2);
}

#[test]
fn gles3_fences_share_one_finish() {
    let mut device = GlFinishCounter::new();
    let mut a = RafxFenceGles3::new().unwrap();
    let b = RafxFenceGles3::new().unwrap();
    a.set_submitted(true, &device);
    let mut fences = vec![b, a];
    assert!(RafxFenceGles3::wait_for_fences(&mut device, &mut fences, Ok(())).is_ok());
    assert_eq!(device.count, 1);
    assert!(fences.iter().all(|f| !f.submitted));
    assert!(RafxFenceGles3::wait_for_fences(&mut device, &mut fences, Err(RafxError::GlError(1))).is_ok());
    assert_eq!(device.count, 1);
}

#[test]
fn device_contexts_report_their_limits() {
    let gl = RafxDeviceContextGl::new(4, 16);
    assert_eq!(gl.device_info().min_uniform_buffer_offset_alignment, 4);
    assert_eq!(gl.device_info().upload_buffer_texture_row_alignment, 4);
    assert!(!gl.device_info().supports_clamp_to_border_color);
    assert_eq!(gl.device_info().max_vertex_attribute_count, 16);

    let mut gles3 = RafxDeviceContextGles3::new(4, 16, 256, true);
    assert_eq!(gles3.device_info().min_uniform_buffer_offset_alignment, 256);
    assert_eq!(gles3.device_info().min_storage_buffer_offset_alignment, 4);
    assert!(!gles3.device_info().supports_multithreaded_usage);
    assert!(gles3.validate_shaders);
    assert_eq!(gles3.gl_finish(Err(RafxError::GlError(1))), Err(RafxError::GlError(1)));
    assert_eq!(gles3.gl_finish_call_count.count, 0);
    assert!(gles3.gl_finish(Ok(())).is_ok());
    assert_eq!(gles3.gl_finish_call_count.count, 1);
    let fence = gles3.create_fence().unwrap();
    assert!(!fence.submitted);
    assert!(!gles3.create_semaphore().unwrap().signal_available);
}

#[test]
fn only_single_sampling_is_supported() {
    let gl = RafxDeviceContextGl::new(4, 16);
    assert_eq!(
        gl.find_supported_sample_count(&[RafxSampleCount::SampleCount4, RafxSampleCount::SampleCount1]),
        Some(RafxSampleCount::SampleCount1)
    );
    assert_eq!(gl.find_supported_sample_count(&[RafxSampleCount::SampleCount4]), None);
    let gles3 = RafxDeviceContextGles3::new(4, 16, 256, false);
    assert_eq!(gles3.find_supported_sample_count(&[]), None);
    assert_eq!(gles3.find_supported_sample_count(&[RafxSampleCount::SampleCount1]), Some(RafxSampleCount::SampleCount1));
}

#[test]
fn gl_texture_wraps_the_default_framebuffer() {
    let def = texture_def(RafxResourceType::TEXTURE, 1, 1);
    let image = RafxRawImageGl::Renderbuffer(RenderbufferId(0));
    let t = RafxTextureGl::from_existing(Some(image), &def, 5).unwrap();
    assert_eq!(*t.gl_raw_image(), image);
    assert_eq!(t.texture_def().mip_count, 1);
    let u = RafxTextureGl::from_existing(Some(image), &def, 6).unwrap();
    assert!(t != u);
    assert!(t == t.clone());
}

#[test]
fn queues_keep_their_type_and_id() {
    let q = RafxQueueGl::new(RafxQueueType::Transfer, 7).unwrap();
    assert_eq!(q.queue_type(), RafxQueueType::Transfer);
    assert_eq!(q.queue_id(), 7);
}

/// Loads every entry point, asking `loader` as the library's lookup order says, and records the
/// names asked.
fn load_lazily(loader: &dyn Fn(&str) -> usize, asked: &mut Vec<String>) -> Gles2 {
    let mut lookups = Vec::new();
    for symbol in gles2_symbols().iter() {
        let mut answers = Vec::new();
        while let Some(k) = next_lookup(symbol, &answers) {
            let name = lookup_name(symbol, k);
            asked.push(name.to_string());
            answers.push(loader(name));
        }
        lookups.push(answers);
    }
    Gles2::load_with(&lookups)
}

#[test]
fn entry_point_names_and_fallbacks() {
    let symbols = gles2_symbols();
    assert_eq!(symbols[0].name, "glActiveTexture");
    assert_eq!(symbols[0].fallbacks, vec!["glActiveTextureARB"]);
    assert_eq!(symbols[11].name, "glBlendFuncSeparate");
    assert_eq!(symbols[11].fallbacks, vec!["glBlendFuncSeparateEXT", "glBlendFuncSeparateINGR"]);
    assert_eq!(symbols[GLES2_FUNCTION_COUNT - 1].name, "glViewport");
    assert!(symbols[GLES2_FUNCTION_COUNT - 1].fallbacks.is_empty());
}

#[test]
fn fallbacks_load_entry_points_the_loader_lacks() {
    let loader = |s: &str| if s == "glActiveTextureARB" || s == "glBlendFuncSeparateINGR" { 1usize } else { 0 };
    let mut asked = Vec::new();
    let g = load_lazily(&loader, &mut asked);
    let symbols = gles2_symbols();
    let index = |name: &str| symbols.iter().position(|s| s.name == name).unwrap();
    assert!(g.function(index("glActiveTexture")).is_loaded());
    assert!(g.function(index("glBlendFuncSeparate")).is_loaded());
    assert!(!g.function(index("glClear")).is_loaded());
    assert!(!g.function(index("glBindFramebuffer")).is_loaded());
    assert!(!g.function(index("glViewport")).is_loaded());
    // The fallbacks are tried in order, after the entry point's own name.
    let p = asked.iter().position(|n| n == "glBlendFuncSeparate").unwrap();
    assert_eq!(asked[p + 1], "glBlendFuncSeparateEXT");
    assert_eq!(asked[p + 2], "glBlendFuncSeparateINGR");
}

#[test]
fn a_known_name_stops_the_asking() {
    let loader = |s: &str| if s.ends_with("ARB") || s.ends_with("NV") { 0 } else { 7usize };
    let mut asked = Vec::new();
    let g = load_lazily(&loader, &mut asked);
    assert_eq!(asked.len(), GLES2_FUNCTION_COUNT);
    assert!(g.function(0).is_loaded());
    assert_eq!(g.function(0).address(), 7);

    let mut asked_all = Vec::new();
    let none = load_lazily(&|_s: &str| 0usize, &mut asked_all);
    assert!((0..GLES2_FUNCTION_COUNT).all(|i| !none.function(i).is_loaded()));
    assert!(asked_all.iter().any(|n| n == "glVertexAttrib4fNV"));
    let total: usize = gles2_symbols().iter().map(|s| 1 + s.fallbacks.len()).sum();
    assert_eq!(asked_all.len(), total);
}

#[test]
fn a_finish_is_needed_only_for_submitted_fences() {
    let idle = vec![RafxFenceGles2::new().unwrap(), RafxFenceGles2::new().unwrap()];
    assert!(!RafxFenceGles2::any_submitted(&idle));
    let mut some = vec![RafxFenceGles2::new().unwrap(), RafxFenceGles2::new().unwrap()];
    some[1].set_submitted(true);
    assert!(RafxFenceGles2::any_submitted(&some));
    let device = GlFinishCounter::new();
    let mut f3 = vec![RafxFenceGles3::new().unwrap()];
    assert!(!RafxFenceGles3::any_submitted(&f3));
    f3[0].set_submitted(true, &device);
    assert!(RafxFenceGles3::any_submitted(&f3));
}

#[test]
fn gl_quad_disables_the_other_attribute_arrays() {
    let quad = FullscreenQuadGl { program_id: ProgramId(3), buffer_id: BufferId(4) };
    let texture = RafxTextureGl {
        texture_def: texture_def(RafxResourceType::TEXTURE, 1, 1),
        image: RafxRawImageGl::Texture(TextureId(8)),
        texture_id: 1,
    };
    let cmds = quad.draw(4, &texture);
    assert_eq!(cmds.len(), 7 + 2 + 9);
    assert_eq!(cmds[0], GlCommand::Disable(gles20::DEPTH_TEST));
    assert_eq!(cmds[2], GlCommand::BindBuffer { target: gles20::ARRAY_BUFFER, buffer: BufferId(4) });
    assert_eq!(cmds[7], GlCommand::DisableVertexAttribArray(2));
    assert_eq!(cmds[8], GlCommand::DisableVertexAttribArray(3));
    assert_eq!(cmds[9], GlCommand::BindTexture { target: gles20::TEXTURE_2D, texture: TextureId(8) });
    assert_eq!(cmds[17], GlCommand::UseProgram(ProgramId(0)));
    assert_eq!(quad.draw(1, &texture).len(), 16);
}
