use rafx_api::buffer::RafxBufferDef;
use rafx_api::buffer_gles3::RafxBufferGles3;
use rafx_api::command_buffer::{
    RafxCmdCopyBufferToTextureParams,
    ensure_pipeline_bindings_up_to_date, Gles3BufferInfo, PendingDescriptorSet, RafxColorClearValue,
    RafxColorRenderTargetBinding, RafxCommandBufferGles3, RafxDepthStencilClearValue,
    RafxDepthStencilRenderTargetBinding, RafxIndexBufferBinding, RafxVertexBufferBinding,
    ONE_F32_BITS,
};
use rafx_api::command_pool::{BoundDescriptorSet, CommandPoolGles3StateInner, DescriptorSetBindings, VertexBindings};
use rafx_api::conversions::{Gles2BlendState, Gles2DepthStencilState, Gles2RasterizerState};
use rafx_api::descriptor_binding::{descriptor_set_bindable_for, do_bind_descriptor_set};
use rafx_api::descriptor_set_array::{
    RafxDescriptorBuffer, RafxDescriptorElements, RafxDescriptorKey, RafxDescriptorSetArrayGles2,
    RafxDescriptorUpdate, RafxOffsetSize,
};
use rafx_api::gl_command::GlCommand;
use rafx_api::gl_context::{
    ActiveUniformInfo, BufferId, FramebufferId, LocationId, ProgramId, TextureId,
};
use rafx_api::gles20;
use rafx_api::pipeline::{Gles3Attribute, Gles3PipelineInfo, PipelineBindingState};
use rafx_api::reflection::{UniformMember, UniformReflectionData};
use rafx_api::root_signature::{RafxRootSignatureGles3, RafxShaderResourceGles};
use rafx_api::sampler::RafxSamplerGles2;
use rafx_api::texture::{Gles3TextureInfo, GlTextureFormatInfo, RafxRawImageGles3};
use rafx_api::types::{
    RafxAddressMode, RafxColorFlags, RafxCompareOp, RafxError, RafxExtents2D, RafxExtents3D,
    RafxFilterType, RafxIndexType, RafxLoadOp, RafxMemoryUsage, RafxMipMapMode, RafxPipelineType,
    RafxResourceType, RafxSamplerDef,
};

fn texture(id: u32, width: u32, height: u32) -> Gles3TextureInfo {
    Gles3TextureInfo {
        image: RafxRawImageGles3::Texture(TextureId(id)),
        gl_target: gles20::TEXTURE_2D,
        extents: RafxExtents3D { width, height, depth: 1 },
        mip_count: 1,
        format_info: GlTextureFormatInfo { gl_internal_format: 0x1908, gl_format: 0x1908, gl_type: 0x1401 },
    }
}

fn color_target(id: u32, load_op: RafxLoadOp) -> RafxColorRenderTargetBinding {
    RafxColorRenderTargetBinding {
        texture: texture(id, 64, 32),
        load_op,
        clear_value: RafxColorClearValue([0, 0, 0, ONE_F32_BITS]),
        mip_slice: None,
        array_slice: None,
    }
}

fn depth_target(id: u32) -> RafxDepthStencilRenderTargetBinding {
    RafxDepthStencilRenderTargetBinding {
        texture: texture(id, 16, 8),
        has_depth: true,
        has_stencil: false,
        depth_load_op: RafxLoadOp::Clear,
        stencil_load_op: RafxLoadOp::DontCare,
        clear_value: RafxDepthStencilClearValue { depth_bits: ONE_F32_BITS, stencil: 0 },
        mip_slice: None,
        array_slice: None,
    }
}

fn attribute(location: u32, channel_count: u32, byte_offset: u32) -> Gles3Attribute {
    Gles3Attribute {
        buffer_index: 0,
        location,
        channel_count,
        gl_type: gles20::FLOAT,
        stride: 20,
        divisor: 0,
        is_normalized: false,
        byte_offset,
    }
}

fn depth_stencil(stencil_test_enable: bool) -> Gles2DepthStencilState {
    Gles2DepthStencilState {
        depth_test_enable: true,
        depth_write_enable: true,
        depth_compare_op: gles20::LESS,
        stencil_test_enable,
        stencil_write_mask: 0xff,
        front_depth_fail_op: gles20::KEEP,
        front_stencil_compare_op: gles20::EQUAL,
        front_stencil_fail_op: gles20::KEEP,
        front_stencil_pass_op: gles20::REPLACE,
        back_depth_fail_op: gles20::KEEP,
        back_stencil_compare_op: gles20::ALWAYS,
        back_stencil_fail_op: gles20::KEEP,
        back_stencil_pass_op: gles20::KEEP,
    }
}

fn pipeline(root_signature_id: u32, stencil: bool) -> Gles3PipelineInfo {
    Gles3PipelineInfo {
        gl_rasterizer_state: Gles2RasterizerState {
            cull_mode: gles20::NONE,
            front_face: gles20::CCW,
            scissor_test: false,
        },
        gl_depth_stencil_state: depth_stencil(stencil),
        gl_blend_state: Gles2BlendState {
            enabled: false,
            src_factor: gles20::ONE,
            dst_factor: gles20::ZERO,
            src_factor_alpha: gles20::ONE,
            dst_factor_alpha: gles20::ZERO,
            blend_op: gles20::FUNC_ADD,
            blend_op_alpha: gles20::FUNC_ADD,
        },
        color_flags: RafxColorFlags(RafxColorFlags::ALL),
        gl_topology: gles20::TRIANGLES,
        gl_attributes: vec![attribute(0, 3, 0), attribute(1, 2, 12)],
        program_id: ProgramId(21),
        resource_locations: vec![],
        uniform_member_locations: vec![],
        root_signature_id,
    }
}

fn started() -> RafxCommandBufferGles3 {
    let pool = CommandPoolGles3StateInner::new(3, FramebufferId(11), 8);
    let mut cb = RafxCommandBufferGles3::new(pool).unwrap();
    cb.begin().unwrap();
    cb
}

fn vertex_buffer(id: u32, resource_type: u32) -> RafxVertexBufferBinding {
    RafxVertexBufferBinding {
        buffer: Gles3BufferInfo { buffer_id: Some(BufferId(id)), resource_type: RafxResourceType(resource_type) },
        byte_offset: 100,
    }
}

#[test]
fn new_pool_state_is_empty() {
    let pool = CommandPoolGles3StateInner::new(3, FramebufferId(11), 8);
    assert_eq!(pool.id, 3);
    assert_eq!(pool.framebuffer_color_bound, vec![false; 8]);
    assert!(!pool.is_started);
    assert_eq!(pool.vertex.vertex_attributes.len(), 8);
    assert_eq!(pool.descriptor_sets.descriptor_sets_update_index, vec![0, 0, 0, 0]);
    assert!(pool.reset_command_pool().is_ok());
    let cb = RafxCommandBufferGles3::new(pool).unwrap();
    assert!(cb.return_to_pool().is_ok());
}

#[test]
fn begin_render_pass_attaches_targets() {
    let mut cb = started();
    assert!(cb.command_pool_state.is_started);
    let begin = cb.cmd_begin_render_pass(&vec![color_target(5, RafxLoadOp::Clear)], None).unwrap();
    assert_eq!(
        begin.commands,
        vec![
            GlCommand::UseProgram(ProgramId(0)),
            GlCommand::BindFramebuffer { target: gles20::FRAMEBUFFER, framebuffer: FramebufferId(11) },
            GlCommand::BindTexture { target: gles20::TEXTURE_2D, texture: TextureId(5) },
            GlCommand::FramebufferTexture {
                target: gles20::FRAMEBUFFER,
                attachment: gles20::COLOR_ATTACHMENT0,
                texture_target: gles20::TEXTURE_2D,
                texture: TextureId(5),
                mip_level: 0,
            },
            GlCommand::BindTexture { target: gles20::TEXTURE_2D, texture: TextureId(0) },
            GlCommand::ClearColor { r_bits: 0, g_bits: 0, b_bits: 0, a_bits: ONE_F32_BITS },
            GlCommand::Viewport { x: 0, y: 0, width: 64, height: 32 },
            GlCommand::DepthRange { near_bits: 0, far_bits: ONE_F32_BITS },
            GlCommand::Scissor { x: 0, y: 0, width: 64, height: 32 },
        ]
    );
    assert_eq!(begin.clear_mask, gles20::COLOR_BUFFER_BIT);
    assert_eq!(cb.command_pool_state.framebuffer_color_bound[0], true);
    assert_eq!(cb.command_pool_state.framebuffer_color_bound[1], false);

    let clear = cb.finish_begin_render_pass(&begin, gles20::FRAMEBUFFER_COMPLETE).unwrap();
    assert_eq!(clear, vec![GlCommand::Clear(gles20::COLOR_BUFFER_BIT)]);
    assert_eq!(cb.command_pool_state.surface_size, Some(RafxExtents2D { width: 64, height: 32 }));

    let end = cb.cmd_end_render_pass().unwrap();
    assert_eq!(
        end,
        vec![GlCommand::BindFramebuffer { target: gles20::FRAMEBUFFER, framebuffer: FramebufferId(0) }]
    );
    assert_eq!(cb.command_pool_state.surface_size, None);
}

#[test]
fn second_render_pass_detaches_unused_color_target() {
    let mut cb = started();
    cb.cmd_begin_render_pass(&vec![color_target(5, RafxLoadOp::Load)], None).unwrap();
    let begin = cb.cmd_begin_render_pass(&vec![], Some(depth_target(6))).unwrap();
    assert_eq!(
        begin.commands,
        vec![
            GlCommand::UseProgram(ProgramId(0)),
            GlCommand::BindFramebuffer { target: gles20::FRAMEBUFFER, framebuffer: FramebufferId(11) },
            GlCommand::FramebufferTexture {
                target: gles20::FRAMEBUFFER,
                attachment: gles20::COLOR_ATTACHMENT0,
                texture_target: gles20::TEXTURE_2D,
                texture: TextureId(0),
                mip_level: 0,
            },
            GlCommand::BindTexture { target: gles20::TEXTURE_2D, texture: TextureId(6) },
            GlCommand::FramebufferTexture {
                target: gles20::FRAMEBUFFER,
                attachment: gles20::DEPTH_ATTACHMENT,
                texture_target: gles20::TEXTURE_2D,
                texture: TextureId(6),
                mip_level: 0,
            },
            GlCommand::BindTexture { target: gles20::TEXTURE_2D, texture: TextureId(0) },
            GlCommand::ClearDepth { depth_bits: ONE_F32_BITS },
            GlCommand::Viewport { x: 0, y: 0, width: 16, height: 8 },
            GlCommand::DepthRange { near_bits: 0, far_bits: ONE_F32_BITS },
            GlCommand::Scissor { x: 0, y: 0, width: 16, height: 8 },
        ]
    );
    assert_eq!(begin.clear_mask, gles20::DEPTH_BUFFER_BIT);
    assert_eq!(cb.command_pool_state.framebuffer_color_bound, vec![false; 8]);
    let finish = cb.finish_begin_render_pass(&begin, gles20::FRAMEBUFFER_COMPLETE).unwrap();
    assert_eq!(finish, vec![GlCommand::Clear(gles20::DEPTH_BUFFER_BIT)]);
}

#[test]
fn render_pass_errors() {
    let mut cb = started();
    assert_eq!(cb.cmd_begin_render_pass(&vec![], None).err(), Some(RafxError::NoRenderTargets));
    let begin = cb.cmd_begin_render_pass(&vec![color_target(5, RafxLoadOp::DontCare)], None).unwrap();
    assert_eq!(begin.clear_mask, 0);
    assert_eq!(
        cb.finish_begin_render_pass(&begin, 0x8CD6).err(),
        Some(RafxError::FramebufferIncomplete(0x8CD6))
    );
    assert_eq!(cb.command_pool_state.surface_size, None);
    assert_eq!(cb.finish_begin_render_pass(&begin, gles20::FRAMEBUFFER_COMPLETE).unwrap(), vec![]);
}

#[test]
fn scissor_and_stencil_reference() {
    let mut cb = started();
    assert_eq!(
        cb.cmd_set_scissor(1, 2, 3, 4).unwrap(),
        vec![GlCommand::Scissor { x: 1, y: 2, width: 3, height: 4 }]
    );
    assert_eq!(cb.cmd_set_stencil_reference_value(5).unwrap(), vec![]);
    assert_eq!(cb.command_pool_state.stencil_reference_value, 5);
    cb.cmd_bind_pipeline(pipeline(9, true)).unwrap();
    assert_eq!(
        cb.cmd_set_stencil_reference_value(7).unwrap(),
        vec![
            GlCommand::StencilFuncSeparate { face: gles20::FRONT, func: gles20::EQUAL, reference: 7, mask: 0xffff_ffff },
            GlCommand::StencilFuncSeparate { face: gles20::BACK, func: gles20::ALWAYS, reference: 7, mask: 0xffff_ffff },
        ]
    );
}

#[test]
fn bind_pipeline_sets_fixed_function_state() {
    let mut cb = started();
    let cmds = cb.cmd_bind_pipeline(pipeline(9, false)).unwrap();
    assert_eq!(
        cmds,
        vec![
            GlCommand::UseProgram(ProgramId(21)),
            GlCommand::Disable(gles20::CULL_FACE),
            GlCommand::Disable(gles20::SCISSOR_TEST),
            GlCommand::Enable(gles20::DEPTH_TEST),
            GlCommand::DepthMask(true),
            GlCommand::DepthFunc(gles20::LESS),
            GlCommand::Disable(gles20::STENCIL_TEST),
            GlCommand::Disable(gles20::BLEND),
            GlCommand::ColorMask { red: true, green: true, blue: true, alpha: true },
        ]
    );
    assert!(cb.command_pool_state.current_gl_pipeline_info.is_some());

    let mut cb = started();
    cb.cmd_set_stencil_reference_value(3).unwrap();
    let cmds = cb.cmd_bind_pipeline(pipeline(9, true)).unwrap();
    assert_eq!(
        cmds[6..12].to_vec(),
        vec![
            GlCommand::Enable(gles20::STENCIL_TEST),
            GlCommand::StencilMask(0xff),
            GlCommand::StencilFuncSeparate { face: gles20::FRONT, func: gles20::EQUAL, reference: 3, mask: 0xffff_ffff },
            GlCommand::StencilFuncSeparate { face: gles20::BACK, func: gles20::ALWAYS, reference: 3, mask: 0xffff_ffff },
            GlCommand::StencilOpSeparate { face: gles20::FRONT, stencil_fail: gles20::KEEP, depth_fail: gles20::KEEP, pass: gles20::REPLACE },
            GlCommand::StencilOpSeparate { face: gles20::BACK, stencil_fail: gles20::KEEP, depth_fail: gles20::KEEP, pass: gles20::KEEP },
        ]
    );
}

#[test]
fn vertex_buffers_are_pointed_at_on_draw() {
    let mut cb = started();
    cb.cmd_bind_pipeline(pipeline(9, false)).unwrap();
    let cmds = cb.cmd_bind_vertex_buffers(0, &vec![vertex_buffer(30, RafxResourceType::VERTEX_BUFFER)]).unwrap();
    assert_eq!(cmds, vec![GlCommand::EnableVertexAttribArray(0), GlCommand::EnableVertexAttribArray(1)]);
    assert_eq!(cb.command_pool_state.vertex.vertex_attribute_enabled_bits, 3);

    let mut binding = PipelineBindingState::new();
    let draw = cb.cmd_draw(3, 0, &mut binding).unwrap();
    assert_eq!(draw.descriptor_sets, vec![]);
    assert_eq!(
        draw.commands,
        vec![
            GlCommand::BindBuffer { target: gles20::ARRAY_BUFFER, buffer: BufferId(30) },
            GlCommand::VertexAttribPointer { index: 0, size: 3, gl_type: gles20::FLOAT, normalized: false, stride: 20, byte_offset: 100 },
            GlCommand::VertexAttribPointer { index: 1, size: 2, gl_type: gles20::FLOAT, normalized: false, stride: 20, byte_offset: 112 },
            GlCommand::BindBuffer { target: gles20::ARRAY_BUFFER, buffer: BufferId(0) },
            GlCommand::DrawArrays { mode: gles20::TRIANGLES, first: 0, count: 3 },
        ]
    );
    assert_eq!(binding.last_bound_by_command_pool, 3);

    let again = cb.cmd_draw(6, 3, &mut binding).unwrap();
    assert_eq!(again.commands, vec![GlCommand::DrawArrays { mode: gles20::TRIANGLES, first: 3, count: 6 }]);

    let index = RafxIndexBufferBinding {
        buffer: Gles3BufferInfo { buffer_id: Some(BufferId(31)), resource_type: RafxResourceType(RafxResourceType::INDEX_BUFFER) },
        byte_offset: 8,
        index_type: RafxIndexType::Uint16,
    };
    assert_eq!(
        cb.cmd_bind_index_buffer(&index).unwrap(),
        vec![GlCommand::BindBuffer { target: gles20::ELEMENT_ARRAY_BUFFER, buffer: BufferId(31) }]
    );
    assert_eq!(cb.command_pool_state.index_buffer_byte_offset, 8);
    let indexed = cb.cmd_draw_indexed(6, 2, 1, &mut binding).unwrap();
    assert_eq!(
        indexed.commands,
        vec![
            GlCommand::BindBuffer { target: gles20::ARRAY_BUFFER, buffer: BufferId(30) },
            GlCommand::VertexAttribPointer { index: 0, size: 3, gl_type: gles20::FLOAT, normalized: false, stride: 20, byte_offset: 120 },
            GlCommand::VertexAttribPointer { index: 1, size: 2, gl_type: gles20::FLOAT, normalized: false, stride: 20, byte_offset: 132 },
            GlCommand::BindBuffer { target: gles20::ARRAY_BUFFER, buffer: BufferId(0) },
            GlCommand::DrawElements { mode: gles20::TRIANGLES, count: 6, index_type: gles20::UNSIGNED_SHORT, byte_offset: 12 },
        ]
    );
    let same_offset = cb.cmd_draw_indexed(6, 0, 1, &mut binding).unwrap();
    assert_eq!(same_offset.commands.len(), 1);

    let end = cb.end().unwrap();
    assert_eq!(end, vec![GlCommand::DisableVertexAttribArray(0), GlCommand::DisableVertexAttribArray(1)]);
    assert!(!cb.command_pool_state.is_started);
    assert!(cb.command_pool_state.current_gl_pipeline_info.is_none());
    assert_eq!(cb.command_pool_state.index_buffer_byte_offset, 0);
}

#[test]
fn rebinding_a_slot_forgets_its_attributes() {
    let mut cb = started();
    cb.cmd_bind_pipeline(pipeline(9, false)).unwrap();
    cb.cmd_bind_vertex_buffers(0, &vec![vertex_buffer(30, RafxResourceType::VERTEX_BUFFER)]).unwrap();
    assert_eq!(
        cb.cmd_bind_vertex_buffers(0, &vec![vertex_buffer(32, RafxResourceType::UNIFORM_BUFFER)]).err(),
        Some(RafxError::NotAVertexBuffer)
    );
    assert_eq!(cb.command_pool_state.vertex.vertex_attributes[0], None);
    assert_eq!(cb.command_pool_state.vertex.vertex_attributes[1], None);
    let cmds = cb.cmd_bind_vertex_buffers(0, &vec![vertex_buffer(33, RafxResourceType::VERTEX_BUFFER)]).unwrap();
    assert_eq!(cmds, vec![]);
    assert_eq!(cb.command_pool_state.vertex.bound_vertex_buffers[0].unwrap().buffer_id, BufferId(33));
}

#[test]
fn index_buffer_must_be_index_buffer() {
    let mut cb = started();
    let index = RafxIndexBufferBinding {
        buffer: Gles3BufferInfo { buffer_id: Some(BufferId(31)), resource_type: RafxResourceType(RafxResourceType::VERTEX_BUFFER) },
        byte_offset: 8,
        index_type: RafxIndexType::Uint16,
    };
    assert_eq!(cb.cmd_bind_index_buffer(&index).err(), Some(RafxError::NotAnIndexBuffer));
    assert_eq!(cb.command_pool_state.index_buffer_byte_offset, 0);
}

#[test]
fn attribute_arrays_follow_desired_bits() {
    let mut v = VertexBindings::new(4);
    assert_eq!(v.update_vertex_attributes_in_use(0b0101), vec![GlCommand::EnableVertexAttribArray(0), GlCommand::EnableVertexAttribArray(2)]);
    assert_eq!(
        v.update_vertex_attributes_in_use(0b0110),
        vec![GlCommand::DisableVertexAttribArray(0), GlCommand::EnableVertexAttribArray(1)]
    );
    assert_eq!(v.update_vertex_attributes_in_use(0b0110), vec![]);
    assert!(v.vertex_bindings_ready_for(0));
}

fn descriptor_test_root_signature() -> RafxRootSignatureGles3 {
    let sampler_resource = RafxShaderResourceGles {
        resource_type: RafxResourceType(RafxResourceType::SAMPLER),
        set_index: 1,
        binding: 0,
        element_count: 1,
        name: Some("smp".to_string()),
        gles_name: "smp".to_string(),
        gles_sampler_name: None,
        immutable_sampler_index: None,
    };
    let texture_resource = RafxShaderResourceGles {
        resource_type: RafxResourceType(RafxResourceType::TEXTURE),
        set_index: 1,
        binding: 1,
        element_count: 2,
        name: Some("arr".to_string()),
        gles_name: "arr".to_string(),
        gles_sampler_name: Some("smp".to_string()),
        immutable_sampler_index: None,
    };
    let ubo = RafxShaderResourceGles {
        resource_type: RafxResourceType(RafxResourceType::UNIFORM_BUFFER),
        set_index: 0,
        binding: 0,
        element_count: 1,
        name: Some("ubo".to_string()),
        gles_name: "ubo".to_string(),
        gles_sampler_name: None,
        immutable_sampler_index: None,
    };
    let members = vec![
        UniformMember { name: b"ubo.color".to_vec(), offset: 0 },
        UniformMember { name: b"ubo.scale".to_vec(), offset: 16 },
    ];
    let active = vec![
        ActiveUniformInfo { name: b"ubo.color".to_vec(), size: 1, ty: gles20::FLOAT_VEC4 },
        ActiveUniformInfo { name: b"ubo.scale".to_vec(), size: 1, ty: gles20::FLOAT },
    ];
    let refl = UniformReflectionData::new(&members, &active).unwrap();
    RafxRootSignatureGles3::new(
        RafxPipelineType::Graphics,
        &vec![ubo, sampler_resource, texture_resource],
        &vec![],
        refl,
        9,
    )
    .unwrap()
}

fn linear_sampler() -> RafxSamplerGles2 {
    RafxSamplerGles2::new(&RafxSamplerDef {
        min_filter: RafxFilterType::Linear,
        mag_filter: RafxFilterType::Nearest,
        mip_map_mode: RafxMipMapMode::Linear,
        address_mode_u: RafxAddressMode::Repeat,
        address_mode_v: RafxAddressMode::ClampToEdge,
        address_mode_w: RafxAddressMode::Repeat,
        compare_op: RafxCompareOp::Never,
    })
    .unwrap()
}

#[test]
fn bind_descriptor_set_pushes_textures_with_their_sampler() {
    let rs = descriptor_test_root_signature();
    assert_eq!(rs.layouts[1].texture_unit_offset, 0);
    let mut array = RafxDescriptorSetArrayGles2::new(7, &rs, 1, 1).unwrap();
    let mut info = pipeline(9, false);
    info.resource_locations = vec![None, None, Some(LocationId(40))];

    assert!(!descriptor_set_bindable_for(&rs, &info, array.descriptor_set_array_data(), 1, 0));

    let updates = vec![
        RafxDescriptorUpdate {
            array_index: 0,
            descriptor_key: RafxDescriptorKey::Name("arr".to_string()),
            elements: RafxDescriptorElements {
                textures: Some(vec![texture(5, 4, 4), texture(6, 4, 4)]),
                samplers: None,
                buffers: None,
                buffer_offset_sizes: None,
            },
            dst_element_offset: 0,
        },
        RafxDescriptorUpdate {
            array_index: 0,
            descriptor_key: RafxDescriptorKey::Name("smp".to_string()),
            elements: RafxDescriptorElements {
                textures: None,
                samplers: Some(vec![linear_sampler()]),
                buffers: None,
                buffer_offset_sizes: None,
            },
            dst_element_offset: 0,
        },
    ];
    array.update_descriptor_set(&rs, &updates).unwrap();
    assert!(descriptor_set_bindable_for(&rs, &info, array.descriptor_set_array_data(), 1, 0));
    let cmds = do_bind_descriptor_set(&rs, &info, array.descriptor_set_array_data(), 1, 0);
    let target = gles20::TEXTURE_2D;
    assert_eq!(
        cmds,
        vec![
            GlCommand::ActiveTexture(1),
            GlCommand::BindTexture { target, texture: TextureId(6) },
            GlCommand::UniformTextureUnit { location: LocationId(40), unit: 1 },
            GlCommand::TexParameteri { target, pname: gles20::TEXTURE_MIN_FILTER, param: gles20::LINEAR as i32 },
            GlCommand::TexParameteri { target, pname: gles20::TEXTURE_MAG_FILTER, param: gles20::NEAREST as i32 },
            GlCommand::TexParameteri { target, pname: gles20::TEXTURE_WRAP_S, param: gles20::REPEAT as i32 },
            GlCommand::TexParameteri { target, pname: gles20::TEXTURE_WRAP_T, param: gles20::CLAMP_TO_EDGE as i32 },
        ]
    );
    assert!(!descriptor_set_bindable_for(&rs, &info, array.descriptor_set_array_data(), 4, 0));
}

#[test]
fn bind_descriptor_set_pushes_uniform_fields() {
    let rs = descriptor_test_root_signature();
    let mut array = RafxDescriptorSetArrayGles2::new(8, &rs, 0, 2).unwrap();
    let mut info = pipeline(9, false);
    info.uniform_member_locations = vec![Some(LocationId(50)), None];
    let update = RafxDescriptorUpdate {
        array_index: 1,
        descriptor_key: RafxDescriptorKey::Binding(0),
        elements: RafxDescriptorElements {
            textures: None,
            samplers: None,
            buffers: Some(vec![RafxDescriptorBuffer { buffer_id: Some(BufferId(4)), has_contents: true }]),
            buffer_offset_sizes: Some(vec![RafxOffsetSize { byte_offset: 256, size: 32 }]),
        },
        dst_element_offset: 0,
    };
    array.queue_descriptor_set_update(&rs, &update).unwrap();
    assert!(!descriptor_set_bindable_for(&rs, &info, array.descriptor_set_array_data(), 0, 0));
    assert!(descriptor_set_bindable_for(&rs, &info, array.descriptor_set_array_data(), 0, 1));
    let cmds = do_bind_descriptor_set(&rs, &info, array.descriptor_set_array_data(), 0, 1);
    assert_eq!(
        cmds,
        vec![GlCommand::UniformFromBuffer {
            location: LocationId(50),
            gl_type: gles20::FLOAT_VEC4,
            element_count: 1,
            buffer_state_index: 1,
            buffer_offset: 256,
            field_offset: 0,
        }]
    );
}

#[test]
fn descriptor_sets_are_pushed_once_per_change() {
    let rs = descriptor_test_root_signature();
    let array = RafxDescriptorSetArrayGles2::new(7, &rs, 1, 2).unwrap();
    let mut cb = started();
    cb.cmd_bind_pipeline(pipeline(9, false)).unwrap();
    cb.cmd_bind_descriptor_set(&array, 1).unwrap();
    assert_eq!(cb.command_pool_state.descriptor_sets.descriptor_sets_update_index, vec![0, 1, 0, 0]);
    let mut binding = PipelineBindingState::new();
    let first = cb.cmd_draw(3, 0, &mut binding).unwrap();
    assert_eq!(
        first.descriptor_sets,
        vec![PendingDescriptorSet {
            set_index: 1,
            descriptor_set: BoundDescriptorSet { descriptor_set_array_id: 7, array_index: 1 },
        }]
    );
    assert_eq!(binding.last_descriptor_updates, vec![0, 1, 0, 0]);
    let second = cb.cmd_draw(3, 0, &mut binding).unwrap();
    assert_eq!(second.descriptor_sets, vec![]);

    let handle = array.handle(0).unwrap();
    cb.cmd_bind_descriptor_set_handle(9, 1, &handle).unwrap();
    let third = cb.cmd_draw(3, 0, &mut binding).unwrap();
    assert_eq!(third.descriptor_sets[0].descriptor_set.array_index, 0);

    cb.cmd_bind_descriptor_set_handle(5, 2, &handle).unwrap();
    assert_eq!(cb.command_pool_state.descriptor_sets.bound_descriptor_sets_root_signature, Some(5));
    assert_eq!(cb.command_pool_state.descriptor_sets.bound_descriptor_sets[1], None);
    let other_root = cb.cmd_draw(3, 0, &mut binding).unwrap();
    assert_eq!(other_root.descriptor_sets, vec![]);
}

#[test]
fn another_pool_makes_the_program_take_sets_again() {
    let mut ds = DescriptorSetBindings::new();
    ds.set_current_descriptor_set(9, 0, BoundDescriptorSet { descriptor_set_array_id: 1, array_index: 0 });
    let mut binding = PipelineBindingState::new();
    assert_eq!(ensure_pipeline_bindings_up_to_date(&ds, 3, 9, &mut binding).len(), 1);
    assert_eq!(ensure_pipeline_bindings_up_to_date(&ds, 3, 9, &mut binding).len(), 0);
    assert_eq!(ensure_pipeline_bindings_up_to_date(&ds, 4, 9, &mut binding).len(), 1);
    assert_eq!(binding.last_bound_by_command_pool, 4);
    assert_eq!(ensure_pipeline_bindings_up_to_date(&ds, 4, 8, &mut binding).len(), 0);
    ds.clear_bindings();
    assert_eq!(ds.descriptor_sets_update_index, vec![2, 1, 1, 1]);
    assert_eq!(ensure_pipeline_bindings_up_to_date(&ds, 4, 9, &mut binding).len(), 0);
}

#[test]
fn resource_barriers_record_nothing() {
    let cb = started();
    let none: [u32; 0] = [];
    assert_eq!(cb.cmd_resource_barrier(&none, &none).unwrap(), ());
}

fn staging_buffer(bytes: &[u8]) -> RafxBufferGles3 {
    let def = RafxBufferDef {
        size: bytes.len() as u64,
        memory_usage: RafxMemoryUsage::CpuOnly,
        resource_type: RafxResourceType(RafxResourceType::BUFFER),
    };
    let (mut b, _) = RafxBufferGles3::new(&def, 16, None);
    b.copy_to_host_visible_buffer(bytes).unwrap();
    b.finish_unmap_buffer();
    b
}

#[test]
fn copy_buffer_to_buffer_uploads_from_the_source_copy() {
    let cb = started();
    let src = staging_buffer(&[1, 2, 3, 4, 5, 6, 7, 8]);
    let def = RafxBufferDef {
        size: 16,
        memory_usage: RafxMemoryUsage::GpuOnly,
        resource_type: RafxResourceType(RafxResourceType::VERTEX_BUFFER),
    };
    let (dst, _) = RafxBufferGles3::new(&def, 16, Some(BufferId(9)));
    let cmds = cb.cmd_copy_buffer_to_buffer(&src, &dst, 2, 4, 6).unwrap();
    assert_eq!(
        cmds,
        vec![
            GlCommand::BindBuffer { target: gles20::ARRAY_BUFFER, buffer: BufferId(9) },
            GlCommand::BufferSubData { target: gles20::ARRAY_BUFFER, dst_offset: 4, src_offset: 2, size: 6 },
            GlCommand::BindBuffer { target: gles20::ARRAY_BUFFER, buffer: BufferId(0) },
        ]
    );
}

#[test]
fn copy_buffer_to_texture_fills_one_mip_level() {
    let cb = started();
    let src = staging_buffer(&[0; 64]);
    let dst = texture(7, 64, 4);
    let params = RafxCmdCopyBufferToTextureParams { buffer_offset: 16, array_layer: 0, mip_level: 3 };
    let cmds = cb.cmd_copy_buffer_to_texture(&src, &dst, &params).unwrap();
    assert_eq!(
        cmds,
        vec![
            GlCommand::BindTexture { target: gles20::TEXTURE_2D, texture: TextureId(7) },
            GlCommand::TexImage2D {
                target: gles20::TEXTURE_2D,
                mip_level: 3,
                internal_format: 0x1908,
                width: 8,
                height: 1,
                format: 0x1908,
                gl_type: 0x1401,
                src_offset: Some(16),
            },
            GlCommand::BindTexture { target: gles20::TEXTURE_2D, texture: TextureId(0) },
        ]
    );
}

#[test]
fn copy_buffer_to_cube_map_face() {
    let cb = started();
    let src = staging_buffer(&[0; 4]);
    let mut dst = texture(8, 16, 16);
    dst.gl_target = gles20::TEXTURE_CUBE_MAP;
    let params = RafxCmdCopyBufferToTextureParams { buffer_offset: 0, array_layer: 3, mip_level: 0 };
    let cmds = cb.cmd_copy_buffer_to_texture(&src, &dst, &params).unwrap();
    assert_eq!(cmds[0], GlCommand::BindTexture { target: gles20::TEXTURE_CUBE_MAP, texture: TextureId(8) });
    match cmds[1] {
        GlCommand::TexImage2D { target, width, height, .. } => {
            assert_eq!(target, gles20::TEXTURE_CUBE_MAP_NEGATIVE_Y);
            assert_eq!((width, height), (16, 16));
        }
        _ => panic!("expected a texture upload"),
    }
}

#[test]
fn copy_from_a_buffer_without_cpu_copy_is_refused() {
    let cb = started();
    let def = RafxBufferDef {
        size: 16,
        memory_usage: RafxMemoryUsage::GpuOnly,
        resource_type: RafxResourceType(RafxResourceType::VERTEX_BUFFER),
    };
    let (gpu_only, _) = RafxBufferGles3::new(&def, 16, Some(BufferId(9)));
    let params = RafxCmdCopyBufferToTextureParams { buffer_offset: 0, array_layer: 0, mip_level: 0 };
    assert_eq!(
        cb.cmd_copy_buffer_to_texture(&gpu_only, &texture(7, 4, 4), &params),
        Err(RafxError::BufferNotCpuVisible)
    );
}
