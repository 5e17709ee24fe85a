use rafx_api::conversions::{Gles2BlendState, Gles2DepthStencilState, Gles2RasterizerState};
use rafx_api::pipeline::{
    pipeline_states, pipeline_vertex_attributes, Gles3Attribute, RafxVertexAttributeRate, RafxVertexLayoutAttribute,
    RafxVertexLayoutBuffer,
};
use rafx_api::gles20;
use rafx_api::types::{
    RafxAddressMode, RafxBlendFactor, RafxBlendOp, RafxBlendState, RafxBlendStateRenderTarget,
    RafxColorFlags, RafxCompareOp, RafxCullMode, RafxDepthState, RafxError, RafxFillMode,
    RafxFilterType, RafxFrontFace, RafxMemoryUsage, RafxPrimitiveTopology, RafxRasterizerState,
    RafxStencilOp,
};

fn blend_target(op: RafxBlendOp) -> RafxBlendStateRenderTarget {
    RafxBlendStateRenderTarget {
        src_factor: RafxBlendFactor::SrcAlpha,
        dst_factor: RafxBlendFactor::OneMinusSrcAlpha,
        src_factor_alpha: RafxBlendFactor::One,
        dst_factor_alpha: RafxBlendFactor::Zero,
        blend_op: op,
        blend_op_alpha: RafxBlendOp::Subtract,
        masks: RafxColorFlags(RafxColorFlags::ALL),
    }
}

#[test]
fn filter_and_address_modes() {
    assert_eq!(RafxFilterType::Nearest.gles2_filter_type(), gles20::NEAREST);
    assert_eq!(RafxFilterType::Linear.gles2_filter_type(), 0x2601);
    assert_eq!(RafxAddressMode::Mirror.gles2_address_mode(), Some(0x8370));
    assert_eq!(RafxAddressMode::Repeat.gles2_address_mode(), Some(0x2901));
    assert_eq!(RafxAddressMode::ClampToEdge.gles2_address_mode(), Some(0x812F));
    assert_eq!(RafxAddressMode::ClampToBorder.gles2_address_mode(), None);
}

#[test]
fn topologies_and_usages() {
    assert_eq!(RafxPrimitiveTopology::PointList.gles2_topology(), Some(0));
    assert_eq!(RafxPrimitiveTopology::LineList.gles2_topology(), Some(1));
    assert_eq!(RafxPrimitiveTopology::LineStrip.gles2_topology(), Some(3));
    assert_eq!(RafxPrimitiveTopology::TriangleList.gles2_topology(), Some(4));
    assert_eq!(RafxPrimitiveTopology::TriangleStrip.gles2_topology(), Some(5));
    assert_eq!(RafxPrimitiveTopology::PatchList.gles2_topology(), None);
    assert_eq!(RafxMemoryUsage::Unknown.gles2_usage(), None);
    assert_eq!(RafxMemoryUsage::GpuOnly.gles2_usage(), Some(0x88E4));
    assert_eq!(RafxMemoryUsage::CpuOnly.gles2_usage(), Some(0));
    assert_eq!(RafxMemoryUsage::CpuToGpu.gles2_usage(), Some(0x88E8));
    assert_eq!(RafxMemoryUsage::GpuToCpu.gles2_usage(), Some(0x88E0));
}

#[test]
fn cull_front_compare_stencil() {
    assert_eq!(RafxCullMode::NoCull.gles2_cull_mode(), 0);
    assert_eq!(RafxCullMode::Back.gles2_cull_mode(), 0x0405);
    assert_eq!(RafxCullMode::Front.gles2_cull_mode(), 0x0404);
    assert_eq!(RafxFrontFace::CounterClockwise.gles2_front_face(), 0x0901);
    assert_eq!(RafxFrontFace::Clockwise.gles2_front_face(), 0x0900);
    assert_eq!(RafxCompareOp::Never.gles2_compare_op(), 0x0200);
    assert_eq!(RafxCompareOp::LessOrEqual.gles2_compare_op(), 0x0203);
    assert_eq!(RafxCompareOp::GreaterOrEqual.gles2_compare_op(), 0x0206);
    assert_eq!(RafxCompareOp::Always.gles2_compare_op(), 0x0207);
    assert_eq!(RafxStencilOp::Keep.gles2_stencil_op(), 0x1E00);
    assert_eq!(RafxStencilOp::Zero.gles2_stencil_op(), 0);
    assert_eq!(RafxStencilOp::Invert.gles2_stencil_op(), 0x150A);
    assert_eq!(RafxStencilOp::IncrementAndWrap.gles2_stencil_op(), 0x8507);
    // A wrapping decrement is sent to GL as a wrapping increment.
    assert_eq!(RafxStencilOp::DecrementAndWrap.gles2_stencil_op(), 0x8507);
}

#[test]
fn blend_factors_and_ops() {
    assert_eq!(RafxBlendFactor::Zero.gles2_blend_factor(), 0);
    assert_eq!(RafxBlendFactor::One.gles2_blend_factor(), 1);
    assert_eq!(RafxBlendFactor::SrcAlphaSaturate.gles2_blend_factor(), 0x0308);
    assert_eq!(RafxBlendFactor::OneMinusConstantColor.gles2_blend_factor(), 0x8002);
    assert_eq!(RafxBlendOp::Add.gles2_blend_op(), Some(0x8006));
    assert_eq!(RafxBlendOp::ReverseSubtract.gles2_blend_op(), Some(0x800B));
    assert_eq!(RafxBlendOp::Min.gles2_blend_op(), None);
    assert_eq!(RafxBlendOp::Max.gles2_blend_op(), None);
}

#[test]
fn blend_state_uses_first_target_and_color_op_for_alpha() {
    let state = RafxBlendState {
        render_target_blend_states: vec![blend_target(RafxBlendOp::Add), blend_target(RafxBlendOp::Min)],
        independent_blend: false,
    };
    let b: Gles2BlendState = state.gles2_blend_state().unwrap();
    assert!(b.enabled);
    assert_eq!(b.src_factor, gles20::SRC_ALPHA);
    assert_eq!(b.dst_factor, gles20::ONE_MINUS_SRC_ALPHA);
    assert_eq!(b.src_factor_alpha, 1);
    assert_eq!(b.dst_factor_alpha, 0);
    assert_eq!(b.blend_op, gles20::FUNC_ADD);
    assert_eq!(b.blend_op_alpha, gles20::FUNC_ADD);
}

#[test]
fn blend_state_disabled_for_replace() {
    let mut t = blend_target(RafxBlendOp::Add);
    t.src_factor = RafxBlendFactor::One;
    t.dst_factor = RafxBlendFactor::Zero;
    let state = RafxBlendState { render_target_blend_states: vec![t], independent_blend: false };
    assert!(!state.gles2_blend_state().unwrap().enabled);
}

#[test]
fn blend_state_errors() {
    let independent = RafxBlendState {
        render_target_blend_states: vec![blend_target(RafxBlendOp::Add)],
        independent_blend: true,
    };
    assert_eq!(independent.gles2_blend_state().err(), Some(RafxError::IndependentBlendNotSupported));
    let empty = RafxBlendState { render_target_blend_states: vec![], independent_blend: false };
    assert_eq!(empty.gles2_blend_state().err(), Some(RafxError::NoRenderTargetBlendStates));
    let max = RafxBlendState {
        render_target_blend_states: vec![blend_target(RafxBlendOp::Max)],
        independent_blend: false,
    };
    assert_eq!(max.gles2_blend_state().err(), Some(RafxError::BlendOpNotSupported(RafxBlendOp::Max)));
}

#[test]
fn rasterizer_and_depth_states() {
    let r = RafxRasterizerState {
        cull_mode: RafxCullMode::Back,
        front_face: RafxFrontFace::Clockwise,
        fill_mode: RafxFillMode::Solid,
        depth_bias: 0,
        depth_clamp_enable: false,
        multisample: false,
        scissor: true,
    };
    let g = Gles2RasterizerState::from(&r);
    assert_eq!(g.cull_mode, gles20::BACK);
    assert_eq!(g.front_face, gles20::CW);
    assert!(g.scissor_test);
    let d = RafxDepthState {
        depth_test_enable: true,
        depth_write_enable: false,
        depth_compare_op: RafxCompareOp::Less,
        stencil_test_enable: true,
        stencil_read_mask: 0xff,
        stencil_write_mask: 0x0f,
        front_depth_fail_op: RafxStencilOp::Keep,
        front_stencil_compare_op: RafxCompareOp::Equal,
        front_stencil_fail_op: RafxStencilOp::Zero,
        front_stencil_pass_op: RafxStencilOp::Replace,
        back_depth_fail_op: RafxStencilOp::Invert,
        back_stencil_compare_op: RafxCompareOp::NotEqual,
        back_stencil_fail_op: RafxStencilOp::IncrementAndClamp,
        back_stencil_pass_op: RafxStencilOp::DecrementAndClamp,
    };
    let g = Gles2DepthStencilState::from(&d);
    assert!(g.depth_test_enable);
    assert!(!g.depth_write_enable);
    assert_eq!(g.depth_compare_op, gles20::LESS);
    assert_eq!(g.stencil_write_mask, 0x0f);
    assert_eq!(g.front_stencil_compare_op, gles20::EQUAL);
    assert_eq!(g.front_stencil_fail_op, gles20::ZERO);
    assert_eq!(g.front_stencil_pass_op, gles20::REPLACE);
    assert_eq!(g.back_depth_fail_op, gles20::INVERT);
    assert_eq!(g.back_stencil_compare_op, gles20::NOTEQUAL);
    assert_eq!(g.back_stencil_fail_op, gles20::INCR);
    assert_eq!(g.back_stencil_pass_op, gles20::DECR);
}

fn layout_attribute(buffer_index: u32, location: u32, format_gl_type: Option<u32>) -> RafxVertexLayoutAttribute {
    RafxVertexLayoutAttribute {
        buffer_index,
        location,
        byte_offset: 12,
        format_gl_type,
        channel_count: 3,
        is_normalized: false,
    }
}

#[test]
fn pipeline_attributes_read_their_buffers() {
    let buffers = vec![
        RafxVertexLayoutBuffer { stride: 24, rate: RafxVertexAttributeRate::Vertex },
        RafxVertexLayoutBuffer { stride: 16, rate: RafxVertexAttributeRate::Instance },
    ];
    let attributes = vec![layout_attribute(0, 0, Some(gles20::FLOAT)), layout_attribute(1, 3, Some(gles20::FLOAT))];
    let gl = pipeline_vertex_attributes(&attributes, &buffers, 8).unwrap();
    assert_eq!(
        gl[1],
        Gles3Attribute {
            buffer_index: 1,
            location: 3,
            channel_count: 3,
            gl_type: gles20::FLOAT,
            stride: 16,
            divisor: 1,
            is_normalized: false,
            byte_offset: 12,
        }
    );
    assert_eq!(gl[0].divisor, 0);
    assert_eq!(gl[0].stride, 24);
}

#[test]
fn pipeline_attributes_refuse_the_first_bad_attribute() {
    let buffers = vec![RafxVertexLayoutBuffer { stride: 24, rate: RafxVertexAttributeRate::Vertex }];
    let far = vec![layout_attribute(0, 0, Some(gles20::FLOAT)), layout_attribute(0, 8, None)];
    assert_eq!(
        pipeline_vertex_attributes(&far, &buffers, 8).err(),
        Some(RafxError::VertexAttributeLocationOutOfRange(8, 8))
    );
    let unsupported = vec![layout_attribute(0, 1, None), layout_attribute(0, 9, Some(gles20::FLOAT))];
    assert_eq!(pipeline_vertex_attributes(&unsupported, &buffers, 8).err(), Some(RafxError::VertexFormatNotSupported));
    // A refused attribute is reported before a later one that reads a missing buffer.
    let later_missing_buffer = vec![layout_attribute(0, 9, None), layout_attribute(5, 0, Some(gles20::FLOAT))];
    assert!(pipeline_vertex_attributes(&later_missing_buffer, &buffers, 8).is_err());
}

#[test]
fn pipeline_states_flip_the_front_face() {
    let r = RafxRasterizerState {
        cull_mode: RafxCullMode::Back,
        front_face: RafxFrontFace::CounterClockwise,
        fill_mode: RafxFillMode::Solid,
        depth_bias: 0,
        depth_clamp_enable: false,
        multisample: false,
        scissor: false,
    };
    let d = RafxDepthState {
        depth_test_enable: true,
        depth_write_enable: true,
        depth_compare_op: RafxCompareOp::LessOrEqual,
        stencil_test_enable: false,
        stencil_read_mask: 0xff,
        stencil_write_mask: 0xff,
        front_depth_fail_op: RafxStencilOp::Keep,
        front_stencil_compare_op: RafxCompareOp::Always,
        front_stencil_fail_op: RafxStencilOp::Keep,
        front_stencil_pass_op: RafxStencilOp::Keep,
        back_depth_fail_op: RafxStencilOp::Keep,
        back_stencil_compare_op: RafxCompareOp::Always,
        back_stencil_fail_op: RafxStencilOp::Keep,
        back_stencil_pass_op: RafxStencilOp::Keep,
    };
    let b = RafxBlendState { render_target_blend_states: vec![blend_target(RafxBlendOp::Add)], independent_blend: false };
    let s = pipeline_states(&r, &d, &b, RafxPrimitiveTopology::TriangleList).unwrap();
    assert_eq!(s.gl_rasterizer_state.front_face, gles20::CW);
    assert_eq!(s.gl_rasterizer_state.cull_mode, gles20::BACK);
    assert_eq!(s.gl_topology, gles20::TRIANGLES);
    assert_eq!(s.gl_depth_stencil_state.depth_compare_op, gles20::LEQUAL);
    assert_eq!(s.gl_blend_state.blend_op, gles20::FUNC_ADD);

    let no_blend = RafxBlendState { render_target_blend_states: vec![], independent_blend: false };
    assert_eq!(
        pipeline_states(&r, &d, &no_blend, RafxPrimitiveTopology::TriangleList).err(),
        Some(RafxError::NoRenderTargetBlendStates)
    );
    assert_eq!(
        pipeline_states(&r, &d, &no_blend, RafxPrimitiveTopology::PatchList).err(),
        Some(RafxError::TopologyNotSupported(RafxPrimitiveTopology::PatchList))
    );
}
