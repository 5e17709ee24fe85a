use rafx_api::pipeline::RafxPipelineGl;
use rafx_api::descriptor_set_array::{
    RafxDescriptorBuffer, RafxDescriptorElements, RafxDescriptorKey, RafxDescriptorSetArrayGles2,
    RafxDescriptorSetHandleGles2, RafxDescriptorUpdate, RafxOffsetSize,
};
use rafx_api::gl_context::{ActiveUniformInfo, BufferId, TextureId};
use rafx_api::gles20;
use rafx_api::reflection::{UniformIndex, UniformMember, UniformReflectionData};
use rafx_api::root_signature::{
    LocationName,
    resources_valid_for, RafxRootSignatureGles3, RafxSamplerIndexGles3, RafxShaderResourceGles,
};
use rafx_api::root_signature_gles2::{resources_reachable_valid_for, RafxRootSignatureGles2};
use rafx_api::sampler::RafxSamplerGles2;
use rafx_api::texture::{Gles3TextureInfo, GlTextureFormatInfo, RafxRawImageGles3};
use rafx_api::types::{
    RafxAddressMode, RafxCompareOp, RafxDescriptorIndex, RafxError, RafxExtents3D, RafxFilterType,
    RafxMipMapMode, RafxPipelineType, RafxResourceType, RafxSamplerDef,
};

const SAMPLER_2D: u32 = 0x8B5E;

fn member(name: &str, offset: u32) -> UniformMember {
    UniformMember { name: name.as_bytes().to_vec(), offset }
}

fn active(name: &str, size: u32, ty: u32) -> ActiveUniformInfo {
    ActiveUniformInfo { name: name.as_bytes().to_vec(), size, ty }
}

fn reflection() -> UniformReflectionData {
    let members = vec![member("ubo.color", 0), member("ubo.scale", 16), member("tex", 0)];
    let uniforms = vec![
        active("ubo.color", 1, gles20::FLOAT_VEC4),
        active("tex", 1, SAMPLER_2D),
        active("ubo.scale", 1, gles20::FLOAT),
    ];
    UniformReflectionData::new(&members, &uniforms).unwrap()
}

fn resource(
    resource_type: u32,
    set_index: u32,
    binding: u32,
    element_count: u32,
    name: &str,
    sampler: Option<&str>,
    immutable_sampler_index: Option<usize>,
) -> RafxShaderResourceGles {
    RafxShaderResourceGles {
        resource_type: RafxResourceType(resource_type),
        set_index,
        binding,
        element_count,
        name: Some(name.to_string()),
        gles_name: name.to_string(),
        gles_sampler_name: sampler.map(|s| s.to_string()),
        immutable_sampler_index,
    }
}

fn sampler() -> RafxSamplerGles2 {
    RafxSamplerGles2::new(&RafxSamplerDef {
        min_filter: RafxFilterType::Linear,
        mag_filter: RafxFilterType::Linear,
        mip_map_mode: RafxMipMapMode::Linear,
        address_mode_u: RafxAddressMode::Repeat,
        address_mode_v: RafxAddressMode::Repeat,
        address_mode_w: RafxAddressMode::Repeat,
        compare_op: RafxCompareOp::Never,
    })
    .unwrap()
}

fn resources() -> Vec<RafxShaderResourceGles> {
    vec![
        resource(RafxResourceType::UNIFORM_BUFFER, 0, 0, 1, "ubo", None, None),
        resource(RafxResourceType::TEXTURE, 0, 1, 1, "tex", Some("smp"), None),
        resource(RafxResourceType::SAMPLER, 1, 0, 1, "smp", None, None),
        resource(RafxResourceType::TEXTURE, 1, 1, 2, "arr", Some("smp"), None),
    ]
}

fn root_signature() -> RafxRootSignatureGles3 {
    RafxRootSignatureGles3::new(RafxPipelineType::Graphics, &resources(), &vec![], reflection(), 9)
        .unwrap()
}

fn texture(id: u32) -> Gles3TextureInfo {
    Gles3TextureInfo {
        image: RafxRawImageGles3::Texture(TextureId(id)),
        gl_target: gles20::TEXTURE_2D,
        extents: RafxExtents3D { width: 4, height: 4, depth: 1 },
        mip_count: 1,
        format_info: GlTextureFormatInfo { gl_internal_format: 0x1908, gl_format: 0x1908, gl_type: 0x1401 },
    }
}

fn update(array_index: u32, key: RafxDescriptorKey, elements: RafxDescriptorElements) -> RafxDescriptorUpdate {
    RafxDescriptorUpdate { array_index, descriptor_key: key, elements, dst_element_offset: 0 }
}

fn textures(v: Vec<Gles3TextureInfo>) -> RafxDescriptorElements {
    RafxDescriptorElements { textures: Some(v), samplers: None, buffers: None, buffer_offset_sizes: None }
}

#[test]
fn reflection_groups_fields_by_uniform() {
    let data = reflection();
    assert_eq!(data.uniforms_len(), 2);
    assert_eq!(data.uniform_index("ubo"), Some(UniformIndex(0)));
    assert_eq!(data.uniform_index("tex"), Some(UniformIndex(1)));
    assert_eq!(data.uniform_index("missing"), None);
    assert_eq!(data.uniform_field_range(UniformIndex(0)), (0, 2));
    assert_eq!(data.uniform_field_range(UniformIndex(1)), (2, 3));
    let fields = data.uniform_fields(UniformIndex(0));
    assert_eq!(fields.len(), 2);
    assert_eq!(fields[0].name, b"ubo.color".to_vec());
    assert_eq!(fields[0].offset, 0);
    assert_eq!(fields[0].ty, gles20::FLOAT_VEC4);
    assert_eq!(fields[1].name, b"ubo.scale".to_vec());
    assert_eq!(fields[1].offset, 16);
    assert_eq!(fields[1].field_index.0, 1);
    let all = data.fields();
    assert_eq!(all.len(), 3);
    assert_eq!(all[2].name, b"tex".to_vec());
    assert_eq!(all[2].element_count, 1);
}

#[test]
fn reflection_keeps_uniforms_reported_by_two_programs() {
    let members = vec![member("a.x", 4)];
    let uniforms = vec![active("a.x", 1, gles20::FLOAT), active("a.x", 1, gles20::FLOAT)];
    let data = UniformReflectionData::new(&members, &uniforms).unwrap();
    assert_eq!(data.uniforms_len(), 1);
    assert_eq!(data.uniform_field_range(UniformIndex(0)), (0, 2));
    assert_eq!(data.fields()[1].offset, 4);
}

#[test]
fn reflection_errors() {
    let members = vec![member("a.x", 0), member("a.x", 8)];
    assert_eq!(
        UniformReflectionData::new(&members, &vec![]).err(),
        Some(RafxError::UniformMemberOffsetMismatch(8, 0))
    );
    let members = vec![member("a.x", 0), member("a.x", 0)];
    assert!(UniformReflectionData::new(&members, &vec![]).is_ok());
    let members = vec![member("a.x", 0)];
    let uniforms = vec![active("a.x", 1, gles20::FLOAT), active("a.y", 1, gles20::FLOAT)];
    assert_eq!(
        UniformReflectionData::new(&members, &uniforms).err(),
        Some(RafxError::UniformMemberNotFound)
    );
    let empty = UniformReflectionData::new(&vec![], &vec![]).unwrap();
    assert_eq!(empty.uniforms_len(), 0);
    assert_eq!(empty.fields().len(), 0);
}

#[test]
fn root_signature_lays_out_descriptors() {
    let rs = root_signature();
    assert_eq!(rs.pipeline_type(), RafxPipelineType::Graphics);
    assert_eq!(rs.root_signature_id, 9);
    assert_eq!(rs.descriptors.len(), 4);

    let ubo = rs.descriptor(RafxDescriptorIndex(0)).unwrap();
    assert_eq!(ubo.uniform_block_binding, Some(0));
    assert_eq!(ubo.uniform_index, Some(UniformIndex(0)));
    assert_eq!(ubo.descriptor_data_offset_in_set, Some(0));
    assert_eq!(ubo.first_location_index, Some(0));
    assert_eq!(ubo.sampler_descriptor_index, None);

    let tex = rs.descriptor(RafxDescriptorIndex(1)).unwrap();
    assert_eq!(tex.descriptor_data_offset_in_set, Some(0));
    assert_eq!(tex.first_location_index, Some(1));
    assert_eq!(tex.uniform_block_binding, None);
    assert_eq!(
        tex.sampler_descriptor_index,
        Some(RafxSamplerIndexGles3::Mutable(RafxDescriptorIndex(2)))
    );

    let smp = rs.descriptor(RafxDescriptorIndex(2)).unwrap();
    assert_eq!(smp.set_index, 1);
    assert_eq!(smp.first_location_index, None);
    assert_eq!(smp.descriptor_data_offset_in_set, Some(0));

    let arr = rs.descriptor(RafxDescriptorIndex(3)).unwrap();
    assert_eq!(arr.element_count, 2);
    assert_eq!(arr.first_location_index, Some(2));
    assert!(rs.descriptor(RafxDescriptorIndex(4)).is_none());

    assert_eq!(rs.location_names.len(), 4);
    assert_eq!(rs.location_names[0].base, "ubo");
    assert_eq!(rs.location_names[0].element, None);
    assert_eq!(rs.location_names[2].base, "arr");
    assert_eq!(rs.location_names[2].element, Some(0));
    assert_eq!(rs.location_names[3].element, Some(1));

    assert_eq!(rs.layouts.len(), 4);
    assert_eq!(rs.layouts[0].texture_descriptor_state_count, 1);
    assert_eq!(rs.layouts[0].buffer_descriptor_state_count, 1);
    assert_eq!(rs.layouts[1].texture_descriptor_state_count, 2);
    assert_eq!(rs.layouts[1].sampler_descriptor_state_count, 1);
    assert_eq!(rs.layouts[0].texture_unit_offset, 0);
    assert_eq!(rs.layouts[1].texture_unit_offset, 1);
    assert_eq!(rs.layouts[2].texture_unit_offset, 3);
    assert_eq!(rs.layouts[3].texture_unit_offset, 3);
    assert_eq!(rs.uniform_block_descriptors, vec![RafxDescriptorIndex(0)]);
    assert_eq!(rs.uniform_block_binding(RafxDescriptorIndex(0)), Some(0));
}

#[test]
fn root_signature_lookups() {
    let rs = root_signature();
    assert_eq!(rs.find_descriptor_by_name("smp"), Some(RafxDescriptorIndex(2)));
    assert_eq!(rs.find_descriptor_by_name("arr"), Some(RafxDescriptorIndex(3)));
    assert_eq!(rs.find_descriptor_by_name("nothing"), None);
    assert_eq!(rs.find_descriptor_by_binding(1, 1), Some(RafxDescriptorIndex(3)));
    assert_eq!(rs.find_descriptor_by_binding(0, 0), Some(RafxDescriptorIndex(0)));
    assert_eq!(rs.find_descriptor_by_binding(0, 7), None);
    assert_eq!(rs.find_descriptor_by_binding(5, 0), None);
    for name in ["ubo", "tex", "smp", "arr"] {
        let d = rs.descriptor(rs.find_descriptor_by_name(name).unwrap()).unwrap();
        assert_eq!(d.name.as_deref(), Some(name));
    }
    for (set, binding) in [(0u32, 0u32), (0, 1), (1, 0), (1, 1)] {
        let d = rs.descriptor(rs.find_descriptor_by_binding(set, binding).unwrap()).unwrap();
        assert_eq!((d.set_index, d.binding), (set, binding));
    }
}

#[test]
fn texture_units_differ_across_sets() {
    let rs = root_signature();
    let tex = rs.descriptor(RafxDescriptorIndex(1)).unwrap();
    let arr = rs.descriptor(RafxDescriptorIndex(3)).unwrap();
    let unit = |set: usize, offset: u32, i: u32| rs.layouts[set].texture_unit_offset + offset + i;
    let units = vec![
        unit(0, tex.descriptor_data_offset_in_set.unwrap(), 0),
        unit(1, arr.descriptor_data_offset_in_set.unwrap(), 0),
        unit(1, arr.descriptor_data_offset_in_set.unwrap(), 1),
    ];
    assert_eq!(units, vec![0, 1, 2]);
}

#[test]
fn root_signature_immutable_samplers() {
    let resources = vec![
        resource(RafxResourceType::SAMPLER, 0, 0, 1, "fixed", None, Some(0)),
        resource(RafxResourceType::TEXTURE, 0, 1, 1, "tex", Some("fixed"), None),
    ];
    let immutable = vec![vec![sampler()]];
    let rs = RafxRootSignatureGles3::new(
        RafxPipelineType::Graphics,
        &resources,
        &immutable,
        UniformReflectionData::new(&vec![], &vec![]).unwrap(),
        1,
    )
    .unwrap();
    assert_eq!(rs.immutable_samplers.len(), 1);
    assert_eq!(rs.descriptors.len(), 1);
    assert_eq!(rs.layouts[0].sampler_descriptor_state_count, 1);
    assert_eq!(rs.layouts[0].descriptors, vec![RafxDescriptorIndex(0)]);
    assert_eq!(
        rs.descriptors[0].sampler_descriptor_index,
        Some(RafxSamplerIndexGles3::Immutable(0))
    );
    assert_eq!(rs.find_descriptor_by_name("fixed"), None);
}

#[test]
fn root_signature_errors() {
    let empty = || UniformReflectionData::new(&vec![], &vec![]).unwrap();
    let r = vec![resource(RafxResourceType::BUFFER, 0, 0, 1, "b", None, None)];
    assert_eq!(
        RafxRootSignatureGles3::new(RafxPipelineType::Graphics, &r, &vec![], empty(), 0).err(),
        Some(RafxError::ResourceTypeNotSupported(RafxResourceType(RafxResourceType::BUFFER)))
    );
    let r = vec![resource(RafxResourceType::SAMPLER, 0, 0, 2, "s", None, Some(0))];
    assert_eq!(
        RafxRootSignatureGles3::new(RafxPipelineType::Graphics, &r, &vec![vec![sampler()]], empty(), 0)
            .err(),
        Some(RafxError::ImmutableSamplerCountMismatch(2, 1))
    );
    let r = vec![
        resource(RafxResourceType::SAMPLER, 0, 0, 1, "s", None, None),
        resource(RafxResourceType::SAMPLER, 1, 0, 1, "s", None, None),
    ];
    assert_eq!(
        RafxRootSignatureGles3::new(RafxPipelineType::Graphics, &r, &vec![], empty(), 0).err(),
        Some(RafxError::DuplicateSamplerName)
    );
}

#[test]
fn descriptor_set_array_handles() {
    let rs = root_signature();
    let array = RafxDescriptorSetArrayGles2::new(7, &rs, 1, 2).unwrap();
    assert_eq!(array.set_index(), 1);
    assert_eq!(array.root_signature_id, 9);
    let data = array.descriptor_set_array_data();
    assert_eq!(data.texture_states.len(), 4);
    assert_eq!(data.sampler_states.len(), 2);
    assert_eq!(data.buffer_states.len(), 0);
    assert!(data.texture_states.iter().all(|s| s.is_none()));
    assert_eq!(
        array.handle(1),
        Some(RafxDescriptorSetHandleGles2 { descriptor_set_array_id: 7, array_index: 1 })
    );
    assert_eq!(array.handle(1).unwrap().array_index(), 1);
    assert_eq!(array.handle(2), None);
}

#[test]
fn descriptor_updates_read_back() {
    let rs = root_signature();
    let mut array = RafxDescriptorSetArrayGles2::new(7, &rs, 1, 2).unwrap();
    let updates = vec![
        update(1, RafxDescriptorKey::Name("arr".to_string()), textures(vec![texture(5), texture(6)])),
        update(
            0,
            RafxDescriptorKey::Binding(0),
            RafxDescriptorElements {
                textures: None,
                samplers: Some(vec![sampler()]),
                buffers: None,
                buffer_offset_sizes: None,
            },
        ),
    ];
    array.update_descriptor_set(&rs, &updates).unwrap();
    let data = array.descriptor_set_array_data();
    assert_eq!(data.texture_states[0], None);
    assert_eq!(data.texture_states[2].unwrap().texture, Some(texture(5)));
    assert_eq!(data.texture_states[3].unwrap().texture, Some(texture(6)));
    assert_eq!(data.sampler_states[0].unwrap().sampler, Some(sampler()));
    assert_eq!(data.sampler_states[1], None);

    let mut single = update(0, RafxDescriptorKey::DescriptorIndex(RafxDescriptorIndex(3)), textures(vec![texture(8)]));
    single.dst_element_offset = 1;
    array.queue_descriptor_set_update(&rs, &single).unwrap();
    assert_eq!(array.descriptor_set_array_data().texture_states[1].unwrap().texture, Some(texture(8)));
    assert_eq!(array.descriptor_set_array_data().texture_states[0], None);
}

#[test]
fn buffer_updates_take_offsets() {
    let rs = root_signature();
    let mut array = RafxDescriptorSetArrayGles2::new(1, &rs, 0, 3).unwrap();
    let buffers = RafxDescriptorElements {
        textures: None,
        samplers: None,
        buffers: Some(vec![RafxDescriptorBuffer { buffer_id: Some(BufferId(4)), has_contents: true }]),
        buffer_offset_sizes: Some(vec![RafxOffsetSize { byte_offset: 256, size: 64 }]),
    };
    array.queue_descriptor_set_update(&rs, &update(2, RafxDescriptorKey::Name("ubo".to_string()), buffers)).unwrap();
    let state = array.descriptor_set_array_data().buffer_states[2].unwrap();
    assert_eq!(state.buffer_id, Some(BufferId(4)));
    assert!(state.has_contents);
    assert_eq!(state.offset, 256);
    let no_offsets = RafxDescriptorElements {
        textures: None,
        samplers: None,
        buffers: Some(vec![RafxDescriptorBuffer { buffer_id: None, has_contents: true }]),
        buffer_offset_sizes: None,
    };
    array.queue_descriptor_set_update(&rs, &update(0, RafxDescriptorKey::Binding(0), no_offsets)).unwrap();
    assert_eq!(array.descriptor_set_array_data().buffer_states[0].unwrap().offset, 0);
}

#[test]
fn descriptor_update_errors() {
    let rs = root_signature();
    let mut array = RafxDescriptorSetArrayGles2::new(7, &rs, 1, 2).unwrap();
    let e = |array: &mut RafxDescriptorSetArrayGles2, key: RafxDescriptorKey, elements: RafxDescriptorElements| {
        array.queue_descriptor_set_update(&rs, &update(0, key, elements)).err()
    };
    assert_eq!(
        e(&mut array, RafxDescriptorKey::Name("ubo".to_string()), textures(vec![])),
        Some(RafxError::DescriptorSetIndexMismatch(0, 1))
    );
    assert_eq!(
        e(&mut array, RafxDescriptorKey::Name("zzz".to_string()), textures(vec![])),
        Some(RafxError::DescriptorNotFound)
    );
    assert_eq!(e(&mut array, RafxDescriptorKey::Binding(9), textures(vec![])), Some(RafxError::DescriptorNotFound));
    assert_eq!(e(&mut array, RafxDescriptorKey::Undefined, textures(vec![])), Some(RafxError::UndefinedDescriptorKey));
    assert_eq!(
        e(&mut array, RafxDescriptorKey::Name("smp".to_string()), textures(vec![texture(1)])),
        Some(RafxError::MissingUpdateElements)
    );
    let before: Vec<_> = array.descriptor_set_array_data().texture_states.clone();
    let updates = vec![
        update(0, RafxDescriptorKey::Name("arr".to_string()), textures(vec![texture(2)])),
        update(0, RafxDescriptorKey::Undefined, textures(vec![])),
        update(1, RafxDescriptorKey::Name("arr".to_string()), textures(vec![texture(3)])),
    ];
    assert_eq!(array.update_descriptor_set(&rs, &updates), Err(RafxError::UndefinedDescriptorKey));
    let after = &array.descriptor_set_array_data().texture_states;
    assert_eq!(before[0], None);
    assert_eq!(after[0].unwrap().texture, Some(texture(2)));
    assert_eq!(after[2], None);
}

#[test]
fn resource_checks() {
    assert!(resources_valid_for(&resources(), &vec![]));
    let mut bad_set = resources();
    bad_set[0].set_index = 4;
    assert!(!resources_valid_for(&bad_set, &vec![]));
    let mut empty_array = resources();
    empty_array[1].element_count = 0;
    assert!(resources_valid_for(&empty_array, &vec![]));
    let mut unknown_sampler = resources();
    unknown_sampler[1].gles_sampler_name = Some("nope".to_string());
    assert!(!resources_valid_for(&unknown_sampler, &vec![]));
    let missing_list = vec![resource(RafxResourceType::SAMPLER, 0, 0, 1, "s", None, Some(0))];
    assert!(!resources_valid_for(&missing_list, &vec![]));
    assert!(resources_valid_for(&missing_list, &vec![vec![sampler()]]));
    let not_a_sampler = vec![resource(RafxResourceType::TEXTURE, 0, 0, 1, "t", None, Some(0))];
    assert!(!resources_valid_for(&not_a_sampler, &vec![vec![sampler()]]));
    let array_of_two = vec![resource(RafxResourceType::SAMPLER, 0, 0, 2, "s", None, Some(0))];
    assert!(!resources_valid_for(&array_of_two, &vec![vec![sampler(), sampler()]]));
}

#[test]
fn update_range_checks() {
    let rs = root_signature();
    let array = RafxDescriptorSetArrayGles2::new(7, &rs, 1, 2).unwrap();
    let fits = update(1, RafxDescriptorKey::Name("arr".to_string()), textures(vec![texture(1), texture(2)]));
    assert!(array.update_applies_for(&rs, &fits));
    let too_many = update(0, RafxDescriptorKey::Name("arr".to_string()), textures(vec![texture(1), texture(2), texture(3)]));
    assert!(!array.update_applies_for(&rs, &too_many));
    let past_the_array = update(2, RafxDescriptorKey::Name("arr".to_string()), textures(vec![texture(1)]));
    assert!(!array.update_applies_for(&rs, &past_the_array));
    let refused_anyway = update(0, RafxDescriptorKey::Undefined, textures(vec![]));
    assert!(array.update_applies_for(&rs, &refused_anyway));
    let mut offset = update(0, RafxDescriptorKey::Name("arr".to_string()), textures(vec![texture(1), texture(2)]));
    offset.dst_element_offset = 1;
    assert!(!array.update_applies_for(&rs, &offset));
}

#[test]
fn gles2_root_signature_shares_image_states() {
    let mut rs_in = resources();
    rs_in.push(resource(RafxResourceType::BUFFER, 0, 2, 0, "storage", None, None));
    assert!(resources_reachable_valid_for(&rs_in, &reflection()));
    let rs = RafxRootSignatureGles2::new(RafxPipelineType::Graphics, &rs_in, reflection(), 3).unwrap();
    assert_eq!(rs.pipeline_type(), RafxPipelineType::Graphics);
    assert_eq!(rs.descriptors.len(), 5);
    // textures and samplers share a set's image states; uniform and storage buffers its buffer states
    assert_eq!(rs.layouts[0].image_descriptor_state_count, 1);
    assert_eq!(rs.layouts[0].buffer_descriptor_state_count, 2);
    assert_eq!(rs.layouts[1].image_descriptor_state_count, 3);
    assert_eq!(rs.layouts[1].buffer_descriptor_state_count, 0);
    let smp = rs.descriptor(rs.find_descriptor_by_name("smp").unwrap()).unwrap();
    assert_eq!(smp.descriptor_data_offset_in_set, Some(0));
    let arr = rs.descriptor(rs.find_descriptor_by_binding(1, 1).unwrap()).unwrap();
    assert_eq!(arr.descriptor_data_offset_in_set, Some(1));
    assert_eq!(arr.gl_name, "arr");
    let storage = rs.descriptor(RafxDescriptorIndex(4)).unwrap();
    assert_eq!(storage.element_count, 1);
    assert_eq!(storage.descriptor_data_offset_in_set, Some(1));
    assert_eq!(rs.uniform_index(RafxDescriptorIndex(0)), Some(UniformIndex(0)));
    assert_eq!(rs.uniform_index(RafxDescriptorIndex(1)), None);
    assert_eq!(rs.uniform_reflection_data().uniforms_len(), 2);
    assert_eq!(rs.find_descriptor_by_binding(4, 0), None);
    assert!(rs.descriptor(RafxDescriptorIndex(5)).is_none());
    let other = RafxRootSignatureGles2::new(RafxPipelineType::Graphics, &vec![], reflection(), 3).unwrap();
    assert!(rs == other);
    let third = RafxRootSignatureGles2::new(RafxPipelineType::Graphics, &vec![], reflection(), 4).unwrap();
    assert!(rs != third);
}

#[test]
fn gles2_root_signature_errors_and_checks() {
    let r = vec![resource(RafxResourceType::VERTEX_BUFFER, 0, 0, 1, "v", None, None)];
    assert_eq!(
        RafxRootSignatureGles2::new(RafxPipelineType::Graphics, &r, reflection(), 1).err(),
        Some(RafxError::ResourceTypeNotSupported(RafxResourceType(RafxResourceType::VERTEX_BUFFER)))
    );
    // nothing past an unsupported resource is laid out, so nothing past it is checked
    let mut past = vec![resource(RafxResourceType::VERTEX_BUFFER, 0, 0, 1, "v", None, None)];
    past.push(resource(RafxResourceType::TEXTURE, 9, 0, 1, "t", None, None));
    assert!(resources_reachable_valid_for(&past, &reflection()));
    let bad_set = vec![resource(RafxResourceType::TEXTURE, 9, 0, 1, "t", None, None)];
    assert!(!resources_reachable_valid_for(&bad_set, &reflection()));
    let nul_name = vec![resource(RafxResourceType::TEXTURE, 0, 0, 1, "t\0x", None, None)];
    assert!(!resources_reachable_valid_for(&nul_name, &reflection()));
}

#[test]
fn gl_pipeline_takes_its_root_signature_type() {
    let p = RafxPipelineGl::new(root_signature());
    assert_eq!(p.pipeline_type(), RafxPipelineType::Graphics);
    assert_eq!(p.pipeline_type(), p.root_signature().pipeline_type());
    assert_eq!(p.root_signature().root_signature_id, 9);
}

#[test]
fn unsized_arrays_are_laid_out_as_one_element() {
    let resources = vec![
        resource(RafxResourceType::TEXTURE, 0, 0, 0, "tex", None, None),
        resource(RafxResourceType::TEXTURE, 0, 1, 1, "next", None, None),
        resource(RafxResourceType::SAMPLER, 1, 0, 0, "fixed", None, Some(0)),
    ];
    let rs = RafxRootSignatureGles3::new(RafxPipelineType::Graphics, &resources, &vec![vec![sampler()]], reflection(), 3)
        .unwrap();
    assert_eq!(rs.descriptors[0].element_count, 1);
    assert_eq!(rs.descriptors[1].descriptor_data_offset_in_set, Some(1));
    assert_eq!(rs.location_names.len(), 2);
    assert_eq!(rs.location_names[0].base, "tex");
    assert_eq!(rs.location_names[0].element, None);
    assert_eq!(rs.immutable_samplers.len(), 1);
    assert_eq!(resources[0].element_count_normalized(), 1);
}

#[test]
fn location_gl_names() {
    let plain = LocationName { base: "tex".to_string(), element: None };
    assert_eq!(plain.gl_name(), b"tex".to_vec());
    let element = LocationName { base: "arr".to_string(), element: Some(12) };
    assert_eq!(element.gl_name(), b"arr[12]".to_vec());
    let first = LocationName { base: "arr".to_string(), element: Some(0) };
    assert_eq!(first.gl_name(), b"arr[0]".to_vec());
}
