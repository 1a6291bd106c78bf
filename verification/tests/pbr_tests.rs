use render_core::gpu::Binding;
use render_core::gpu::BindingResource;
use render_core::gpu::BufferCopy;
use render_core::gpu::BufferUsage;
use render_core::gpu::SizeMismatch;
use render_core::gpu::TextureFormat;
use render_core::pipelines::pbr::clamp;
use render_core::pipelines::pbr::environment_asset;
use render_core::pipelines::pbr::lighting;
use render_core::pipelines::pbr::make_instances;
use render_core::pipelines::pbr::material_assets;
use render_core::pipelines::pbr::Material;
use render_core::pipelines::pbr::MaterialChannel;
use render_core::pipelines::pbr::Pbr;
use render_core::pipelines::pbr::PbrRenderPass;
use render_core::pipelines::pbr::PbrState;
use render_core::pipelines::pbr::PbrUpload;
use render_core::pipelines::pbr::PbrUploadError;
use render_core::pipelines::pbr::PbrUploads;
use render_core::pipelines::pbr::COLS;
use render_core::pipelines::pbr::INSTANCES;
use render_core::pipelines::pbr::ROWS;
use render_core::pipelines::ModuleError;
use render_core::ratio::Ratio;
use render_core::render::BindGroupRef;
use render_core::render::BlendDescriptor;
use render_core::render::BlendFactor;
use render_core::render::BlendOperation;
use render_core::render::Color;
use render_core::render::ColorAttachment;
use render_core::render::ColorStateDescriptor;
use render_core::render::ColorWrite;
use render_core::render::CompareFunction;
use render_core::render::CullMode;
use render_core::render::DepthStencilAttachment;
use render_core::render::DepthStencilStateDescriptor;
use render_core::render::FrontFace;
use render_core::render::IndexFormat;
use render_core::render::LoadOp;
use render_core::render::PrimitiveTopology;
use render_core::render::RasterizationStateDescriptor;
use render_core::render::Render;
use render_core::render::RenderCommand;
use render_core::render::StencilOperation;
use render_core::render::StencilStateFaceDescriptor;
use render_core::render::StoreOp;
use render_core::render_types::MaterialInfoRaw;
use render_core::render_types::MvpUniforms;
use render_core::render_types::TransformRaw;
use render_core::render_types::Vec4;
use render_core::render_types::VertexDesc;
use render_core::render_types::VertexTexNormal;
use render_core::render_types::MATERIAL_INFO_RAW_SIZE;
use render_core::render_types::MVP_UNIFORMS_SIZE;
use render_core::render_types::PBR_FRAGMENT_UNIFORMS_SIZE;
use render_core::render_types::TRANSFORM_RAW_SIZE;
use render_core::shader::ShaderKind;
use render_core::shader::SpirvError;
use render_core::texture::SwapChainDescriptor;
use render_core::texture::Texture;
use render_core::texture::TextureUsage;

const SPIRV: [u8; 8] = [0x03, 0x02, 0x23, 0x07, 0x2a, 0x00, 0x00, 0x00];

fn ratio(num: i32, den: i32) -> Ratio {
    Ratio { num, den }
}

fn as_f32(r: Ratio) -> f32 {
    r.num as f32 / r.den as f32
}

fn surface(width: u32, height: u32) -> SwapChainDescriptor {
    SwapChainDescriptor { format: TextureFormat::Bgra8UnormSrgb, width, height }
}

fn material() -> Material {
    Material {
        albedo: Texture::from_image(8, 8, false),
        roughness: Texture::from_image(4, 4, false),
        ambient_occlusion: Texture::from_image(2, 2, false),
        normals: Texture::from_image(16, 16, true),
        metallic: Texture::from_image(1, 1, false),
    }
}

fn block(seed: u8) -> MvpUniforms {
    let mut bytes = [0u8; 144];
    for (i, b) in bytes.iter_mut().enumerate() {
        *b = seed.wrapping_add(i as u8);
    }
    let mut block =
        MvpUniforms { view_position: [0; 16], view_proj: [0; 64], model: [0; 64] };
    block.view_position.copy_from_slice(&bytes[..16]);
    block.view_proj.copy_from_slice(&bytes[16..80]);
    block.model.copy_from_slice(&bytes[80..]);
    block
}

fn uploads() -> PbrUploads {
    PbrUploads {
        lighting: vec![1; 144],
        transforms: vec![2; 49 * 64],
        material_info: vec![3; 49 * 16],
        sphere_vertices: vec![4; 65 * 65 * 32],
    }
}

fn effect() -> Pbr {
    Pbr::new(&surface(800, 600), &SPIRV, &SPIRV).unwrap()
}

fn state() -> PbrState {
    PbrState::new(&surface(800, 600), &effect(), material(), block(7), uploads()).unwrap()
}

#[test]
fn clamp_raises_then_lowers() {
    assert_eq!(clamp(ratio(0, 7), ratio(1, 20), ratio(1, 1)), ratio(1, 20));
    assert_eq!(clamp(ratio(3, 7), ratio(1, 20), ratio(1, 1)), ratio(3, 7));
    assert_eq!(clamp(ratio(9, 7), ratio(1, 20), ratio(1, 1)), ratio(1, 1));
    assert_eq!(clamp(ratio(1, 20), ratio(1, 20), ratio(1, 1)), ratio(1, 20));
    assert_eq!(clamp(ratio(2, 40), ratio(1, 20), ratio(1, 1)), ratio(2, 40));
    assert_eq!(clamp(ratio(-5, 1), ratio(-2, 1), ratio(3, 1)), ratio(-2, 1));
    assert_eq!(clamp(ratio(7, 7), ratio(1, 20), ratio(1, 1)), ratio(7, 7));
}

#[test]
fn clamp_with_crossed_bounds_ends_at_the_upper_bound() {
    assert_eq!(clamp(ratio(0, 1), ratio(5, 1), ratio(2, 1)), ratio(2, 1));
    assert_eq!(clamp(ratio(9, 1), ratio(5, 1), ratio(2, 1)), ratio(2, 1));
    assert_eq!(clamp(ratio(1, 1), ratio(5, 1), ratio(2, 1)), ratio(2, 1));
}

#[test]
fn clamp_compares_large_fractions_exactly() {
    let big = ratio(i32::MAX, 1);
    let small = ratio(i32::MIN, 1);
    assert_eq!(clamp(big, small, big), big);
    assert_eq!(clamp(small, small, big), small);
    assert_eq!(clamp(ratio(i32::MAX, i32::MAX), ratio(0, 1), ratio(1, 1)), ratio(i32::MAX, i32::MAX));
    assert_eq!(
        clamp(ratio(i32::MAX, i32::MAX - 1), ratio(0, 1), ratio(1, 1)),
        ratio(1, 1)
    );
}

#[test]
fn grid_has_forty_nine_instances() {
    let (transforms, materials) = make_instances();
    assert_eq!(transforms.len(), 49);
    assert_eq!(materials.len(), 49);
    assert_eq!(INSTANCES, 49);
    assert_eq!(ROWS, 7);
    assert_eq!(COLS, 7);
}

#[test]
fn metallic_is_the_row_in_sevenths() {
    let (_, materials) = make_instances();
    for row in 0..7 {
        for col in 0..7 {
            assert_eq!(materials[row * 7 + col].metallic, ratio(row as i32, 7));
        }
    }
}

#[test]
fn roughness_is_the_column_in_sevenths_but_at_least_a_twentieth() {
    let (_, materials) = make_instances();
    for row in 0..7 {
        assert_eq!(materials[row * 7].roughness, ratio(1, 20));
        for col in 1..7 {
            assert_eq!(materials[row * 7 + col].roughness, ratio(col as i32, 7));
        }
    }
    for material in &materials {
        let roughness = as_f32(material.roughness);
        assert!(0.05 <= roughness && roughness <= 1.0);
        assert_eq!(material.ambient_occlusion, ratio(1, 1));
        assert_eq!(material.padding, ratio(0, 1));
    }
}

#[test]
fn instances_stand_five_halves_apart_around_the_origin() {
    let (transforms, _) = make_instances();
    assert_eq!(transforms[0], TransformRaw { x: ratio(-15, 2), y: ratio(-15, 2), z: ratio(0, 1) });
    assert_eq!(transforms[8], TransformRaw { x: ratio(-10, 2), y: ratio(-10, 2), z: ratio(0, 1) });
    assert_eq!(transforms[24], TransformRaw { x: ratio(0, 2), y: ratio(0, 2), z: ratio(0, 1) });
    assert_eq!(transforms[27], TransformRaw { x: ratio(15, 2), y: ratio(0, 2), z: ratio(0, 1) });
    assert_eq!(transforms[48], TransformRaw { x: ratio(15, 2), y: ratio(15, 2), z: ratio(0, 1) });
    assert_eq!(transforms[6], TransformRaw { x: ratio(15, 2), y: ratio(-15, 2), z: ratio(0, 1) });
}

#[test]
fn fractions_of_the_grid_are_the_floats_of_the_shaders() {
    let (transforms, materials) = make_instances();
    for row in 0..7i16 {
        for col in 0..7i16 {
            let k = (row * 7 + col) as usize;
            let metallic = (row as f32) / (7 as f32);
            let raw = (col as f32) / (7 as f32);
            let roughness = if raw < 0.05 { 0.05 } else if raw > 1.0 { 1.0 } else { raw };
            assert_eq!(as_f32(materials[k].metallic), metallic);
            assert_eq!(as_f32(materials[k].roughness), roughness);
            assert_eq!(as_f32(materials[k].ambient_occlusion), 1.0);
            assert_eq!(as_f32(materials[k].padding), 0.0);
            assert_eq!(as_f32(transforms[k].x), (col - 3) as f32 * 2.5);
            assert_eq!(as_f32(transforms[k].y), (row - 3) as f32 * 2.5);
            assert_eq!(as_f32(transforms[k].z), 0.0);
        }
    }
}

#[test]
fn material_example_row_two_column_five() {
    let (_, materials) = make_instances();
    assert_eq!(
        materials[2 * 7 + 5],
        MaterialInfoRaw {
            metallic: ratio(2, 7),
            roughness: ratio(5, 7),
            ambient_occlusion: ratio(1, 1),
            padding: ratio(0, 1),
        }
    );
}

#[test]
fn lights_stand_at_the_corners_of_a_square() {
    let block = lighting();
    let at = |x: i32, y: i32, z: i32| Vec4 {
        x: ratio(x, 1),
        y: ratio(y, 1),
        z: ratio(z, 1),
        w: ratio(0, 1),
    };
    assert_eq!(
        block.albedo,
        Vec4 { x: ratio(1, 2), y: ratio(0, 1), z: ratio(0, 1), w: ratio(0, 1) }
    );
    assert_eq!(
        block.light_positions,
        [at(-10, 10, 10), at(10, 10, 10), at(-10, -10, 10), at(10, -10, 10)]
    );
    assert_eq!(block.light_colors, [at(300, 300, 300); 4]);
    assert_eq!(as_f32(block.albedo.x), 0.5);
}

#[test]
fn blocks_have_the_sizes_of_their_numbers() {
    assert_eq!(MVP_UNIFORMS_SIZE, 4 * (4 + 16 + 16));
    assert_eq!(PBR_FRAGMENT_UNIFORMS_SIZE, 4 * 4 * 9);
    assert_eq!(TRANSFORM_RAW_SIZE, 4 * 16);
    assert_eq!(MATERIAL_INFO_RAW_SIZE, 4 * 4);
}

#[test]
fn material_images_are_loaded_in_order() {
    let assets = material_assets();
    let seen: Vec<(MaterialChannel, &str, bool)> =
        assets.iter().map(|a| (a.channel, a.path.as_str(), a.is_normal_map)).collect();
    assert_eq!(
        seen,
        vec![
            (MaterialChannel::Albedo, "res/steelplate1/steelplate1_albedo.png", false),
            (MaterialChannel::Roughness, "res/steelplate1/steelplate1_roughness.png", false),
            (MaterialChannel::Metallic, "res/steelplate1/steelplate1_metallic.png", false),
            (MaterialChannel::Normals, "res/steelplate1/steelplate1_normal-dx.png", true),
            (MaterialChannel::AmbientOcclusion, "res/steelplate1/steelplate1_ao.png", false),
        ]
    );
    assert_eq!(environment_asset(), "res/Subway_Lights/20_Subway_Lights_3k.hdr");
}

#[test]
fn channels_are_numbered_in_the_order_of_the_material() {
    assert_eq!(MaterialChannel::Albedo.index(), 0);
    assert_eq!(MaterialChannel::Roughness.index(), 1);
    assert_eq!(MaterialChannel::AmbientOcclusion.index(), 2);
    assert_eq!(MaterialChannel::Normals.index(), 3);
    assert_eq!(MaterialChannel::Metallic.index(), 4);
}

#[test]
fn texture_group_leaves_the_metallic_texture_out() {
    let group = effect().layout.create_texture_bind_group(&material());
    assert_eq!(group.label, "bind_group");
    let view = |binding: u32, source: usize| Binding {
        binding,
        resource: BindingResource::TextureView { source },
    };
    let sampler = |binding: u32, source: usize| Binding {
        binding,
        resource: BindingResource::Sampler { source },
    };
    assert_eq!(
        group.bindings,
        vec![
            view(0, 0),
            sampler(1, 0),
            view(2, 1),
            sampler(3, 1),
            view(4, 2),
            sampler(5, 2),
            view(6, 3),
            sampler(7, 3),
        ]
    );
    assert_eq!(effect().layout.textures().validate(&group.bindings), Ok(()));
    assert!(group.bindings.iter().all(|b| match b.resource {
        BindingResource::TextureView { source } | BindingResource::Sampler { source } =>
            source != MaterialChannel::Metallic.index(),
        BindingResource::Buffer { .. } => false,
    }));
}

#[test]
fn pipeline_draws_depth_tested_strips() {
    let sc_desc = surface(640, 480);
    let effect = Pbr::new(&sc_desc, &SPIRV, &SPIRV).unwrap();
    let pipeline = effect.pipeline;
    assert_eq!(pipeline.layout, *effect.layout.sets());
    assert_eq!(pipeline.layout.len(), 2);
    assert_eq!(pipeline.layout[0].label, "uniform_bind_group_layout");
    assert_eq!(pipeline.layout[0].entries.len(), 4);
    assert_eq!(pipeline.layout[1].label, "texture_bind_group_layout");
    assert_eq!(pipeline.layout[1].entries.len(), 8);
    assert_eq!(pipeline.vertex_module, vec![0x0723_0203, 42]);
    assert_eq!(pipeline.fragment_module, vec![0x0723_0203, 42]);
    assert_eq!(pipeline.entry_point, "main");
    assert_eq!(pipeline.vertex_buffer, VertexTexNormal::desc());
    let replace = BlendDescriptor {
        src_factor: BlendFactor::One,
        dst_factor: BlendFactor::Zero,
        operation: BlendOperation::Add,
    };
    let ignore = StencilStateFaceDescriptor {
        compare: CompareFunction::Always,
        fail_op: StencilOperation::Keep,
        depth_fail_op: StencilOperation::Keep,
        pass_op: StencilOperation::Keep,
    };
    assert_eq!(
        pipeline.state.rasterization_state,
        RasterizationStateDescriptor {
            front_face: FrontFace::Cw,
            cull_mode: CullMode::Back,
            depth_bias: 0
        }
    );
    assert_eq!(
        pipeline.state.color_state,
        ColorStateDescriptor {
            format: TextureFormat::Bgra8UnormSrgb,
            alpha_blend: replace,
            color_blend: replace,
            write_mask: ColorWrite { red: true, green: true, blue: true, alpha: true },
        }
    );
    assert_eq!(pipeline.state.primitive_topology, PrimitiveTopology::TriangleStrip);
    assert_eq!(
        pipeline.state.depth_stencil_state,
        Some(DepthStencilStateDescriptor {
            format: TextureFormat::Depth32Float,
            depth_write_enabled: true,
            depth_compare: CompareFunction::Less,
            stencil_front: ignore,
            stencil_back: ignore,
            stencil_read_mask: 0,
            stencil_write_mask: 0,
        })
    );
    assert_eq!(pipeline.state.index_format, IndexFormat::Uint16);
    assert_eq!(pipeline.state.sample_count, 1);
    assert_eq!(pipeline.state.sample_mask, !0);
    assert!(!pipeline.state.alpha_to_coverage_enabled);
}

#[test]
fn pipeline_takes_the_format_of_the_surface() {
    let sc_desc = SwapChainDescriptor { format: TextureFormat::Rgba8Unorm, width: 1, height: 1 };
    let effect = Pbr::new(&sc_desc, &SPIRV, &SPIRV).unwrap();
    assert_eq!(effect.pipeline.state.color_state.format, TextureFormat::Rgba8Unorm);
}

#[test]
fn effect_needs_two_readable_shaders() {
    let sc_desc = surface(1, 1);
    assert_eq!(
        Pbr::new(&sc_desc, &[1, 2, 3], &SPIRV).err(),
        Some(ModuleError { kind: ShaderKind::Vertex, fault: SpirvError::Misaligned })
    );
    assert_eq!(
        Pbr::new(&sc_desc, &SPIRV, &[0, 0, 0, 0]).err(),
        Some(ModuleError { kind: ShaderKind::Fragment, fault: SpirvError::MissingMagic })
    );
    assert_eq!(
        Pbr::new(&sc_desc, &[], &[1]).err(),
        Some(ModuleError { kind: ShaderKind::Vertex, fault: SpirvError::MissingMagic })
    );
}

#[test]
fn shaders_are_compiled_under_the_tag_of_the_effect() {
    let (vs, fs) = Pbr::shader_requests("vertex text", "fragment text");
    assert_eq!(vs.file_name, "pbr_vs.glsl");
    assert_eq!(vs.kind, ShaderKind::Vertex);
    assert_eq!(vs.source, "vertex text");
    assert_eq!(vs.entry_point, "main");
    assert_eq!(fs.file_name, "pbr_fs.glsl");
    assert_eq!(fs.kind, ShaderKind::Fragment);
    assert_eq!(fs.source, "fragment text");
    assert_eq!(fs.entry_point, "main");
}

#[test]
fn state_holds_what_it_was_created_with() {
    let state = state();
    assert_eq!(state.mvp, block(7));
    assert_eq!(state.pbr_fs, lighting());
    assert_eq!(state.material, material());
    assert_eq!(state.instances, make_instances());
    assert_eq!(state.mvp_buffer.contents, block(7).to_vec());
    assert_eq!(state.pbr_fs_buffer.contents, vec![1; 144]);
    assert_eq!(state.transforms_buffer.contents, vec![2; 3136]);
    assert_eq!(state.material_info_buffer.contents, vec![3; 784]);
    assert_eq!(state.sphere.vertex_buffer.contents, vec![4; 135200]);
    assert_eq!(state.sphere.num_vertices, 4225);
    assert_eq!(state.sphere.num_indices, 8320);
    let uniform = BufferUsage {
        copy_src: false,
        copy_dst: true,
        index: false,
        vertex: false,
        uniform: true,
        storage: false,
        storage_read: false,
    };
    let storage = BufferUsage { copy_dst: false, uniform: false, storage_read: true, ..uniform };
    assert_eq!(state.mvp_buffer.usage, uniform);
    assert_eq!(state.pbr_fs_buffer.usage, uniform);
    assert_eq!(state.transforms_buffer.usage, storage);
    assert_eq!(state.material_info_buffer.usage, storage);
}

#[test]
fn state_has_a_depth_texture_as_large_as_the_surface() {
    let state = state();
    assert_eq!(
        state.depth_texture,
        Texture {
            width: 800,
            height: 600,
            format: TextureFormat::Depth32Float,
            usage: TextureUsage {
                copy_src: false,
                copy_dst: false,
                sampled: true,
                storage: false,
                output_attachment: true,
            },
            label: Some("pbr_depth_texture"),
        }
    );
}

#[test]
fn every_buffer_binding_covers_its_buffer() {
    let state = state();
    assert_eq!(state.uniform_bind_group.label, "pbr_uniform_bind_group");
    let sizes = [144u64, 144, 3136, 784];
    assert_eq!(state.uniform_bind_group.bindings.len(), 4);
    for (i, binding) in state.uniform_bind_group.bindings.iter().enumerate() {
        assert_eq!(binding.binding, i as u32);
        match binding.resource {
            BindingResource::Buffer { source, size, start, end, .. } => {
                assert_eq!(source, i);
                assert_eq!(size, sizes[i]);
                assert_eq!(start, 0);
                assert_eq!(end, size);
            }
            _ => panic!("a buffer is bound to every slot"),
        }
    }
    assert_eq!(effect().layout.uniforms().validate(&state.uniform_bind_group.bindings), Ok(()));
    assert_eq!(
        state.material_bind_group,
        effect().layout.create_texture_bind_group(&material())
    );
}

#[test]
fn uploads_of_other_lengths_are_refused_in_order() {
    let sc_desc = surface(800, 600);
    let fail = |change: fn(&mut PbrUploads)| {
        let mut given = uploads();
        change(&mut given);
        PbrState::new(&sc_desc, &effect(), material(), block(0), given).err()
    };
    assert_eq!(
        fail(|u| u.lighting.push(0)),
        Some(PbrUploadError {
            upload: PbrUpload::Lighting,
            mismatch: SizeMismatch { expected: 144, actual: 145 },
        })
    );
    assert_eq!(
        fail(|u| u.transforms.truncate(64)),
        Some(PbrUploadError {
            upload: PbrUpload::Transforms,
            mismatch: SizeMismatch { expected: 3136, actual: 64 },
        })
    );
    assert_eq!(
        fail(|u| u.material_info.clear()),
        Some(PbrUploadError {
            upload: PbrUpload::MaterialInfo,
            mismatch: SizeMismatch { expected: 784, actual: 0 },
        })
    );
    assert_eq!(
        fail(|u| u.sphere_vertices.push(1)),
        Some(PbrUploadError {
            upload: PbrUpload::SphereVertices,
            mismatch: SizeMismatch { expected: 135200, actual: 135201 },
        })
    );
    assert_eq!(
        fail(|u| {
            u.sphere_vertices.clear();
            u.transforms.clear();
        }),
        Some(PbrUploadError {
            upload: PbrUpload::Transforms,
            mismatch: SizeMismatch { expected: 3136, actual: 0 },
        })
    );
}

#[test]
fn resize_replaces_only_the_depth_texture() {
    let mut resized = state();
    resized.resize(&surface(1024, 768));
    assert_eq!(resized.depth_texture.width, 1024);
    assert_eq!(resized.depth_texture.height, 768);
    assert_eq!(resized.depth_texture.format, TextureFormat::Depth32Float);
    assert_eq!(resized.depth_texture.label, Some("pbr_depth_texture"));
    let mut expected = state();
    expected.depth_texture = resized.depth_texture;
    assert_eq!(resized, expected);
}

#[test]
fn block_is_its_three_fields_one_behind_the_other() {
    let mut block = MvpUniforms { view_position: [1; 16], view_proj: [2; 64], model: [3; 64] };
    let mut expected = vec![1u8; 16];
    expected.extend_from_slice(&[2; 64]);
    expected.extend_from_slice(&[3; 64]);
    assert_eq!(block.to_vec(), expected);
    assert_eq!(block.to_vec().len(), MVP_UNIFORMS_SIZE);
    block.update_view_proj([4; 16], [5; 64]);
    assert_eq!(block, MvpUniforms { view_position: [4; 16], view_proj: [5; 64], model: [3; 64] });
    block.update_model(&[6; 64]);
    assert_eq!(block, MvpUniforms { view_position: [4; 16], view_proj: [5; 64], model: [6; 64] });
    assert_eq!(&block.to_vec()[..16], &[4; 16]);
    assert_eq!(&block.to_vec()[16..80], &[5; 64]);
    assert_eq!(&block.to_vec()[80..], &[6; 64]);
}

#[test]
fn staging_copies_the_whole_block() {
    let upload = PbrState::stage_uniforms(&block(3));
    assert_eq!(upload.staging.contents, block(3).to_vec());
    assert_eq!(
        upload.staging.usage,
        BufferUsage {
            copy_src: true,
            copy_dst: false,
            index: false,
            vertex: false,
            uniform: false,
            storage: false,
            storage_read: false,
        }
    );
    assert_eq!(upload.copy, BufferCopy { source_offset: 0, destination_offset: 0, size: 144 });
}

#[test]
fn staged_block_reads_back_byte_for_byte() {
    let state = state();
    let mut persistent = state.mvp_buffer.contents.clone();
    let staged = block(200);
    let upload = PbrState::stage_uniforms(&staged);
    let copy = upload.copy;
    let from = copy.source_offset as usize;
    let to = copy.destination_offset as usize;
    let len = copy.size as usize;
    persistent[to..to + len].copy_from_slice(&upload.staging.contents[from..from + len]);
    assert_eq!(persistent, staged.to_vec());
    assert_ne!(persistent, block(7).to_vec());
}

#[test]
fn pass_draws_the_sphere_once_per_instance() {
    let state = state();
    let pass = PbrRenderPass::new(&state);
    assert_eq!(pass.num_instances, 49);
    assert_eq!(
        pass.clear_color,
        Color { r: ratio(1, 10), g: ratio(1, 10), b: ratio(1, 10), a: ratio(1, 1) }
    );
    assert_eq!(*pass.mvp, state.mvp);
    assert_eq!(*pass.geometry, state.sphere);
    assert_eq!(*pass.depth_texture, state.depth_texture);
    assert_eq!(*pass.uniform_bind_group, state.uniform_bind_group);
    assert_eq!(*pass.texture_bind_group, state.material_bind_group);
    assert_eq!(*pass.mvp_buffer, state.mvp_buffer);
    let frame = pass.render();
    assert_eq!(frame.staged, Some(PbrState::stage_uniforms(&state.mvp)));
    assert_eq!(
        frame.pass.color_attachment,
        ColorAttachment { load_op: LoadOp::Clear, store_op: StoreOp::Store }
    );
    assert_eq!(
        frame.pass.depth_stencil_attachment,
        Some(DepthStencilAttachment {
            depth_load_op: LoadOp::Clear,
            depth_store_op: StoreOp::Store,
            clear_depth: 1,
            stencil_load_op: LoadOp::Clear,
            stencil_store_op: StoreOp::Store,
            clear_stencil: 0,
        })
    );
    assert_eq!(
        frame.pass.commands,
        vec![
            RenderCommand::SetPipeline,
            RenderCommand::SetBindGroup { index: 0, group: BindGroupRef::Uniforms },
            RenderCommand::SetBindGroup { index: 1, group: BindGroupRef::Texture { index: 0 } },
            RenderCommand::SetVertexBuffer { slot: 0, geometry: 0, offset: 0, size: 0 },
            RenderCommand::SetIndexBuffer { geometry: 0, offset: 0, size: 0 },
            RenderCommand::DrawIndexed {
                first_index: 0,
                end_index: 8320,
                base_vertex: 0,
                first_instance: 0,
                end_instance: 49,
            },
        ]
    );
}

#[test]
fn clear_colour_is_the_float_tenth() {
    let state = state();
    let pass = PbrRenderPass::new(&state);
    let red = pass.clear_color.r.num as f64 / pass.clear_color.r.den as f64;
    let alpha = pass.clear_color.a.num as f64 / pass.clear_color.a.den as f64;
    assert_eq!(red, 0.1);
    assert_eq!(alpha, 1.0);
}
