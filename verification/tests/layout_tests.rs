use render_core::gpu::BindGroupError;
use render_core::gpu::BindGroupLayout;
use render_core::gpu::BindGroupLayoutEntry;
use render_core::gpu::Binding;
use render_core::gpu::BindingResource;
use render_core::gpu::BindingType;
use render_core::gpu::Buffer;
use render_core::gpu::BufferUsage;
use render_core::gpu::ShaderStage;
use render_core::gpu::SizeMismatch;
use render_core::gpu::TextureComponentType;
use render_core::gpu::TextureViewDimension;
use render_core::pipelines::pbr::PbrLayout;
use render_core::pipelines::single_texture_bind_group;
use render_core::pipelines::single_texture_layout;
use render_core::pipelines::single_uniform_bind_group;
use render_core::pipelines::single_uniform_buffer_layout;
use render_core::render_types::vertex_attr_array;
use render_core::render_types::InputStepMode;
use render_core::render_types::VertexAttributeDescriptor;
use render_core::render_types::VertexDesc;
use render_core::render_types::VertexFormat;
use render_core::render_types::VertexPlain;
use render_core::render_types::VertexTex;
use render_core::render_types::VertexTexNormal;

const VERTEX: ShaderStage = ShaderStage { vertex: true, fragment: false, compute: false };
const FRAGMENT: ShaderStage = ShaderStage { vertex: false, fragment: true, compute: false };
const BOTH: ShaderStage = ShaderStage { vertex: true, fragment: true, compute: false };

const NO_USAGE: BufferUsage = BufferUsage {
    copy_src: false,
    copy_dst: false,
    index: false,
    vertex: false,
    uniform: false,
    storage: false,
    storage_read: false,
};

fn texture_entry(binding: u32) -> BindGroupLayoutEntry {
    BindGroupLayoutEntry {
        binding,
        visibility: FRAGMENT,
        ty: BindingType::SampledTexture {
            dimension: TextureViewDimension::D2,
            component_type: TextureComponentType::Uint,
            multisampled: false,
        },
    }
}

fn sampler_entry(binding: u32) -> BindGroupLayoutEntry {
    BindGroupLayoutEntry {
        binding,
        visibility: FRAGMENT,
        ty: BindingType::Sampler { comparison: false },
    }
}

fn uniform_buffer(size: usize) -> Buffer {
    Buffer::with_data(vec![0; size], BufferUsage { uniform: true, copy_dst: true, ..NO_USAGE })
}

fn storage_buffer(size: usize) -> Buffer {
    Buffer::with_data(vec![0; size], BufferUsage { storage_read: true, ..NO_USAGE })
}

fn buffer_binding(binding: u32, source: usize, buffer: &Buffer, end: u64) -> Binding {
    Binding {
        binding,
        resource: BindingResource::Buffer {
            source,
            usage: buffer.usage,
            size: buffer.contents.len() as u64,
            start: 0,
            end,
        },
    }
}

#[test]
fn shared_uniform_schema_has_one_vertex_visible_buffer() {
    let layout = single_uniform_buffer_layout();
    assert_eq!(layout.label, "uniform_bind_group_layout");
    assert_eq!(
        layout.entries,
        vec![BindGroupLayoutEntry {
            binding: 0,
            visibility: VERTEX,
            ty: BindingType::UniformBuffer { dynamic: false },
        }]
    );
}

#[test]
fn shared_texture_schema_has_a_texture_and_a_sampler() {
    let layout = single_texture_layout();
    assert_eq!(layout.label, "single_texture_bg_layout");
    assert_eq!(layout.entries, vec![texture_entry(0), sampler_entry(1)]);
}

#[test]
fn pbr_uniform_schema_has_two_uniform_and_two_storage_buffers() {
    let layout = PbrLayout::uniform_layout();
    assert_eq!(layout.label, "uniform_bind_group_layout");
    assert_eq!(
        layout.entries,
        vec![
            BindGroupLayoutEntry {
                binding: 0,
                visibility: BOTH,
                ty: BindingType::UniformBuffer { dynamic: false },
            },
            BindGroupLayoutEntry {
                binding: 1,
                visibility: FRAGMENT,
                ty: BindingType::UniformBuffer { dynamic: false },
            },
            BindGroupLayoutEntry {
                binding: 2,
                visibility: VERTEX,
                ty: BindingType::StorageBuffer { dynamic: false, readonly: true },
            },
            BindGroupLayoutEntry {
                binding: 3,
                visibility: FRAGMENT,
                ty: BindingType::StorageBuffer { dynamic: false, readonly: true },
            },
        ]
    );
}

#[test]
fn pbr_texture_schema_has_four_texture_sampler_pairs() {
    let layout = PbrLayout::texture_layout();
    assert_eq!(layout.label, "texture_bind_group_layout");
    assert_eq!(
        layout.entries,
        vec![
            texture_entry(0),
            sampler_entry(1),
            texture_entry(2),
            sampler_entry(3),
            texture_entry(4),
            sampler_entry(5),
            texture_entry(6),
            sampler_entry(7),
        ]
    );
}

#[test]
fn pbr_layout_orders_uniforms_before_textures() {
    let layout = PbrLayout::new();
    assert_eq!(*layout.uniforms(), PbrLayout::uniform_layout());
    assert_eq!(*layout.textures(), PbrLayout::texture_layout());
    assert_eq!(*layout.sets(), vec![PbrLayout::uniform_layout(), PbrLayout::texture_layout()]);
}

#[test]
fn one_texture_binds_view_then_sampler() {
    let group = single_texture_bind_group(&single_texture_layout()).unwrap();
    assert_eq!(group.label, "bind_group");
    assert_eq!(
        group.bindings,
        vec![
            Binding { binding: 0, resource: BindingResource::TextureView { source: 0 } },
            Binding { binding: 1, resource: BindingResource::Sampler { source: 0 } },
        ]
    );
}

#[test]
fn one_buffer_binds_its_first_bytes() {
    let buffer = uniform_buffer(144);
    let group = single_uniform_bind_group(&single_uniform_buffer_layout(), &buffer, 144).unwrap();
    assert_eq!(group.label, "uniform_bind_group");
    assert_eq!(group.bindings, vec![buffer_binding(0, 0, &buffer, 144)]);
    let part = single_uniform_bind_group(&single_uniform_buffer_layout(), &buffer, 64).unwrap();
    assert_eq!(part.bindings, vec![buffer_binding(0, 0, &buffer, 64)]);
}

#[test]
fn a_group_of_the_wrong_length_is_refused() {
    assert_eq!(
        single_texture_bind_group(&single_uniform_buffer_layout()),
        Err(BindGroupError::CountMismatch)
    );
    assert_eq!(
        single_uniform_bind_group(&single_texture_layout(), &uniform_buffer(4), 4),
        Err(BindGroupError::CountMismatch)
    );
    assert_eq!(
        single_uniform_buffer_layout().validate(&Vec::new()),
        Err(BindGroupError::CountMismatch)
    );
}

#[test]
fn a_binding_of_another_slot_is_refused() {
    let buffer = uniform_buffer(16);
    let bindings = vec![buffer_binding(1, 0, &buffer, 16)];
    assert_eq!(
        single_uniform_buffer_layout().validate(&bindings),
        Err(BindGroupError::SlotMismatch { position: 0 })
    );
}

#[test]
fn a_resource_of_another_kind_is_refused() {
    let layout = single_texture_layout();
    let swapped = vec![
        Binding { binding: 0, resource: BindingResource::Sampler { source: 0 } },
        Binding { binding: 1, resource: BindingResource::TextureView { source: 0 } },
    ];
    assert_eq!(layout.validate(&swapped), Err(BindGroupError::KindMismatch { position: 0 }));
    let half = vec![
        Binding { binding: 0, resource: BindingResource::TextureView { source: 0 } },
        Binding { binding: 1, resource: BindingResource::TextureView { source: 0 } },
    ];
    assert_eq!(layout.validate(&half), Err(BindGroupError::KindMismatch { position: 1 }));
    let buffer = uniform_buffer(16);
    let buffers = vec![buffer_binding(0, 0, &buffer, 16), buffer_binding(1, 0, &buffer, 16)];
    assert_eq!(layout.validate(&buffers), Err(BindGroupError::KindMismatch { position: 0 }));
    let texture = vec![Binding { binding: 0, resource: BindingResource::TextureView { source: 0 } }];
    assert_eq!(
        single_uniform_buffer_layout().validate(&texture),
        Err(BindGroupError::KindMismatch { position: 0 })
    );
}

#[test]
fn a_buffer_without_the_usage_of_its_slot_is_refused() {
    let storage = storage_buffer(16);
    assert_eq!(
        single_uniform_bind_group(&single_uniform_buffer_layout(), &storage, 16),
        Err(BindGroupError::UsageMismatch { position: 0 })
    );
    let layout = PbrLayout::new();
    let uniform = uniform_buffer(16);
    assert_eq!(
        layout.create_uniform_bind_group(&uniform, 16, &uniform, 16, &uniform, 16, &storage, 16),
        Err(BindGroupError::UsageMismatch { position: 2 })
    );
    let writable = Buffer::with_data(vec![0; 16], BufferUsage { storage: true, ..NO_USAGE });
    assert_eq!(
        layout.create_uniform_bind_group(&uniform, 16, &uniform, 16, &storage, 16, &writable, 16),
        Err(BindGroupError::UsageMismatch { position: 3 })
    );
}

#[test]
fn a_range_beyond_its_buffer_is_refused() {
    let buffer = uniform_buffer(100);
    assert_eq!(
        single_uniform_bind_group(&single_uniform_buffer_layout(), &buffer, 144),
        Err(BindGroupError::RangeMismatch { position: 0 })
    );
    assert!(single_uniform_bind_group(&single_uniform_buffer_layout(), &buffer, 100).is_ok());
}

#[test]
fn validation_accepts_what_creation_accepts() {
    let layout = BindGroupLayout { entries: vec![sampler_entry(7)], label: "one sampler" };
    let bindings = vec![Binding { binding: 7, resource: BindingResource::Sampler { source: 3 } }];
    assert_eq!(layout.validate(&bindings), Ok(()));
    let group = layout.create_bind_group(bindings.clone(), "group").unwrap();
    assert_eq!(group.bindings, bindings);
    assert_eq!(group.label, "group");
}

#[test]
fn pbr_uniform_group_binds_four_buffers_in_order() {
    let layout = PbrLayout::new();
    let mvp = uniform_buffer(144);
    let lights = uniform_buffer(144);
    let transforms = storage_buffer(49 * 64);
    let materials = storage_buffer(49 * 16);
    let group = layout
        .create_uniform_bind_group(&mvp, 144, &lights, 144, &transforms, 3136, &materials, 784)
        .unwrap();
    assert_eq!(group.label, "pbr_uniform_bind_group");
    assert_eq!(
        group.bindings,
        vec![
            buffer_binding(0, 0, &mvp, 144),
            buffer_binding(1, 1, &lights, 144),
            buffer_binding(2, 2, &transforms, 3136),
            buffer_binding(3, 3, &materials, 784),
        ]
    );
    assert_eq!(layout.uniforms().validate(&group.bindings), Ok(()));
}

#[test]
fn sized_buffers_refuse_other_lengths() {
    let usage = BufferUsage { uniform: true, ..NO_USAGE };
    let buffer = Buffer::with_sized_data(vec![9; 16], usage, 16).unwrap();
    assert_eq!(buffer.contents, vec![9; 16]);
    assert_eq!(buffer.usage, usage);
    assert_eq!(buffer.len(), 16);
    assert_eq!(
        Buffer::with_sized_data(vec![9; 15], usage, 16),
        Err(SizeMismatch { expected: 16, actual: 15 })
    );
    assert_eq!(
        Buffer::with_sized_data(Vec::new(), usage, 1),
        Err(SizeMismatch { expected: 1, actual: 0 })
    );
}

#[test]
fn attributes_are_packed_one_behind_the_other() {
    let attributes = vertex_attr_array(&[
        (0, VertexFormat::Float2),
        (3, VertexFormat::Float),
        (1, VertexFormat::Float4),
        (2, VertexFormat::Float3),
    ]);
    assert_eq!(
        attributes,
        vec![
            VertexAttributeDescriptor { offset: 0, format: VertexFormat::Float2, shader_location: 0 },
            VertexAttributeDescriptor { offset: 8, format: VertexFormat::Float, shader_location: 3 },
            VertexAttributeDescriptor { offset: 12, format: VertexFormat::Float4, shader_location: 1 },
            VertexAttributeDescriptor { offset: 28, format: VertexFormat::Float3, shader_location: 2 },
        ]
    );
    assert_eq!(vertex_attr_array(&[]), Vec::new());
    assert_eq!(VertexFormat::Float.byte_size(), 4);
    assert_eq!(VertexFormat::Float2.byte_size(), 8);
    assert_eq!(VertexFormat::Float3.byte_size(), 12);
    assert_eq!(VertexFormat::Float4.byte_size(), 16);
}

#[test]
fn vertex_layouts_of_the_three_kinds() {
    let plain = VertexPlain::desc();
    assert_eq!(plain.stride, 20);
    assert_eq!(plain.step_mode, InputStepMode::Vertex);
    assert_eq!(
        plain.attributes,
        vec![VertexAttributeDescriptor {
            offset: 0,
            format: VertexFormat::Float3,
            shader_location: 0
        }]
    );
    let tex = VertexTex::desc();
    assert_eq!(tex.stride, 20);
    assert_eq!(
        tex.attributes,
        vec![
            VertexAttributeDescriptor { offset: 0, format: VertexFormat::Float3, shader_location: 0 },
            VertexAttributeDescriptor { offset: 12, format: VertexFormat::Float2, shader_location: 1 },
        ]
    );
    let normal = VertexTexNormal::desc();
    assert_eq!(normal.stride, 32);
    assert_eq!(normal.step_mode, InputStepMode::Vertex);
    assert_eq!(
        normal.attributes,
        vec![
            VertexAttributeDescriptor { offset: 0, format: VertexFormat::Float3, shader_location: 0 },
            VertexAttributeDescriptor { offset: 12, format: VertexFormat::Float2, shader_location: 1 },
            VertexAttributeDescriptor { offset: 20, format: VertexFormat::Float3, shader_location: 2 },
        ]
    );
}
