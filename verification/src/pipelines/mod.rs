//! The rendering effects, and what they share: the one-buffer and
//! one-texture binding schemas and the reading of compiled shaders.

pub mod equirect;
pub mod pbr;
pub mod simple;

use crate::gpu::BindGroup;
use crate::gpu::BindGroupError;
use crate::gpu::BindGroupLayout;
use crate::gpu::BindGroupLayoutEntry;
use crate::gpu::Binding;
use crate::gpu::BindingResource;
use crate::gpu::BindingType;
use crate::gpu::Buffer;
use crate::gpu::BufferCopy;
use crate::gpu::BufferUsage;
use crate::gpu::ShaderStage;
use crate::gpu::TextureComponentType;
use crate::gpu::TextureViewDimension;
use crate::gpu::first_fault;
use crate::gpu::fits;
use crate::render::StagedCopy;
use crate::render::Submission;
use crate::render::whole_copy;
use crate::render_types::MVP_UNIFORMS_SIZE;
use crate::render_types::MvpUniforms;
use crate::shader::ShaderKind;
use crate::shader::SpirvError;
use crate::shader::is_spirv;
use crate::shader::read_spirv;
use crate::shader::spirv_words;
use vstd::prelude::*;

verus! {

/// A slot for a uniform buffer without dynamic offset.
pub open spec fn uniform_slot(binding: u32, visibility: ShaderStage) -> BindGroupLayoutEntry {
    BindGroupLayoutEntry { binding, visibility, ty: BindingType::UniformBuffer { dynamic: false } }
}

/// A slot for a storage buffer that shaders only read.
pub open spec fn storage_slot(binding: u32, visibility: ShaderStage) -> BindGroupLayoutEntry {
    BindGroupLayoutEntry {
        binding,
        visibility,
        ty: BindingType::StorageBuffer { dynamic: false, readonly: true },
    }
}

/// A slot for a two-dimensional texture that the fragment stage samples.
pub open spec fn texture_slot(binding: u32) -> BindGroupLayoutEntry {
    BindGroupLayoutEntry {
        binding,
        visibility: ShaderStage::fragment_only(),
        ty: BindingType::SampledTexture {
            dimension: TextureViewDimension::D2,
            component_type: TextureComponentType::Uint,
            multisampled: false,
        },
    }
}

/// A slot for a sampler of the fragment stage.
pub open spec fn sampler_slot(binding: u32) -> BindGroupLayoutEntry {
    BindGroupLayoutEntry {
        binding,
        visibility: ShaderStage::fragment_only(),
        ty: BindingType::Sampler { comparison: false },
    }
}

pub(crate) fn make_uniform_slot(binding: u32, visibility: ShaderStage) -> (slot:
    BindGroupLayoutEntry)
    ensures
        slot == uniform_slot(binding, visibility),
{
    BindGroupLayoutEntry { binding, visibility, ty: BindingType::UniformBuffer { dynamic: false } }
}

pub(crate) fn make_storage_slot(binding: u32, visibility: ShaderStage) -> (slot:
    BindGroupLayoutEntry)
    ensures
        slot == storage_slot(binding, visibility),
{
    BindGroupLayoutEntry {
        binding,
        visibility,
        ty: BindingType::StorageBuffer { dynamic: false, readonly: true },
    }
}

pub(crate) fn make_texture_slot(binding: u32) -> (slot: BindGroupLayoutEntry)
    ensures
        slot == texture_slot(binding),
{
    BindGroupLayoutEntry {
        binding,
        visibility: ShaderStage { vertex: false, fragment: true, compute: false },
        ty: BindingType::SampledTexture {
            dimension: TextureViewDimension::D2,
            component_type: TextureComponentType::Uint,
            multisampled: false,
        },
    }
}

pub(crate) fn make_sampler_slot(binding: u32) -> (slot: BindGroupLayoutEntry)
    ensures
        slot == sampler_slot(binding),
{
    BindGroupLayoutEntry {
        binding,
        visibility: ShaderStage { vertex: false, fragment: true, compute: false },
        ty: BindingType::Sampler { comparison: false },
    }
}

/// Set 0 of the textured and the environment effect: the camera block at
/// slot 0, for the vertex stage.
pub open spec fn single_uniform_entries() -> Seq<BindGroupLayoutEntry> {
    seq![uniform_slot(0, ShaderStage::vertex_only())]
}

/// Set 1 of the textured and the environment effect: a texture at slot 0
/// and its sampler at slot 1.
pub open spec fn single_texture_entries() -> Seq<BindGroupLayoutEntry> {
    seq![texture_slot(0), sampler_slot(1)]
}

/// The schema of set 0 of the textured and the environment effect.
pub fn single_uniform_buffer_layout() -> (layout: BindGroupLayout)
    ensures
        layout.entries@ == single_uniform_entries(),
        layout.label@ == "uniform_bind_group_layout"@,
{
    let mut entries: Vec<BindGroupLayoutEntry> = Vec::new();
    entries.push(
        make_uniform_slot(0, ShaderStage { vertex: true, fragment: false, compute: false }),
    );
    BindGroupLayout { entries, label: "uniform_bind_group_layout" }
}

/// The schema of set 1 of the textured and the environment effect.
pub fn single_texture_layout() -> (layout: BindGroupLayout)
    ensures
        layout.entries@ == single_texture_entries(),
        layout.label@ == "single_texture_bg_layout"@,
{
    let mut entries: Vec<BindGroupLayoutEntry> = Vec::new();
    entries.push(make_texture_slot(0));
    entries.push(make_sampler_slot(1));
    BindGroupLayout { entries, label: "single_texture_bg_layout" }
}

/// The bindings of one texture: its view at slot 0, its sampler at slot 1.
pub open spec fn single_texture_bindings() -> Seq<Binding> {
    seq![
        Binding { binding: 0, resource: BindingResource::TextureView { source: 0 } },
        Binding { binding: 1, resource: BindingResource::Sampler { source: 0 } },
    ]
}

/// Binds one texture and its sampler against `layout`.
pub fn single_texture_bind_group(layout: &BindGroupLayout) -> (outcome: Result<
    BindGroup,
    BindGroupError,
>)
    ensures
        outcome is Ok <==> fits(layout.entries@, single_texture_bindings()),
        outcome matches Ok(group) ==> group.bindings@ == single_texture_bindings() && group.label@
            == "bind_group"@,
        outcome matches Err(e) ==> first_fault(layout.entries@, single_texture_bindings()) == Some(
            e,
        ),
{
    let mut bindings: Vec<Binding> = Vec::new();
    bindings.push(Binding { binding: 0, resource: BindingResource::TextureView { source: 0 } });
    bindings.push(Binding { binding: 1, resource: BindingResource::Sampler { source: 0 } });
    assert(bindings@ =~= single_texture_bindings());
    layout.create_bind_group(bindings, "bind_group")
}

/// The binding of the first `size` bytes of buffer number `source`.
pub open spec fn buffer_binding(binding: u32, source: usize, buffer: &Buffer, size: usize)
    -> Binding {
    Binding {
        binding,
        resource: BindingResource::Buffer {
            source,
            usage: buffer.usage,
            size: buffer.size() as u64,
            start: 0,
            end: size as u64,
        },
    }
}

pub(crate) fn make_buffer_binding(binding: u32, source: usize, buffer: &Buffer, size: usize) -> (b:
    Binding)
    ensures
        b == buffer_binding(binding, source, buffer, size),
{
    Binding {
        binding,
        resource: BindingResource::Buffer {
            source,
            usage: buffer.usage,
            size: buffer.len() as u64,
            start: 0,
            end: size as u64,
        },
    }
}

/// The binding of the first `size` bytes of one buffer at slot 0.
pub open spec fn single_uniform_bindings(buffer: &Buffer, size: usize) -> Seq<Binding> {
    seq![buffer_binding(0, 0, buffer, size)]
}

/// Binds the first `size` bytes of `uniform_buffer` against `layout`.
pub fn single_uniform_bind_group(layout: &BindGroupLayout, uniform_buffer: &Buffer, size: usize)
    -> (outcome: Result<BindGroup, BindGroupError>)
    ensures
        outcome is Ok <==> fits(layout.entries@, single_uniform_bindings(uniform_buffer, size)),
        outcome matches Ok(group) ==> group.bindings@ == single_uniform_bindings(
            uniform_buffer,
            size,
        ) && group.label@ == "uniform_bind_group"@,
        outcome matches Err(e) ==> first_fault(
            layout.entries@,
            single_uniform_bindings(uniform_buffer, size),
        ) == Some(e),
{
    let mut bindings: Vec<Binding> = Vec::new();
    bindings.push(make_buffer_binding(0, 0, uniform_buffer, size));
    assert(bindings@ =~= single_uniform_bindings(uniform_buffer, size));
    layout.create_bind_group(bindings, "uniform_bind_group")
}

/// The pipeline layout of the textured and the environment effect: the
/// uniforms as set 0 and the texture as set 1.
pub open spec fn textured_sets(sets: Seq<BindGroupLayout>) -> bool {
    &&& sets.len() == 2
    &&& sets[0].entries@ == single_uniform_entries()
    &&& sets[0].label@ == "uniform_bind_group_layout"@
    &&& sets[1].entries@ == single_texture_entries()
    &&& sets[1].label@ == "single_texture_bg_layout"@
}

/// A buffer for the camera block `uniforms` and its bind group against
/// the one-buffer schema.
pub(crate) fn camera_buffer(layout: &BindGroupLayout, uniforms: &MvpUniforms) -> (created: (
    Buffer,
    BindGroup,
))
    requires
        layout.entries@ == single_uniform_entries(),
    ensures
        created.0.contents@ == uniforms.bytes(),
        created.0.usage == BufferUsage::uniform_target(),
        created.1.bindings@ == single_uniform_bindings(&created.0, MVP_UNIFORMS_SIZE),
        created.1.label@ == "uniform_bind_group"@,
        fits(layout.entries@, created.1.bindings@),
{
    let buffer = Buffer::with_data(
        uniforms.to_vec(),
        BufferUsage {
            copy_src: false,
            copy_dst: true,
            index: false,
            vertex: false,
            uniform: true,
            storage: false,
            storage_read: false,
        },
    );
    let group = match single_uniform_bind_group(layout, &buffer, MVP_UNIFORMS_SIZE) {
        Ok(group) => group,
        Err(_) => {
            proof {
                let bindings = single_uniform_bindings(&buffer, MVP_UNIFORMS_SIZE);
                assert(crate::gpu::binding_fault(layout.entries@[0], bindings[0], 0) is None);
                assert(fits(layout.entries@, bindings));
            }
            vstd::pervasive::unreached()
        },
    };
    (buffer, group)
}

/// The bind group of one texture against the one-texture schema.
pub(crate) fn texture_group(layout: &BindGroupLayout) -> (group: BindGroup)
    requires
        layout.entries@ == single_texture_entries(),
    ensures
        group.bindings@ == single_texture_bindings(),
        group.label@ == "bind_group"@,
        fits(layout.entries@, group.bindings@),
{
    match single_texture_bind_group(layout) {
        Ok(group) => group,
        Err(_) => {
            proof {
                let bindings = single_texture_bindings();
                assert(crate::gpu::binding_fault(layout.entries@[0], bindings[0], 0) is None);
                assert(crate::gpu::binding_fault(layout.entries@[1], bindings[1], 1) is None);
                assert(fits(layout.entries@, bindings));
            }
            vstd::pervasive::unreached()
        },
    }
}

/// The upload of the camera block `uniforms` in an encoder of its own.
pub open spec fn is_camera_update(update: Submission, uniforms: &MvpUniforms) -> bool {
    &&& update.label@ == "update encoder"@
    &&& update.staged.staging.contents@ == uniforms.bytes()
    &&& update.staged.staging.usage == BufferUsage::staging()
    &&& update.staged.copy == whole_copy(MVP_UNIFORMS_SIZE as nat)
}

pub(crate) fn camera_update(uniforms: &MvpUniforms) -> (update: Submission)
    ensures
        is_camera_update(update, uniforms),
{
    let staging = Buffer::with_data(
        uniforms.to_vec(),
        BufferUsage {
            copy_src: true,
            copy_dst: false,
            index: false,
            vertex: false,
            uniform: false,
            storage: false,
            storage_read: false,
        },
    );
    Submission {
        label: "update encoder",
        staged: StagedCopy {
            staging,
            copy: BufferCopy {
                source_offset: 0,
                destination_offset: 0,
                size: MVP_UNIFORMS_SIZE as u64,
            },
        },
    }
}

/// A compiled shader that could not be read, and its stage.
#[derive(Clone, Copy, Debug, PartialEq, Eq, Structural)]
pub struct ModuleError {
    pub kind: ShaderKind,
    pub fault: SpirvError,
}

/// The error for two compiled shaders of which one cannot be read: the
/// vertex shader's if it has one, else the fragment shader's.
pub open spec fn is_module_error(e: ModuleError, vs_binary: Seq<u8>, fs_binary: Seq<u8>) -> bool {
    let (kind, bytes) = if is_spirv(vs_binary) {
        (ShaderKind::Fragment, fs_binary)
    } else {
        (ShaderKind::Vertex, vs_binary)
    };
    &&& e.kind == kind
    &&& e.fault == (if bytes.len() % 4 != 0 {
        SpirvError::Misaligned
    } else {
        SpirvError::MissingMagic
    })
}

/// Reads the compiled vertex and fragment shader of one effect into the
/// words of its two shader modules. The vertex shader is read first.
pub fn compile_modules(vs_binary: &[u8], fs_binary: &[u8]) -> (outcome: Result<
    (Vec<u32>, Vec<u32>),
    ModuleError,
>)
    ensures
        outcome is Ok <==> is_spirv(vs_binary@) && is_spirv(fs_binary@),
        outcome matches Ok(modules) ==> modules.0@ == spirv_words(vs_binary@) && modules.1@
            == spirv_words(fs_binary@),
        outcome matches Err(e) ==> is_module_error(e, vs_binary@, fs_binary@),
{
    let vs_module = match read_spirv(vs_binary) {
        Ok(words) => words,
        Err(fault) => {
            return Err(ModuleError { kind: ShaderKind::Vertex, fault });
        },
    };
    match read_spirv(fs_binary) {
        Ok(fs_module) => Ok((vs_module, fs_module)),
        Err(fault) => Err(ModuleError { kind: ShaderKind::Fragment, fault }),
    }
}

} // verus!
