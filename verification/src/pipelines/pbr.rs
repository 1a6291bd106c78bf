//! The physically based effect: a grid of spheres, drawn instanced, whose
//! material varies from sphere to sphere.

use crate::geometry::Geometry;
use crate::geometry::SPHERE_INDICES;
use crate::geometry::SPHERE_VERTICES;
use crate::geometry::encodes;
use crate::geometry::strip_indices;
use crate::gpu::BindGroup;
use crate::gpu::BindGroupError;
use crate::gpu::BindGroupLayout;
use crate::gpu::BindGroupLayoutEntry;
use crate::gpu::Binding;
use crate::gpu::BindingResource;
use crate::gpu::Buffer;
use crate::gpu::BufferCopy;
use crate::gpu::BufferUsage;
use crate::gpu::ShaderStage;
use crate::gpu::SizeMismatch;
use crate::gpu::first_fault;
use crate::gpu::fits;
use crate::pipelines::ModuleError;
use crate::pipelines::buffer_binding;
use crate::pipelines::compile_modules;
use crate::pipelines::make_buffer_binding;
use crate::pipelines::make_sampler_slot;
use crate::pipelines::make_storage_slot;
use crate::pipelines::make_texture_slot;
use crate::pipelines::make_uniform_slot;
use crate::pipelines::sampler_slot;
use crate::pipelines::storage_slot;
use crate::pipelines::texture_slot;
use crate::pipelines::uniform_slot;
use crate::ratio::Ratio;
use crate::ratio::clamped;
use crate::render::Color;
use crate::render::ColorAttachment;
use crate::render::DepthStencilAttachment;
use crate::render::DepthStencilStateDescriptor;
use crate::render::Frame;
use crate::render::FrontFace;
use crate::render::LoadOp;
use crate::render::PrimitiveTopology;
use crate::render::Render;
use crate::render::RenderCommand;
use crate::render::RenderPass;
use crate::render::RenderPipeline;
use crate::render::StagedCopy;
use crate::render::StoreOp;
use crate::render::draw_commands;
use crate::render::effect_state;
use crate::render::make_effect_state;
use crate::render::record_draw;
use crate::render::whole_copy;
use crate::render_types::InputStepMode;
use crate::render_types::MATERIAL_INFO_RAW_SIZE;
use crate::render_types::MVP_UNIFORMS_SIZE;
use crate::render_types::MaterialInfoRaw;
use crate::render_types::MvpUniforms;
use crate::render_types::PBR_FRAGMENT_UNIFORMS_SIZE;
use crate::render_types::PbrFragmentUniforms;
use crate::render_types::TRANSFORM_RAW_SIZE;
use crate::render_types::TransformRaw;
use crate::render_types::VertexDesc;
use crate::render_types::VERTEX_TEX_NORMAL_SIZE;
use crate::render_types::Vec4;
use crate::render_types::VertexTexNormal;
use crate::render_types::packed_attributes;
use crate::shader::ShaderKind;
use crate::shader::ShaderRequest;
use crate::shader::is_spirv;
use crate::shader::shader_request;
use crate::shader::spirv_words;
use crate::shader::stage_suffix;
use crate::texture::SwapChainDescriptor;
use crate::texture::Texture;
use crate::texture::TextureUsage;
use crate::texture::depth_format;
use vstd::prelude::*;
use vstd::string::*;

verus! {

/// Raises `value` to `min` if it is below, then lowers it to `max` if it is
/// above.
pub fn clamp(value: Ratio, min: Ratio, max: Ratio) -> (x: Ratio)
    ensures
        x == clamped(value, min, max),
{
    let mut x = value;
    if x.less_than(&min) {
        x = min;
    }
    if max.less_than(&x) {
        x = max;
    }
    x
}

/// The textures of a material, one for each channel.
#[derive(Clone, Copy, Debug, PartialEq, Eq)]
pub struct Material {
    pub albedo: Texture,
    pub roughness: Texture,
    pub ambient_occlusion: Texture,
    pub normals: Texture,
    pub metallic: Texture,
}

/// The channels of a material, in the order in which bindings count them.
#[derive(Clone, Copy, Debug, PartialEq, Eq, Structural)]
pub enum MaterialChannel {
    Albedo,
    Roughness,
    AmbientOcclusion,
    Normals,
    Metallic,
}

impl MaterialChannel {
    /// The number by which a binding names the texture of this channel.
    pub open spec fn source(self) -> usize {
        match self {
            MaterialChannel::Albedo => 0,
            MaterialChannel::Roughness => 1,
            MaterialChannel::AmbientOcclusion => 2,
            MaterialChannel::Normals => 3,
            MaterialChannel::Metallic => 4,
        }
    }

    /// The number by which a binding names the texture of this channel.
    pub fn index(self) -> (n: usize)
        ensures
            n == self.source(),
    {
        match self {
            MaterialChannel::Albedo => 0,
            MaterialChannel::Roughness => 1,
            MaterialChannel::AmbientOcclusion => 2,
            MaterialChannel::Normals => 3,
            MaterialChannel::Metallic => 4,
        }
    }

    /// The part of the file name that tells the channel.
    pub open spec fn file_tag(self) -> Seq<char> {
        match self {
            MaterialChannel::Albedo => "albedo"@,
            MaterialChannel::Roughness => "roughness"@,
            MaterialChannel::AmbientOcclusion => "ao"@,
            MaterialChannel::Normals => "normal-dx"@,
            MaterialChannel::Metallic => "metallic"@,
        }
    }
}

/// An image file of the material and how its texels are to be taken.
#[derive(Clone, Debug, PartialEq, Eq)]
pub struct TextureAsset {
    pub channel: MaterialChannel,
    pub path: String,
    pub is_normal_map: bool,
}

/// The asset of one channel.
pub open spec fn is_channel_asset(asset: TextureAsset, channel: MaterialChannel) -> bool {
    &&& asset.channel == channel
    &&& asset.path@ == "res/steelplate1/steelplate1_"@ + channel.file_tag() + ".png"@
    &&& asset.is_normal_map == (channel == MaterialChannel::Normals)
}

/// The order in which the images of the material are loaded.
pub open spec fn load_order() -> Seq<MaterialChannel> {
    seq![
        MaterialChannel::Albedo,
        MaterialChannel::Roughness,
        MaterialChannel::Metallic,
        MaterialChannel::Normals,
        MaterialChannel::AmbientOcclusion,
    ]
}

fn channel_asset(channel: MaterialChannel) -> (asset: TextureAsset)
    ensures
        is_channel_asset(asset, channel),
{
    let tag = match channel {
        MaterialChannel::Albedo => "albedo",
        MaterialChannel::Roughness => "roughness",
        MaterialChannel::AmbientOcclusion => "ao",
        MaterialChannel::Normals => "normal-dx",
        MaterialChannel::Metallic => "metallic",
    };
    let path = String::from_str("res/steelplate1/steelplate1_").concat(tag).concat(".png");
    let is_normal_map = match channel {
        MaterialChannel::Normals => true,
        _ => false,
    };
    TextureAsset { channel, path, is_normal_map }
}

/// The image files of the material, in the order in which they are
/// loaded. Only the normal map is taken as it is.
pub fn material_assets() -> (assets: Vec<TextureAsset>)
    ensures
        assets@.len() == load_order().len(),
        forall|i: int|
            0 <= i < assets@.len() ==> is_channel_asset(#[trigger] assets@[i], load_order()[i]),
{
    let mut assets: Vec<TextureAsset> = Vec::new();
    assets.push(channel_asset(MaterialChannel::Albedo));
    assets.push(channel_asset(MaterialChannel::Roughness));
    assets.push(channel_asset(MaterialChannel::Metallic));
    assets.push(channel_asset(MaterialChannel::Normals));
    assets.push(channel_asset(MaterialChannel::AmbientOcclusion));
    assets
}

/// The file of the environment map.
pub fn environment_asset() -> (path: &'static str)
    ensures
        path@ == "res/Subway_Lights/20_Subway_Lights_3k.hdr"@,
{
    "res/Subway_Lights/20_Subway_Lights_3k.hdr"
}

/// Set 0 of the effect: the camera block for both stages, the lighting
/// block for the fragment stage, the instance transforms for the vertex
/// stage and the instance materials for the fragment stage.
pub open spec fn uniform_entries() -> Seq<BindGroupLayoutEntry> {
    seq![
        uniform_slot(0, ShaderStage::vertex_and_fragment()),
        uniform_slot(1, ShaderStage::fragment_only()),
        storage_slot(2, ShaderStage::vertex_only()),
        storage_slot(3, ShaderStage::fragment_only()),
    ]
}

/// Set 1 of the effect: four pairs of a texture and its sampler, the
/// texture at the even slot.
pub open spec fn texture_entries() -> Seq<BindGroupLayoutEntry> {
    Seq::new(
        8,
        |i: int|
            if i % 2 == 0 {
                texture_slot(i as u32)
            } else {
                sampler_slot(i as u32)
            },
    )
}

/// The channels that set 1 binds, pair by pair. The metallic texture is
/// part of the material but of no binding.
pub open spec fn bound_channels() -> Seq<MaterialChannel> {
    seq![
        MaterialChannel::Albedo,
        MaterialChannel::Roughness,
        MaterialChannel::AmbientOcclusion,
        MaterialChannel::Normals,
    ]
}

/// The bindings of set 1: at slot `2 * n` the view of the texture of the
/// `n`-th bound channel, at slot `2 * n + 1` its sampler.
pub open spec fn texture_bindings() -> Seq<Binding> {
    Seq::new(
        8,
        |i: int|
            Binding {
                binding: i as u32,
                resource: if i % 2 == 0 {
                    BindingResource::TextureView { source: bound_channels()[i / 2].source() }
                } else {
                    BindingResource::Sampler { source: bound_channels()[i / 2].source() }
                },
            },
    )
}

/// The bindings of set 0: at slot `n` the first bytes of the `n`-th of
/// the four buffers, as many as the size that comes with it says.
pub open spec fn uniform_bindings(
    mvp_buffer: &Buffer,
    mvp_size: usize,
    pbr_fs_buffer: &Buffer,
    pbr_fs_size: usize,
    transforms_buffer: &Buffer,
    transforms_size: usize,
    material_info_buffer: &Buffer,
    material_info_size: usize,
) -> Seq<Binding> {
    seq![
        buffer_binding(0, 0, mvp_buffer, mvp_size),
        buffer_binding(1, 1, pbr_fs_buffer, pbr_fs_size),
        buffer_binding(2, 2, transforms_buffer, transforms_size),
        buffer_binding(3, 3, material_info_buffer, material_info_size),
    ]
}

/// The pipeline layout of the effect: the uniforms as set 0 and the
/// textures as set 1.
pub open spec fn is_pbr_sets(sets: Seq<BindGroupLayout>) -> bool {
    &&& sets.len() == 2
    &&& sets[0].entries@ == uniform_entries()
    &&& sets[0].label@ == "uniform_bind_group_layout"@
    &&& sets[1].entries@ == texture_entries()
    &&& sets[1].label@ == "texture_bind_group_layout"@
}

/// The binding schemas of the effect.
pub struct PbrLayout {
    texture_layout: BindGroupLayout,
    uniform_layout: BindGroupLayout,
    pipeline_layout: Vec<BindGroupLayout>,
}

impl PbrLayout {
    #[verifier::type_invariant]
    spec fn well_formed(self) -> bool {
        &&& self.texture_layout.entries@ == texture_entries()
        &&& self.texture_layout.label@ == "texture_bind_group_layout"@
        &&& self.uniform_layout.entries@ == uniform_entries()
        &&& self.uniform_layout.label@ == "uniform_bind_group_layout"@
        &&& is_pbr_sets(self.pipeline_layout@)
    }

    /// The schema of set 1.
    pub fn texture_layout() -> (layout: BindGroupLayout)
        ensures
            layout.entries@ == texture_entries(),
            layout.label@ == "texture_bind_group_layout"@,
    {
        let mut entries: Vec<BindGroupLayoutEntry> = Vec::new();
        let mut pair: u32 = 0;
        while pair < 4
            invariant
                pair <= 4,
                entries@ == texture_entries().subrange(0, 2 * pair),
            decreases 4 - pair,
        {
            entries.push(make_texture_slot(2 * pair));
            entries.push(make_sampler_slot(2 * pair + 1));
            assert(entries@ =~= texture_entries().subrange(0, 2 * (pair + 1)));
            pair += 1;
        }
        assert(entries@ =~= texture_entries());
        BindGroupLayout { entries, label: "texture_bind_group_layout" }
    }

    /// The schema of set 0.
    pub fn uniform_layout() -> (layout: BindGroupLayout)
        ensures
            layout.entries@ == uniform_entries(),
            layout.label@ == "uniform_bind_group_layout"@,
    {
        let mut entries: Vec<BindGroupLayoutEntry> = Vec::new();
        entries.push(
            make_uniform_slot(0, ShaderStage { vertex: true, fragment: true, compute: false }),
        );
        entries.push(
            make_uniform_slot(1, ShaderStage { vertex: false, fragment: true, compute: false }),
        );
        entries.push(
            make_storage_slot(2, ShaderStage { vertex: true, fragment: false, compute: false }),
        );
        entries.push(
            make_storage_slot(3, ShaderStage { vertex: false, fragment: true, compute: false }),
        );
        assert(entries@ =~= uniform_entries());
        BindGroupLayout { entries, label: "uniform_bind_group_layout" }
    }

    /// The sets of the pipeline layout: the uniforms as set 0 and the
    /// textures as set 1.
    pub closed spec fn pipeline_sets(&self) -> Seq<BindGroupLayout> {
        self.pipeline_layout@
    }

    /// The two schemas, and the pipeline layout that has the uniforms as
    /// set 0 and the textures as set 1.
    pub fn new() -> (layout: PbrLayout)
        ensures
            is_pbr_sets(layout.pipeline_sets()),
    {
        let mut pipeline_layout: Vec<BindGroupLayout> = Vec::new();
        pipeline_layout.push(PbrLayout::uniform_layout());
        pipeline_layout.push(PbrLayout::texture_layout());
        PbrLayout {
            texture_layout: PbrLayout::texture_layout(),
            uniform_layout: PbrLayout::uniform_layout(),
            pipeline_layout,
        }
    }

    /// The schema of set 1 of this layout.
    pub fn textures(&self) -> (layout: &BindGroupLayout)
        ensures
            layout.entries@ == texture_entries(),
            layout.label@ == "texture_bind_group_layout"@,
    {
        proof {
            use_type_invariant(self);
        }
        &self.texture_layout
    }

    /// The schema of set 0 of this layout.
    pub fn uniforms(&self) -> (layout: &BindGroupLayout)
        ensures
            layout.entries@ == uniform_entries(),
            layout.label@ == "uniform_bind_group_layout"@,
    {
        proof {
            use_type_invariant(self);
        }
        &self.uniform_layout
    }

    /// The sets of the pipeline layout, in order.
    pub fn sets(&self) -> (sets: &Vec<BindGroupLayout>)
        ensures
            sets@ == self.pipeline_sets(),
            is_pbr_sets(sets@),
    {
        proof {
            use_type_invariant(self);
        }
        &self.pipeline_layout
    }

    /// Binds the four buffers of set 0, each from its start over the given
    /// size. The camera and the lighting buffer have to be uniform
    /// buffers, the other two read-only storage buffers, and each size has
    /// to lie within its buffer.
    pub fn create_uniform_bind_group(
        &self,
        mvp_buffer: &Buffer,
        mvp_size: usize,
        pbr_fs_buffer: &Buffer,
        pbr_fs_size: usize,
        transforms_buffer: &Buffer,
        transforms_size: usize,
        material_info_buffer: &Buffer,
        material_info_size: usize,
    ) -> (outcome: Result<BindGroup, BindGroupError>)
        ensures
            outcome is Ok <==> fits(
                uniform_entries(),
                uniform_bindings(
                    mvp_buffer,
                    mvp_size,
                    pbr_fs_buffer,
                    pbr_fs_size,
                    transforms_buffer,
                    transforms_size,
                    material_info_buffer,
                    material_info_size,
                ),
            ),
            outcome matches Ok(group) ==> group.bindings@ == uniform_bindings(
                mvp_buffer,
                mvp_size,
                pbr_fs_buffer,
                pbr_fs_size,
                transforms_buffer,
                transforms_size,
                material_info_buffer,
                material_info_size,
            ) && group.label@ == "pbr_uniform_bind_group"@,
            outcome matches Err(e) ==> first_fault(
                uniform_entries(),
                uniform_bindings(
                    mvp_buffer,
                    mvp_size,
                    pbr_fs_buffer,
                    pbr_fs_size,
                    transforms_buffer,
                    transforms_size,
                    material_info_buffer,
                    material_info_size,
                ),
            ) == Some(e),
    {
        proof {
            use_type_invariant(self);
        }
        let mut bindings: Vec<Binding> = Vec::new();
        bindings.push(make_buffer_binding(0, 0, mvp_buffer, mvp_size));
        bindings.push(make_buffer_binding(1, 1, pbr_fs_buffer, pbr_fs_size));
        bindings.push(make_buffer_binding(2, 2, transforms_buffer, transforms_size));
        bindings.push(make_buffer_binding(3, 3, material_info_buffer, material_info_size));
        assert(bindings@ =~= uniform_bindings(
            mvp_buffer,
            mvp_size,
            pbr_fs_buffer,
            pbr_fs_size,
            transforms_buffer,
            transforms_size,
            material_info_buffer,
            material_info_size,
        ));
        self.uniform_layout.create_bind_group(bindings, "pbr_uniform_bind_group")
    }

    /// Binds the textures of `material` to set 1: albedo, roughness,
    /// ambient occlusion and normals, each with its sampler.
    pub fn create_texture_bind_group(&self, material: &Material) -> (group: BindGroup)
        ensures
            group.bindings@ == texture_bindings(),
            group.label@ == "bind_group"@,
            fits(texture_entries(), group.bindings@),
    {
        let mut bindings: Vec<Binding> = Vec::new();
        let channels = [
            MaterialChannel::Albedo,
            MaterialChannel::Roughness,
            MaterialChannel::AmbientOcclusion,
            MaterialChannel::Normals,
        ];
        assert(channels@ =~= bound_channels());
        let mut pair: usize = 0;
        while pair < 4
            invariant
                pair <= 4,
                channels@ == bound_channels(),
                bindings@ == texture_bindings().subrange(0, 2 * pair),
            decreases 4 - pair,
        {
            let source = channels[pair].index();
            bindings.push(
                Binding {
                    binding: 2 * (pair as u32),
                    resource: BindingResource::TextureView { source },
                },
            );
            bindings.push(
                Binding {
                    binding: 2 * (pair as u32) + 1,
                    resource: BindingResource::Sampler { source },
                },
            );
            assert(bindings@ =~= texture_bindings().subrange(0, 2 * (pair + 1)));
            pair += 1;
        }
        assert(bindings@ =~= texture_bindings());
        proof {
            texture_bindings_fit();
        }
        BindGroup { bindings, label: "bind_group" }
    }

    /// The pipeline of the effect for a surface: the sphere's strip with
    /// clockwise front faces, depth-tested, over vertices with texture
    /// coordinate and normal.
    pub fn create_render_pipeline(
        &self,
        sc_desc: &SwapChainDescriptor,
        vs_module: Vec<u32>,
        fs_module: Vec<u32>,
    ) -> (pipeline: RenderPipeline)
        ensures
            is_pbr_pipeline(pipeline, sc_desc, vs_module@, fs_module@),
    {
        let mut layout: Vec<BindGroupLayout> = Vec::new();
        layout.push(PbrLayout::uniform_layout());
        layout.push(PbrLayout::texture_layout());
        RenderPipeline {
            layout,
            vertex_module: vs_module,
            fragment_module: fs_module,
            entry_point: "main",
            state: make_effect_state(
                sc_desc.format,
                FrontFace::Cw,
                PrimitiveTopology::TriangleStrip,
                true,
            ),
            vertex_buffer: VertexTexNormal::desc(),
        }
    }
}

/// Every binding of set 1 names the texture of a channel of the material,
/// and none of them the metallic texture.
pub proof fn metallic_is_not_bound(i: int)
    requires
        0 <= i < 8,
    ensures
        match texture_bindings()[i].resource {
            BindingResource::TextureView { source } | BindingResource::Sampler { source } => source
                < 5 && source != MaterialChannel::Metallic.source(),
            BindingResource::Buffer { .. } => false,
        },
{
    let channel = bound_channels()[i / 2];
    assert(channel.source() < 4);
}

/// The bindings that `create_texture_bind_group` makes fill set 1.
pub proof fn texture_bindings_fit()
    ensures
        fits(texture_entries(), texture_bindings()),
{
    assert forall|i: int| 0 <= i < 8 implies (#[trigger] crate::gpu::binding_fault(
        texture_entries()[i],
        texture_bindings()[i],
        i as usize,
    )) is None by {}
}

/// The pipeline of the effect for the surface `sc_desc`, made of the given
/// shader modules.
pub open spec fn is_pbr_pipeline(
    pipeline: RenderPipeline,
    sc_desc: &SwapChainDescriptor,
    vs_module: Seq<u32>,
    fs_module: Seq<u32>,
) -> bool {
    &&& is_pbr_sets(pipeline.layout@)
    &&& pipeline.vertex_module@ == vs_module
    &&& pipeline.fragment_module@ == fs_module
    &&& pipeline.entry_point@ == "main"@
    &&& pipeline.state == effect_state(
        sc_desc.format,
        FrontFace::Cw,
        PrimitiveTopology::TriangleStrip,
        Some(DepthStencilStateDescriptor::nearer_wins(depth_format())),
    )
    &&& pipeline.vertex_buffer.stride == VERTEX_TEX_NORMAL_SIZE
    &&& pipeline.vertex_buffer.step_mode == InputStepMode::Vertex
    &&& pipeline.vertex_buffer.attributes@ == packed_attributes(VertexTexNormal::formats())
}

/// The effect: its compiled pipeline and its binding schemas.
pub struct Pbr {
    pub pipeline: RenderPipeline,
    pub layout: PbrLayout,
}

impl Pbr {
    /// The two compilations of the effect.
    pub fn shader_requests<'a>(vs_src: &'a str, fs_src: &'a str) -> (requests: (
        ShaderRequest<'a>,
        ShaderRequest<'a>,
    ))
        ensures
            requests.0.source@ == vs_src@,
            requests.0.kind == ShaderKind::Vertex,
            requests.0.file_name@ == "pbr"@ + stage_suffix(ShaderKind::Vertex),
            requests.0.entry_point@ == "main"@,
            requests.1.source@ == fs_src@,
            requests.1.kind == ShaderKind::Fragment,
            requests.1.file_name@ == "pbr"@ + stage_suffix(ShaderKind::Fragment),
            requests.1.entry_point@ == "main"@,
    {
        (
            shader_request(vs_src, ShaderKind::Vertex, "pbr"),
            shader_request(fs_src, ShaderKind::Fragment, "pbr"),
        )
    }

    /// Builds the effect for a surface from its two compiled shaders.
    pub fn new(sc_desc: &SwapChainDescriptor, vs_binary: &[u8], fs_binary: &[u8]) -> (outcome:
        Result<Pbr, ModuleError>)
        ensures
            outcome is Ok <==> is_spirv(vs_binary@) && is_spirv(fs_binary@),
            outcome matches Ok(effect) ==> is_pbr_pipeline(
                effect.pipeline,
                sc_desc,
                spirv_words(vs_binary@),
                spirv_words(fs_binary@),
            ) && is_pbr_sets(effect.layout.pipeline_sets()),
            outcome matches Err(e) ==> crate::pipelines::is_module_error(e, vs_binary@, fs_binary@),
    {
        let (vs_module, fs_module) = match compile_modules(vs_binary, fs_binary) {
            Ok(modules) => modules,
            Err(e) => {
                return Err(e);
            },
        };
        let layout = PbrLayout::new();
        let pipeline = layout.create_render_pipeline(sc_desc, vs_module, fs_module);
        Ok(Pbr { layout, pipeline })
    }
}

/// The rows of the instance grid.
pub const ROWS: i32 = 7;

/// The columns of the instance grid.
pub const COLS: i32 = 7;

/// The instances of the grid.
pub const INSTANCES: usize = 49;

/// The transform of the instance in row `row` and column `col`: the grid
/// is centred on the origin of the plane `z = 0`, and neighbours are five
/// halves apart.
pub open spec fn instance_transform(row: int, col: int) -> TransformRaw {
    TransformRaw {
        x: Ratio { num: ((col - 3) * 5) as i32, den: 2 },
        y: Ratio { num: ((row - 3) * 5) as i32, den: 2 },
        z: Ratio::whole(0),
    }
}

/// The material of the instance in row `row` and column `col`: the
/// metallic value grows with the row in sevenths, the roughness grows with
/// the column in sevenths but is at least a twentieth and at most one, and
/// the ambient occlusion is one.
pub open spec fn instance_material(row: int, col: int) -> MaterialInfoRaw {
    MaterialInfoRaw {
        metallic: Ratio { num: row as i32, den: 7 },
        roughness: clamped(
            Ratio { num: col as i32, den: 7 },
            Ratio { num: 1, den: 20 },
            Ratio::whole(1),
        ),
        ambient_occlusion: Ratio::whole(1),
        padding: Ratio::whole(0),
    }
}

/// The transforms of the grid, row by row.
pub open spec fn grid_transforms() -> Seq<TransformRaw> {
    Seq::new(49, |k: int| instance_transform(k / 7, k % 7))
}

/// The materials of the grid, row by row.
pub open spec fn grid_materials() -> Seq<MaterialInfoRaw> {
    Seq::new(49, |k: int| instance_material(k / 7, k % 7))
}

/// The grid has 49 instances. All instances of a row have the metallic
/// value of the row, which is the row's number in sevenths. The roughness
/// of an instance is its column's number in sevenths, but a twentieth in
/// column 0; it is never below a twentieth and never above one.
pub proof fn grid_properties(k: int)
    requires
        0 <= k < 49,
    ensures
        grid_transforms().len() == 49,
        grid_materials().len() == 49,
        grid_materials()[k].metallic == (Ratio { num: (k / 7) as i32, den: 7 }),
        grid_materials()[k].roughness == (if k % 7 == 0 {
            Ratio { num: 1, den: 20 }
        } else {
            Ratio { num: (k % 7) as i32, den: 7 }
        }),
        (Ratio { num: 1, den: 20 }).le(grid_materials()[k].roughness),
        grid_materials()[k].roughness.le(Ratio::whole(1)),
{
}

/// The transforms and the materials of the instance grid.
pub fn make_instances() -> (instances: (Vec<TransformRaw>, Vec<MaterialInfoRaw>))
    ensures
        instances.0@ == grid_transforms(),
        instances.1@ == grid_materials(),
{
    let mut transforms: Vec<TransformRaw> = Vec::new();
    let mut materials: Vec<MaterialInfoRaw> = Vec::new();
    let mut row: i32 = 0;
    while row < ROWS
        invariant
            0 <= row <= 7,
            transforms@ == grid_transforms().subrange(0, 7 * row),
            materials@ == grid_materials().subrange(0, 7 * row),
        decreases 7 - row,
    {
        let metallic = Ratio { num: row, den: ROWS };
        let mut col: i32 = 0;
        while col < COLS
            invariant
                0 <= row < 7,
                0 <= col <= 7,
                metallic == (Ratio { num: row, den: 7 }),
                transforms@ == grid_transforms().subrange(0, 7 * row + col),
                materials@ == grid_materials().subrange(0, 7 * row + col),
            decreases 7 - col,
        {
            let roughness = clamp(
                Ratio { num: col, den: COLS },
                Ratio { num: 1, den: 20 },
                Ratio { num: 1, den: 1 },
            );
            transforms.push(
                TransformRaw {
                    x: Ratio { num: (col - COLS / 2) * 5, den: 2 },
                    y: Ratio { num: (row - ROWS / 2) * 5, den: 2 },
                    z: Ratio { num: 0, den: 1 },
                },
            );
            materials.push(
                MaterialInfoRaw {
                    metallic,
                    roughness,
                    ambient_occlusion: Ratio { num: 1, den: 1 },
                    padding: Ratio { num: 0, den: 1 },
                },
            );
            proof {
                let k = 7 * row + col;
                assert(k / 7 == row && k % 7 == col);
                assert(transforms@ =~= grid_transforms().subrange(0, k + 1));
                assert(materials@ =~= grid_materials().subrange(0, k + 1));
            }
            col += 1;
        }
        row += 1;
    }
    assert(transforms@ =~= grid_transforms());
    assert(materials@ =~= grid_materials());
    (transforms, materials)
}

/// The vector of the whole numbers `x`, `y`, `z` and zero.
pub open spec fn point(x: int, y: int, z: int) -> Vec4 {
    Vec4 {
        x: Ratio::whole(x as i32),
        y: Ratio::whole(y as i32),
        z: Ratio::whole(z as i32),
        w: Ratio::whole(0),
    }
}

/// The lights of the scene: a dull red base colour, and four lights of
/// equal strength at the corners of a square in front of the grid.
pub open spec fn scene_lighting() -> PbrFragmentUniforms {
    PbrFragmentUniforms {
        albedo: Vec4 {
            x: Ratio { num: 1, den: 2 },
            y: Ratio::whole(0),
            z: Ratio::whole(0),
            w: Ratio::whole(0),
        },
        light_positions: [
            point(-10, 10, 10),
            point(10, 10, 10),
            point(-10, -10, 10),
            point(10, -10, 10),
        ],
        light_colors: [
            point(300, 300, 300),
            point(300, 300, 300),
            point(300, 300, 300),
            point(300, 300, 300),
        ],
    }
}

fn make_point(x: i32, y: i32, z: i32) -> (p: Vec4)
    ensures
        p == point(x as int, y as int, z as int),
{
    Vec4 {
        x: Ratio { num: x, den: 1 },
        y: Ratio { num: y, den: 1 },
        z: Ratio { num: z, den: 1 },
        w: Ratio { num: 0, den: 1 },
    }
}

/// The lights of the scene.
pub fn lighting() -> (block: PbrFragmentUniforms)
    ensures
        block == scene_lighting(),
{
    let white = make_point(300, 300, 300);
    PbrFragmentUniforms {
        albedo: Vec4 {
            x: Ratio { num: 1, den: 2 },
            y: Ratio { num: 0, den: 1 },
            z: Ratio { num: 0, den: 1 },
            w: Ratio { num: 0, den: 1 },
        },
        light_positions: [
            make_point(-10, 10, 10),
            make_point(10, 10, 10),
            make_point(-10, -10, 10),
            make_point(10, -10, 10),
        ],
        light_colors: [white, white, white, white],
    }
}

/// The data that the state of the effect is created with and that only
/// the caller can provide: the bytes of the lighting block, of the
/// instance transforms and materials, and of the sphere's vertices.
#[derive(Clone, Debug, PartialEq, Eq)]
pub struct PbrUploads {
    pub lighting: Vec<u8>,
    pub transforms: Vec<u8>,
    pub material_info: Vec<u8>,
    pub sphere_vertices: Vec<u8>,
}

/// The uploads of the effect.
#[derive(Clone, Copy, Debug, PartialEq, Eq, Structural)]
pub enum PbrUpload {
    Lighting,
    Transforms,
    MaterialInfo,
    SphereVertices,
}

/// An upload of the effect whose length is not the one that its binding
/// or its mesh declares.
#[derive(Clone, Copy, Debug, PartialEq, Eq, Structural)]
pub struct PbrUploadError {
    pub upload: PbrUpload,
    pub mismatch: SizeMismatch,
}

/// The bytes that each upload has to have.
pub open spec fn upload_size(upload: PbrUpload) -> usize {
    match upload {
        PbrUpload::Lighting => PBR_FRAGMENT_UNIFORMS_SIZE,
        PbrUpload::Transforms => (INSTANCES * TRANSFORM_RAW_SIZE) as usize,
        PbrUpload::MaterialInfo => (INSTANCES * MATERIAL_INFO_RAW_SIZE) as usize,
        PbrUpload::SphereVertices => (SPHERE_VERTICES * VERTEX_TEX_NORMAL_SIZE) as usize,
    }
}

/// The first upload that has a wrong length, in the order in which the
/// uploads are made: lighting, transforms, materials, vertices.
pub open spec fn first_mismatch(uploads: &PbrUploads) -> Option<PbrUploadError> {
    if uploads.lighting@.len() != upload_size(PbrUpload::Lighting) {
        Some(
            PbrUploadError {
                upload: PbrUpload::Lighting,
                mismatch: SizeMismatch {
                    expected: upload_size(PbrUpload::Lighting),
                    actual: uploads.lighting@.len() as usize,
                },
            },
        )
    } else if uploads.transforms@.len() != upload_size(PbrUpload::Transforms) {
        Some(
            PbrUploadError {
                upload: PbrUpload::Transforms,
                mismatch: SizeMismatch {
                    expected: upload_size(PbrUpload::Transforms),
                    actual: uploads.transforms@.len() as usize,
                },
            },
        )
    } else if uploads.material_info@.len() != upload_size(PbrUpload::MaterialInfo) {
        Some(
            PbrUploadError {
                upload: PbrUpload::MaterialInfo,
                mismatch: SizeMismatch {
                    expected: upload_size(PbrUpload::MaterialInfo),
                    actual: uploads.material_info@.len() as usize,
                },
            },
        )
    } else if uploads.sphere_vertices@.len() != upload_size(PbrUpload::SphereVertices) {
        Some(
            PbrUploadError {
                upload: PbrUpload::SphereVertices,
                mismatch: SizeMismatch {
                    expected: upload_size(PbrUpload::SphereVertices),
                    actual: uploads.sphere_vertices@.len() as usize,
                },
            },
        )
    } else {
        None
    }
}

/// The state of the effect: what its bind groups point to, and the values
/// last written there.
#[derive(Debug, PartialEq, Eq)]
pub struct PbrState {
    pub mvp: MvpUniforms,
    pub pbr_fs: PbrFragmentUniforms,
    pub depth_texture: Texture,
    pub mvp_buffer: Buffer,
    pub pbr_fs_buffer: Buffer,
    pub transforms_buffer: Buffer,
    pub material_info_buffer: Buffer,
    pub uniform_bind_group: BindGroup,
    pub sphere: Geometry,
    pub instances: (Vec<TransformRaw>, Vec<MaterialInfoRaw>),
    pub material: Material,
    pub material_bind_group: BindGroup,
}

/// The state as it is created for the surface `sc_desc` from a material,
/// a camera block and uploads of the right lengths.
pub open spec fn is_initial_state(
    state: PbrState,
    sc_desc: &SwapChainDescriptor,
    material: Material,
    mvp: MvpUniforms,
    uploads: &PbrUploads,
) -> bool {
    &&& state.mvp == mvp
    &&& state.pbr_fs == scene_lighting()
    &&& state.depth_texture.width == sc_desc.width
    &&& state.depth_texture.height == sc_desc.height
    &&& state.depth_texture.format == depth_format()
    &&& state.depth_texture.usage == TextureUsage::sampled_attachment()
    &&& state.depth_texture.label matches Some(l) && l@ == "pbr_depth_texture"@
    &&& state.mvp_buffer.contents@ == mvp.bytes()
    &&& state.mvp_buffer.usage == BufferUsage::uniform_target()
    &&& state.pbr_fs_buffer.contents@ == uploads.lighting@
    &&& state.pbr_fs_buffer.usage == BufferUsage::uniform_target()
    &&& state.transforms_buffer.contents@ == uploads.transforms@
    &&& state.transforms_buffer.usage == BufferUsage::read_only_storage()
    &&& state.material_info_buffer.contents@ == uploads.material_info@
    &&& state.material_info_buffer.usage == BufferUsage::read_only_storage()
    &&& state.uniform_bind_group.bindings@ == uniform_bindings(
        &state.mvp_buffer,
        MVP_UNIFORMS_SIZE,
        &state.pbr_fs_buffer,
        PBR_FRAGMENT_UNIFORMS_SIZE,
        &state.transforms_buffer,
        upload_size(PbrUpload::Transforms),
        &state.material_info_buffer,
        upload_size(PbrUpload::MaterialInfo),
    )
    &&& state.uniform_bind_group.label@ == "pbr_uniform_bind_group"@
    &&& state.sphere.vertex_buffer.contents@ == uploads.sphere_vertices@
    &&& state.sphere.vertex_buffer.usage == BufferUsage::vertex_data()
    &&& state.sphere.index_buffer.usage == BufferUsage::index_data()
    &&& encodes(strip_indices(64, 64), state.sphere.index_buffer.contents@)
    &&& state.sphere.num_vertices == SPHERE_VERTICES
    &&& state.sphere.num_indices == SPHERE_INDICES
    &&& state.instances.0@ == grid_transforms()
    &&& state.instances.1@ == grid_materials()
    &&& state.material == material
    &&& state.material_bind_group.bindings@ == texture_bindings()
    &&& state.material_bind_group.label@ == "bind_group"@
}

/// In a state as it is created, every buffer binding covers its buffer
/// exactly: the bound range starts at 0 and ends at the buffer's size.
pub proof fn bindings_cover_buffers(
    state: PbrState,
    sc_desc: &SwapChainDescriptor,
    material: Material,
    mvp: MvpUniforms,
    uploads: &PbrUploads,
)
    requires
        is_initial_state(state, sc_desc, material, mvp, uploads),
        first_mismatch(uploads) is None,
    ensures
        forall|i: int|
            0 <= i < state.uniform_bind_group.bindings@.len() ==> (
            #[trigger] state.uniform_bind_group.bindings@[i].resource
                matches BindingResource::Buffer { size, start, end, .. } && start == 0 && end
                == size),
        fits(uniform_entries(), state.uniform_bind_group.bindings@),
{
    assert forall|i: int| 0 <= i < 4 implies (#[trigger] crate::gpu::binding_fault(
        uniform_entries()[i],
        state.uniform_bind_group.bindings@[i],
        i as usize,
    )) is None by {}
}

impl PbrState {
    /// Creates the state of the effect for a surface. The material holds
    /// the textures of the loaded images; `mvp` is the camera block of the
    /// first frame. Every upload has to have the length that its binding
    /// or the sphere declares.
    pub fn new(
        sc_desc: &SwapChainDescriptor,
        pipeline: &Pbr,
        material: Material,
        mvp: MvpUniforms,
        uploads: PbrUploads,
    ) -> (outcome: Result<PbrState, PbrUploadError>)
        ensures
            outcome is Ok <==> first_mismatch(&uploads) is None,
            outcome matches Ok(state) ==> is_initial_state(state, sc_desc, material, mvp, &uploads),
            outcome matches Err(e) ==> first_mismatch(&uploads) == Some(e),
    {
        let material_bind_group = pipeline.layout.create_texture_bind_group(&material);
        let depth_texture = Texture::create_depth_texture(sc_desc, "pbr_depth_texture");
        let instances = make_instances();
        let pbr_fs = lighting();
        let uniform_target = BufferUsage {
            copy_src: false,
            copy_dst: true,
            index: false,
            vertex: false,
            uniform: true,
            storage: false,
            storage_read: false,
        };
        let storage_read = BufferUsage {
            copy_src: false,
            copy_dst: false,
            index: false,
            vertex: false,
            uniform: false,
            storage: false,
            storage_read: true,
        };
        let PbrUploads { lighting, transforms, material_info, sphere_vertices } = uploads;
        let mvp_buffer = Buffer::with_data(mvp.to_vec(), uniform_target);
        let pbr_fs_buffer = match Buffer::with_sized_data(
            lighting,
            uniform_target,
            PBR_FRAGMENT_UNIFORMS_SIZE,
        ) {
            Ok(buffer) => buffer,
            Err(mismatch) => {
                return Err(PbrUploadError { upload: PbrUpload::Lighting, mismatch });
            },
        };
        let transforms_size = instances.0.len() * TRANSFORM_RAW_SIZE;
        let transforms_buffer = match Buffer::with_sized_data(
            transforms,
            storage_read,
            transforms_size,
        ) {
            Ok(buffer) => buffer,
            Err(mismatch) => {
                return Err(PbrUploadError { upload: PbrUpload::Transforms, mismatch });
            },
        };
        let material_info_size = instances.0.len() * MATERIAL_INFO_RAW_SIZE;
        let material_info_buffer = match Buffer::with_sized_data(
            material_info,
            storage_read,
            material_info_size,
        ) {
            Ok(buffer) => buffer,
            Err(mismatch) => {
                return Err(PbrUploadError { upload: PbrUpload::MaterialInfo, mismatch });
            },
        };
        let created = pipeline.layout.create_uniform_bind_group(
            &mvp_buffer,
            MVP_UNIFORMS_SIZE,
            &pbr_fs_buffer,
            PBR_FRAGMENT_UNIFORMS_SIZE,
            &transforms_buffer,
            transforms_size,
            &material_info_buffer,
            material_info_size,
        );
        let uniform_bind_group = match created {
            Ok(group) => group,
            Err(_) => {
                proof {
                    let bindings = uniform_bindings(
                        &mvp_buffer,
                        MVP_UNIFORMS_SIZE,
                        &pbr_fs_buffer,
                        PBR_FRAGMENT_UNIFORMS_SIZE,
                        &transforms_buffer,
                        transforms_size,
                        &material_info_buffer,
                        material_info_size,
                    );
                    assert forall|i: int| 0 <= i < 4 implies (#[trigger] crate::gpu::binding_fault(
                        uniform_entries()[i],
                        bindings[i],
                        i as usize,
                    )) is None by {}
                    assert(fits(uniform_entries(), bindings));
                }
                vstd::pervasive::unreached()
            },
        };
        let sphere = match Geometry::create_sphere_pbr(sphere_vertices) {
            Ok(sphere) => sphere,
            Err(mismatch) => {
                return Err(PbrUploadError { upload: PbrUpload::SphereVertices, mismatch });
            },
        };
        Ok(
            PbrState {
                mvp,
                pbr_fs,
                depth_texture,
                mvp_buffer,
                pbr_fs_buffer,
                transforms_buffer,
                material_info_buffer,
                uniform_bind_group,
                sphere,
                instances,
                material,
                material_bind_group,
            },
        )
    }

    /// Replaces the depth texture by one for the new surface. Nothing else
    /// changes.
    pub fn resize(&mut self, sc_desc: &SwapChainDescriptor)
        ensures
            final(self).depth_texture.width == sc_desc.width,
            final(self).depth_texture.height == sc_desc.height,
            final(self).depth_texture.format == depth_format(),
            final(self).depth_texture.usage == TextureUsage::sampled_attachment(),
            final(self).depth_texture.label matches Some(l) && l@ == "pbr_depth_texture"@,
            *final(self) == (PbrState { depth_texture: final(self).depth_texture, ..*old(self) }),
    {
        self.depth_texture = Texture::create_depth_texture(sc_desc, "pbr_depth_texture");
    }

    /// Stages the camera block: a transient buffer that holds the block,
    /// and the copy of all of it to the start of the camera buffer.
    pub fn stage_uniforms(mvp: &MvpUniforms) -> (upload: StagedCopy)
        ensures
            upload.staging.contents@ == mvp.bytes(),
            upload.staging.usage == BufferUsage::staging(),
            upload.copy == whole_copy(MVP_UNIFORMS_SIZE as nat),
    {
        let staging = Buffer::with_data(
            mvp.to_vec(),
            BufferUsage {
                copy_src: true,
                copy_dst: false,
                index: false,
                vertex: false,
                uniform: false,
                storage: false,
                storage_read: false,
            },
        );
        StagedCopy {
            staging,
            copy: BufferCopy {
                source_offset: 0,
                destination_offset: 0,
                size: MVP_UNIFORMS_SIZE as u64,
            },
        }
    }
}

/// Once the staged copy has run, the camera buffer holds the staged block
/// byte for byte, whatever it held before.
pub proof fn staged_block_replaces_buffer(mvp: MvpUniforms, before: Seq<u8>)
    requires
        before.len() == MVP_UNIFORMS_SIZE,
    ensures
        crate::gpu::after_copy(before, mvp.bytes(), whole_copy(MVP_UNIFORMS_SIZE as nat))
            == mvp.bytes(),
{
    assert(mvp.bytes().len() == 144);
    assert(crate::gpu::after_copy(before, mvp.bytes(), whole_copy(MVP_UNIFORMS_SIZE as nat))
        =~= mvp.bytes());
}

/// The colour that the pass of the effect clears to: a dark grey.
pub open spec fn clear_color() -> Color {
    Color {
        r: Ratio { num: 1, den: 10 },
        g: Ratio { num: 1, den: 10 },
        b: Ratio { num: 1, den: 10 },
        a: Ratio::whole(1),
    }
}

/// One frame of the effect.
pub struct PbrRenderPass<'a> {
    pub clear_color: Color,
    pub mvp: &'a MvpUniforms,
    pub mvp_buffer: &'a Buffer,
    pub uniform_bind_group: &'a BindGroup,
    pub geometry: &'a Geometry,
    pub depth_texture: &'a Texture,
    pub num_instances: usize,
    pub texture_bind_group: &'a BindGroup,
}

impl<'a> PbrRenderPass<'a> {
    /// The frame that draws `state`: the sphere, once for each instance.
    pub fn new(state: &'a PbrState) -> (pass: Self)
        ensures
            pass.clear_color == clear_color(),
            *pass.mvp == state.mvp,
            *pass.mvp_buffer == state.mvp_buffer,
            *pass.uniform_bind_group == state.uniform_bind_group,
            *pass.geometry == state.sphere,
            *pass.depth_texture == state.depth_texture,
            pass.num_instances == state.instances.0@.len(),
            *pass.texture_bind_group == state.material_bind_group,
    {
        PbrRenderPass {
            clear_color: Color {
                r: Ratio { num: 1, den: 10 },
                g: Ratio { num: 1, den: 10 },
                b: Ratio { num: 1, den: 10 },
                a: Ratio { num: 1, den: 1 },
            },
            mvp: &state.mvp,
            mvp_buffer: &state.mvp_buffer,
            uniform_bind_group: &state.uniform_bind_group,
            geometry: &state.sphere,
            depth_texture: &state.depth_texture,
            num_instances: state.instances.0.len(),
            texture_bind_group: &state.material_bind_group,
        }
    }
}

impl<'a> Render for PbrRenderPass<'a> {
    open spec fn ready(&self) -> bool {
        true
    }

    /// The camera block is staged before the pass.
    open spec fn staged(&self) -> Option<Seq<u8>> {
        Some(self.mvp.bytes())
    }

    open spec fn has_depth(&self) -> bool {
        true
    }

    /// Both sets are bound, and all indices of the geometry are drawn once
    /// for each instance. The pass has one texture group, the material's,
    /// and one geometry, the sphere: both have the number 0.
    open spec fn commands(&self) -> Seq<RenderCommand> {
        draw_commands(0, 0, self.geometry.num_indices, self.num_instances as u32)
    }

    fn render(&self) -> (frame: Frame) {
        let staged = PbrState::stage_uniforms(self.mvp);
        let commands = record_draw(
            0,
            0,
            self.geometry.num_indices,
            #[verifier::truncate]
            (self.num_instances as u32),
        );
        Frame {
            staged: Some(staged),
            pass: RenderPass {
                color_attachment: ColorAttachment {
                    load_op: LoadOp::Clear,
                    store_op: StoreOp::Store,
                },
                depth_stencil_attachment: Some(
                    DepthStencilAttachment {
                        depth_load_op: LoadOp::Clear,
                        depth_store_op: StoreOp::Store,
                        clear_depth: 1,
                        stencil_load_op: LoadOp::Clear,
                        stencil_store_op: StoreOp::Store,
                        clear_stencil: 0,
                    },
                ),
                commands,
            },
        }
    }
}

} // verus!
