//! The textured effect: one mesh with one texture, both picked from lists
//! that the user cycles through.

use crate::geometry::Geometry;
use crate::geometry::encodes;
use crate::gpu::BindGroup;
use crate::gpu::BindGroupLayout;
use crate::gpu::Buffer;
use crate::gpu::BufferUsage;
use crate::pipelines::ModuleError;
use crate::pipelines::camera_buffer;
use crate::pipelines::camera_update;
use crate::pipelines::compile_modules;
use crate::pipelines::is_camera_update;
use crate::pipelines::is_module_error;
use crate::pipelines::single_texture_bindings;
use crate::pipelines::single_texture_entries;
use crate::pipelines::single_texture_layout;
use crate::pipelines::single_uniform_bindings;
use crate::pipelines::single_uniform_buffer_layout;
use crate::pipelines::single_uniform_entries;
use crate::pipelines::texture_group;
use crate::pipelines::textured_sets;
use crate::render::ColorAttachment;
use crate::render::Frame;
use crate::render::FrontFace;
use crate::render::LoadOp;
use crate::render::PrimitiveTopology;
use crate::render::Render;
use crate::render::RenderCommand;
use crate::render::RenderPass;
use crate::render::RenderPipeline;
use crate::render::StoreOp;
use crate::render::Submission;
use crate::render::draw_commands;
use crate::render::effect_state;
use crate::render::make_effect_state;
use crate::render::record_draw;
use crate::render_types::InputStepMode;
use crate::render_types::MVP_UNIFORMS_SIZE;
use crate::render_types::MvpUniforms;
use crate::render_types::VertexDesc;
use crate::render_types::VERTEX_TEX_SIZE;
use crate::render_types::VertexTex;
use crate::render_types::packed_attributes;
use crate::shader::ShaderKind;
use crate::shader::ShaderRequest;
use crate::shader::is_spirv;
use crate::shader::shader_request;
use crate::shader::spirv_words;
use crate::shader::stage_suffix;
use crate::texture::SwapChainDescriptor;
use crate::texture::Texture;
use vstd::prelude::*;

verus! {

/// The binding schemas of the effect.
pub struct SimpleLayout {
    texture_layout: BindGroupLayout,
    uniform_layout: BindGroupLayout,
    pipeline_layout: Vec<BindGroupLayout>,
}

impl SimpleLayout {
    #[verifier::type_invariant]
    spec fn well_formed(self) -> bool {
        &&& textured_sets(seq![self.uniform_layout, self.texture_layout])
        &&& textured_sets(self.pipeline_layout@)
    }

    /// The sets of the pipeline layout: the uniforms as set 0 and the
    /// texture as set 1.
    pub closed spec fn pipeline_sets(&self) -> Seq<BindGroupLayout> {
        self.pipeline_layout@
    }

    /// The two schemas, and the pipeline layout that has the uniforms as
    /// set 0 and the texture as set 1.
    pub fn new() -> (layout: SimpleLayout)
        ensures
            textured_sets(layout.pipeline_sets()),
    {
        let mut pipeline_layout: Vec<BindGroupLayout> = Vec::new();
        pipeline_layout.push(single_uniform_buffer_layout());
        pipeline_layout.push(single_texture_layout());
        SimpleLayout {
            texture_layout: single_texture_layout(),
            uniform_layout: single_uniform_buffer_layout(),
            pipeline_layout,
        }
    }

    /// The sets of the pipeline layout, in order.
    pub fn sets(&self) -> (sets: &Vec<BindGroupLayout>)
        ensures
            sets@ == self.pipeline_sets(),
            textured_sets(sets@),
    {
        proof {
            use_type_invariant(self);
        }
        &self.pipeline_layout
    }

    /// The schema of set 0 of this layout.
    pub fn uniforms(&self) -> (layout: &BindGroupLayout)
        ensures
            layout.entries@ == single_uniform_entries(),
            layout.label@ == "uniform_bind_group_layout"@,
    {
        proof {
            use_type_invariant(self);
        }
        &self.uniform_layout
    }

    /// The schema of set 1 of this layout.
    pub fn textures(&self) -> (layout: &BindGroupLayout)
        ensures
            layout.entries@ == single_texture_entries(),
            layout.label@ == "single_texture_bg_layout"@,
    {
        proof {
            use_type_invariant(self);
        }
        &self.texture_layout
    }

    /// The pipeline of the effect for a surface: triangle lists with
    /// counter-clockwise front faces, without depth test, over textured
    /// vertices.
    pub fn create_render_pipeline(
        &self,
        sc_desc: &SwapChainDescriptor,
        vs_module: Vec<u32>,
        fs_module: Vec<u32>,
    ) -> (pipeline: RenderPipeline)
        ensures
            is_simple_pipeline(pipeline, sc_desc, vs_module@, fs_module@),
    {
        let mut layout: Vec<BindGroupLayout> = Vec::new();
        layout.push(single_uniform_buffer_layout());
        layout.push(single_texture_layout());
        RenderPipeline {
            layout,
            vertex_module: vs_module,
            fragment_module: fs_module,
            entry_point: "main",
            state: make_effect_state(
                sc_desc.format,
                FrontFace::Ccw,
                PrimitiveTopology::TriangleList,
                false,
            ),
            vertex_buffer: VertexTex::desc(),
        }
    }
}

/// The pipeline of the effect for the surface `sc_desc`, made of the given
/// shader modules.
pub open spec fn is_simple_pipeline(
    pipeline: RenderPipeline,
    sc_desc: &SwapChainDescriptor,
    vs_module: Seq<u32>,
    fs_module: Seq<u32>,
) -> bool {
    &&& textured_sets(pipeline.layout@)
    &&& pipeline.vertex_module@ == vs_module
    &&& pipeline.fragment_module@ == fs_module
    &&& pipeline.entry_point@ == "main"@
    &&& pipeline.state == effect_state(
        sc_desc.format,
        FrontFace::Ccw,
        PrimitiveTopology::TriangleList,
        None,
    )
    &&& pipeline.vertex_buffer.stride == VERTEX_TEX_SIZE
    &&& pipeline.vertex_buffer.step_mode == InputStepMode::Vertex
    &&& pipeline.vertex_buffer.attributes@ == packed_attributes(VertexTex::formats())
}

/// The effect: its compiled pipeline and its binding schemas.
pub struct Simple {
    pub pipeline: RenderPipeline,
    pub layout: SimpleLayout,
}

impl Simple {
    /// The two compilations of the effect.
    pub fn shader_requests<'a>(vs_src: &'a str, fs_src: &'a str) -> (requests: (
        ShaderRequest<'a>,
        ShaderRequest<'a>,
    ))
        ensures
            requests.0.source@ == vs_src@,
            requests.0.kind == ShaderKind::Vertex,
            requests.0.file_name@ == "simple"@ + stage_suffix(ShaderKind::Vertex),
            requests.0.entry_point@ == "main"@,
            requests.1.source@ == fs_src@,
            requests.1.kind == ShaderKind::Fragment,
            requests.1.file_name@ == "simple"@ + stage_suffix(ShaderKind::Fragment),
            requests.1.entry_point@ == "main"@,
    {
        (
            shader_request(vs_src, ShaderKind::Vertex, "simple"),
            shader_request(fs_src, ShaderKind::Fragment, "simple"),
        )
    }

    /// Builds the effect for a surface from its two compiled shaders.
    pub fn new(sc_desc: &SwapChainDescriptor, vs_binary: &[u8], fs_binary: &[u8]) -> (outcome:
        Result<Simple, ModuleError>)
        ensures
            outcome is Ok <==> is_spirv(vs_binary@) && is_spirv(fs_binary@),
            outcome matches Ok(effect) ==> is_simple_pipeline(
                effect.pipeline,
                sc_desc,
                spirv_words(vs_binary@),
                spirv_words(fs_binary@),
            ) && textured_sets(effect.layout.pipeline_sets()),
            outcome matches Err(e) ==> is_module_error(e, vs_binary@, fs_binary@),
    {
        let (vs_module, fs_module) = match compile_modules(vs_binary, fs_binary) {
            Ok(modules) => modules,
            Err(e) => {
                return Err(e);
            },
        };
        let layout = SimpleLayout::new();
        let pipeline = layout.create_render_pipeline(sc_desc, vs_module, fs_module);
        Ok(Simple { layout, pipeline })
    }
}

/// The slot after `index` in a ring of `len` slots.
pub open spec fn next_index(index: int, len: int) -> int {
    (index + 1) % len
}

/// The slot that `steps` advances from `index` lead to.
pub open spec fn advanced(index: int, len: int, steps: nat) -> int
    decreases steps,
{
    if steps == 0 {
        index
    } else {
        next_index(advanced(index, len, (steps - 1) as nat), len)
    }
}

proof fn step_mod(a: int, n: int)
    requires
        0 <= a,
        0 < n,
    ensures
        (a % n + 1) % n == (a + 1) % n,
{
    vstd::arithmetic::div_mod::lemma_add_mod_noop(a, 1, n);
    if n > 1 {
        vstd::arithmetic::div_mod::lemma_small_mod(1, n as nat);
    } else {
        assert(a % 1 == 0 && (a + 1) % 1 == 0 && 1int % 1 == 0);
    }
}

proof fn advanced_is_sum(index: int, len: int, steps: nat)
    requires
        0 <= index < len,
    ensures
        advanced(index, len, steps) == (index + steps) % len,
    decreases steps,
{
    if steps > 0 {
        advanced_is_sum(index, len, (steps - 1) as nat);
        step_mod(index + steps - 1, len);
    } else {
        vstd::arithmetic::div_mod::lemma_small_mod(index as nat, len as nat);
    }
}

/// Cycling through a list of `len` entries `len` times leads back to the
/// entry that was current before; so from the first entry back to the
/// first. A list of one entry stays at it with every step.
pub proof fn cycle_returns(index: int, len: int)
    requires
        0 <= index < len,
    ensures
        advanced(index, len, len as nat) == index,
        len == 1 ==> next_index(index, len) == 0,
{
    advanced_is_sum(index, len, len as nat);
    vstd::arithmetic::div_mod::lemma_mod_add_multiples_vanish(index, len);
    vstd::arithmetic::div_mod::lemma_small_mod(index as nat, len as nat);
}

/// The state of the effect: the camera block with its buffer and bind
/// group, the meshes and textures to choose from, and the current choice.
#[derive(Debug, PartialEq, Eq)]
pub struct SimpleState {
    pub uniforms: MvpUniforms,
    pub uniform_buffer: Buffer,
    pub uniform_bind_group: BindGroup,
    pub geometries: Vec<Geometry>,
    pub textures: Vec<(Texture, BindGroup)>,
    pub geometry_index: usize,
    pub texture_index: usize,
}

impl SimpleState {
    /// Makes the mesh after the current one current, and the first one
    /// after the last.
    pub fn inc_geometry_index(&mut self)
        requires
            old(self).geometries@.len() > 0,
        ensures
            final(self).geometry_index == next_index(
                old(self).geometry_index as int,
                old(self).geometries@.len() as int,
            ),
            final(self).geometry_index < final(self).geometries@.len(),
            *final(self) == (SimpleState {
                geometry_index: final(self).geometry_index,
                ..*old(self)
            }),
    {
        let len = self.geometries.len();
        proof {
            step_mod(self.geometry_index as int, len as int);
        }
        self.geometry_index = (self.geometry_index % len + 1) % len;
    }

    /// Makes the texture after the current one current, and the first one
    /// after the last.
    pub fn inc_texture_index(&mut self)
        requires
            old(self).textures@.len() > 0,
        ensures
            final(self).texture_index == next_index(
                old(self).texture_index as int,
                old(self).textures@.len() as int,
            ),
            final(self).texture_index < final(self).textures@.len(),
            *final(self) == (SimpleState {
                texture_index: final(self).texture_index,
                ..*old(self)
            }),
    {
        let len = self.textures.len();
        proof {
            step_mod(self.texture_index as int, len as int);
        }
        self.texture_index = (self.texture_index % len + 1) % len;
    }

    /// Takes the camera's part and the model matrix of the next frame into
    /// the camera block and stages the block for the camera buffer.
    pub fn update_uniforms(
        &mut self,
        view_position: [u8; 16],
        view_proj: [u8; 64],
        model: [u8; 64],
    ) -> (update: Submission)
        ensures
            final(self).uniforms == (MvpUniforms { view_position, view_proj, model }),
            is_camera_update(update, &final(self).uniforms),
            *final(self) == (SimpleState { uniforms: final(self).uniforms, ..*old(self) }),
    {
        self.uniforms.update_view_proj(view_position, view_proj);
        self.uniforms.update_model(&model);
        camera_update(&self.uniforms)
    }

    /// The state with the camera block `uniforms`, without meshes and
    /// textures.
    pub fn new(pipeline: &Simple, uniforms: MvpUniforms) -> (state: SimpleState)
        ensures
            state.uniforms == uniforms,
            state.uniform_buffer.contents@ == uniforms.bytes(),
            state.uniform_buffer.usage == BufferUsage::uniform_target(),
            state.uniform_bind_group.bindings@ == single_uniform_bindings(
                &state.uniform_buffer,
                MVP_UNIFORMS_SIZE,
            ),
            state.uniform_bind_group.label@ == "uniform_bind_group"@,
            state.geometries@.len() == 0,
            state.textures@.len() == 0,
            state.geometry_index == 0,
            state.texture_index == 0,
    {
        let (uniform_buffer, uniform_bind_group) = camera_buffer(
            pipeline.layout.uniforms(),
            &uniforms,
        );
        SimpleState {
            uniforms,
            uniform_buffer,
            uniform_bind_group,
            geometries: Vec::new(),
            textures: Vec::new(),
            geometry_index: 0,
            texture_index: 0,
        }
    }

    /// Appends `texture` with a bind group of its own and tells its
    /// number.
    pub fn add_texture(&mut self, pipeline: &Simple, texture: Texture) -> (index: usize)
        ensures
            index == old(self).textures@.len(),
            final(self).textures@.len() == index + 1,
            final(self).textures@.subrange(0, index as int) == old(self).textures@,
            final(self).textures@[index as int].0 == texture,
            final(self).textures@[index as int].1.bindings@ == single_texture_bindings(),
            final(self).textures@[index as int].1.label@ == "bind_group"@,
            *final(self) == (SimpleState { textures: final(self).textures, ..*old(self) }),
    {
        let bind_group = texture_group(pipeline.layout.textures());
        let index = self.textures.len();
        self.textures.push((texture, bind_group));
        assert(self.textures@.subrange(0, index as int) =~= old(self).textures@);
        index
    }

    /// Appends the mesh of `num_vertices` vertices, stored in `vertices`,
    /// and the given indices, and tells its number.
    pub fn add_geometry(&mut self, vertices: Vec<u8>, num_vertices: usize, indices: &[u16]) -> (index:
        usize)
        ensures
            index == old(self).geometries@.len(),
            final(self).geometries@.len() == index + 1,
            final(self).geometries@.subrange(0, index as int) == old(self).geometries@,
            final(self).geometries@[index as int].vertex_buffer.contents@ == vertices@,
            final(self).geometries@[index as int].vertex_buffer.usage == BufferUsage::vertex_data(),
            encodes(indices@, final(self).geometries@[index as int].index_buffer.contents@),
            final(self).geometries@[index as int].index_buffer.usage == BufferUsage::index_data(),
            final(self).geometries@[index as int].num_vertices == num_vertices as u32,
            final(self).geometries@[index as int].num_indices == indices@.len() as u32,
            *final(self) == (SimpleState { geometries: final(self).geometries, ..*old(self) }),
    {
        let index = self.geometries.len();
        self.geometries.push(Geometry::new(vertices, num_vertices, indices));
        assert(self.geometries@.subrange(0, index as int) =~= old(self).geometries@);
        index
    }
}

/// One frame of the effect. The colour that the pass clears to is the
/// caller's.
pub struct SimpleRenderPass<'a> {
    pub state: &'a SimpleState,
}

impl<'a> Render for SimpleRenderPass<'a> {
    /// The current mesh and the current texture exist.
    open spec fn ready(&self) -> bool {
        &&& self.state.geometry_index < self.state.geometries@.len()
        &&& self.state.texture_index < self.state.textures@.len()
    }

    open spec fn staged(&self) -> Option<Seq<u8>> {
        None
    }

    open spec fn has_depth(&self) -> bool {
        false
    }

    /// The current texture is bound, and all indices of the current mesh
    /// are drawn once.
    open spec fn commands(&self) -> Seq<RenderCommand> {
        draw_commands(
            self.state.texture_index,
            self.state.geometry_index,
            self.state.geometries@[self.state.geometry_index as int].num_indices,
            1,
        )
    }

    fn render(&self) -> (frame: Frame) {
        let geometry = &self.state.geometries[self.state.geometry_index];
        let commands = record_draw(
            self.state.texture_index,
            self.state.geometry_index,
            geometry.num_indices,
            1,
        );
        Frame {
            staged: None,
            pass: RenderPass {
                color_attachment: ColorAttachment {
                    load_op: LoadOp::Clear,
                    store_op: StoreOp::Store,
                },
                depth_stencil_attachment: None,
                commands,
            },
        }
    }
}

} // verus!
