//! The environment effect. It has no texture of its own yet: its pass
//! clears the frame and binds the camera block.

use crate::gpu::BindGroup;
use crate::gpu::BindGroupLayout;
use crate::gpu::Buffer;
use crate::gpu::BufferUsage;
use crate::pipelines::ModuleError;
use crate::pipelines::camera_buffer;
use crate::pipelines::camera_update;
use crate::pipelines::compile_modules;
use crate::pipelines::is_camera_update;
use crate::pipelines::is_module_error;
use crate::pipelines::single_texture_entries;
use crate::pipelines::single_texture_layout;
use crate::pipelines::single_uniform_bindings;
use crate::pipelines::single_uniform_buffer_layout;
use crate::pipelines::single_uniform_entries;
use crate::pipelines::textured_sets;
use crate::render::BindGroupRef;
use crate::render::ColorAttachment;
use crate::render::Frame;
use crate::render::FrontFace;
use crate::render::LoadOp;
use crate::render::PrimitiveTopology;
use crate::render::Render;
use crate::render::RenderCommand;
use crate::render::RenderPass;
use crate::render::RenderPipeline;
use crate::render::StoreOp;
use crate::render::Submission;
use crate::render::effect_state;
use crate::render::make_effect_state;
use crate::render_types::InputStepMode;
use crate::render_types::MVP_UNIFORMS_SIZE;
use crate::render_types::MvpUniforms;
use crate::render_types::VertexDesc;
use crate::render_types::VERTEX_TEX_SIZE;
use crate::render_types::VertexPlain;
use crate::render_types::packed_attributes;
use crate::shader::ShaderKind;
use crate::shader::ShaderRequest;
use crate::shader::is_spirv;
use crate::shader::shader_request;
use crate::shader::spirv_words;
use crate::shader::stage_suffix;
use crate::texture::SwapChainDescriptor;
use vstd::prelude::*;

verus! {

/// The binding schemas of the effect.
pub struct EquirectLayout {
    texture_layout: BindGroupLayout,
    uniform_layout: BindGroupLayout,
    pipeline_layout: Vec<BindGroupLayout>,
}

impl EquirectLayout {
    #[verifier::type_invariant]
    spec fn well_formed(self) -> bool {
        &&& textured_sets(seq![self.uniform_layout, self.texture_layout])
        &&& textured_sets(self.pipeline_layout@)
    }

    /// The sets of the pipeline layout: the uniforms as set 0 and the
    /// texture as set 1.
    pub closed spec fn pipeline_sets(&self) -> Seq<BindGroupLayout> {
        self.pipeline_layout@
    }

    /// The two schemas, and the pipeline layout that has the uniforms as
    /// set 0 and the texture as set 1.
    pub fn new() -> (layout: EquirectLayout)
        ensures
            textured_sets(layout.pipeline_sets()),
    {
        let mut pipeline_layout: Vec<BindGroupLayout> = Vec::new();
        pipeline_layout.push(single_uniform_buffer_layout());
        pipeline_layout.push(single_texture_layout());
        EquirectLayout {
            texture_layout: single_texture_layout(),
            uniform_layout: single_uniform_buffer_layout(),
            pipeline_layout,
        }
    }

    /// The sets of the pipeline layout, in order.
    pub fn sets(&self) -> (sets: &Vec<BindGroupLayout>)
        ensures
            sets@ == self.pipeline_sets(),
            textured_sets(sets@),
    {
        proof {
            use_type_invariant(self);
        }
        &self.pipeline_layout
    }

    /// The schema of set 0 of this layout.
    pub fn uniforms(&self) -> (layout: &BindGroupLayout)
        ensures
            layout.entries@ == single_uniform_entries(),
            layout.label@ == "uniform_bind_group_layout"@,
    {
        proof {
            use_type_invariant(self);
        }
        &self.uniform_layout
    }

    /// The schema of set 1 of this layout.
    pub fn textures(&self) -> (layout: &BindGroupLayout)
        ensures
            layout.entries@ == single_texture_entries(),
            layout.label@ == "single_texture_bg_layout"@,
    {
        proof {
            use_type_invariant(self);
        }
        &self.texture_layout
    }

    /// The pipeline of the effect for a surface: triangle lists with
    /// counter-clockwise front faces, without depth test, over vertices
    /// that are a position.
    pub fn create_render_pipeline(
        &self,
        sc_desc: &SwapChainDescriptor,
        vs_module: Vec<u32>,
        fs_module: Vec<u32>,
    ) -> (pipeline: RenderPipeline)
        ensures
            is_equirect_pipeline(pipeline, sc_desc, vs_module@, fs_module@),
    {
        let mut layout: Vec<BindGroupLayout> = Vec::new();
        layout.push(single_uniform_buffer_layout());
        layout.push(single_texture_layout());
        RenderPipeline {
            layout,
            vertex_module: vs_module,
            fragment_module: fs_module,
            entry_point: "main",
            state: make_effect_state(
                sc_desc.format,
                FrontFace::Ccw,
                PrimitiveTopology::TriangleList,
                false,
            ),
            vertex_buffer: VertexPlain::desc(),
        }
    }
}

/// The pipeline of the effect for the surface `sc_desc`, made of the given
/// shader modules.
pub open spec fn is_equirect_pipeline(
    pipeline: RenderPipeline,
    sc_desc: &SwapChainDescriptor,
    vs_module: Seq<u32>,
    fs_module: Seq<u32>,
) -> bool {
    &&& textured_sets(pipeline.layout@)
    &&& pipeline.vertex_module@ == vs_module
    &&& pipeline.fragment_module@ == fs_module
    &&& pipeline.entry_point@ == "main"@
    &&& pipeline.state == effect_state(
        sc_desc.format,
        FrontFace::Ccw,
        PrimitiveTopology::TriangleList,
        None,
    )
    &&& pipeline.vertex_buffer.stride == VERTEX_TEX_SIZE
    &&& pipeline.vertex_buffer.step_mode == InputStepMode::Vertex
    &&& pipeline.vertex_buffer.attributes@ == packed_attributes(VertexPlain::formats())
}

/// The effect: its compiled pipeline and its binding schemas.
pub struct Equirect {
    pub pipeline: RenderPipeline,
    pub layout: EquirectLayout,
}

impl Equirect {
    /// The two compilations of the effect. Their file names carry the tag
    /// of the physically based effect.
    pub fn shader_requests<'a>(vs_src: &'a str, fs_src: &'a str) -> (requests: (
        ShaderRequest<'a>,
        ShaderRequest<'a>,
    ))
        ensures
            requests.0.source@ == vs_src@,
            requests.0.kind == ShaderKind::Vertex,
            requests.0.file_name@ == "pbr"@ + stage_suffix(ShaderKind::Vertex),
            requests.0.entry_point@ == "main"@,
            requests.1.source@ == fs_src@,
            requests.1.kind == ShaderKind::Fragment,
            requests.1.file_name@ == "pbr"@ + stage_suffix(ShaderKind::Fragment),
            requests.1.entry_point@ == "main"@,
    {
        (
            shader_request(vs_src, ShaderKind::Vertex, "pbr"),
            shader_request(fs_src, ShaderKind::Fragment, "pbr"),
        )
    }

    /// Builds the effect for a surface from its two compiled shaders.
    pub fn new(sc_desc: &SwapChainDescriptor, vs_binary: &[u8], fs_binary: &[u8]) -> (outcome:
        Result<Equirect, ModuleError>)
        ensures
            outcome is Ok <==> is_spirv(vs_binary@) && is_spirv(fs_binary@),
            outcome matches Ok(effect) ==> is_equirect_pipeline(
                effect.pipeline,
                sc_desc,
                spirv_words(vs_binary@),
                spirv_words(fs_binary@),
            ) && textured_sets(effect.layout.pipeline_sets()),
            outcome matches Err(e) ==> is_module_error(e, vs_binary@, fs_binary@),
    {
        let (vs_module, fs_module) = match compile_modules(vs_binary, fs_binary) {
            Ok(modules) => modules,
            Err(e) => {
                return Err(e);
            },
        };
        let layout = EquirectLayout::new();
        let pipeline = layout.create_render_pipeline(sc_desc, vs_module, fs_module);
        Ok(Equirect { layout, pipeline })
    }
}

/// The state of the effect: the camera block with its buffer and bind
/// group.
#[derive(Clone, Debug, PartialEq, Eq)]
pub struct EquirectState {
    pub uniforms: MvpUniforms,
    pub uniform_buffer: Buffer,
    pub uniform_bind_group: BindGroup,
}

impl EquirectState {
    /// The state with the camera block `uniforms`.
    pub fn new(pipeline: &Equirect, uniforms: MvpUniforms) -> (state: EquirectState)
        ensures
            state.uniforms == uniforms,
            state.uniform_buffer.contents@ == uniforms.bytes(),
            state.uniform_buffer.usage == BufferUsage::uniform_target(),
            state.uniform_bind_group.bindings@ == single_uniform_bindings(
                &state.uniform_buffer,
                MVP_UNIFORMS_SIZE,
            ),
            state.uniform_bind_group.label@ == "uniform_bind_group"@,
    {
        let (uniform_buffer, uniform_bind_group) = camera_buffer(
            pipeline.layout.uniforms(),
            &uniforms,
        );
        EquirectState { uniforms, uniform_buffer, uniform_bind_group }
    }

    /// Takes the camera's part and the model matrix of the next frame into
    /// the camera block and stages the block for the camera buffer.
    pub fn update_uniforms(
        &mut self,
        view_position: [u8; 16],
        view_proj: [u8; 64],
        model: [u8; 64],
    ) -> (update: Submission)
        ensures
            final(self).uniforms == (MvpUniforms { view_position, view_proj, model }),
            is_camera_update(update, &final(self).uniforms),
            *final(self) == (EquirectState { uniforms: final(self).uniforms, ..*old(self) }),
    {
        self.uniforms.update_view_proj(view_position, view_proj);
        self.uniforms.update_model(&model);
        camera_update(&self.uniforms)
    }
}

/// One frame of the effect. The colour that the pass clears to is the
/// caller's.
pub struct SimpleRenderPass<'a> {
    pub state: &'a EquirectState,
}

/// The commands of the effect's pass: the pipeline and the camera block;
/// nothing is drawn.
pub open spec fn bind_commands() -> Seq<RenderCommand> {
    seq![
        RenderCommand::SetPipeline,
        RenderCommand::SetBindGroup { index: 0, group: BindGroupRef::Uniforms },
    ]
}

impl<'a> Render for SimpleRenderPass<'a> {
    open spec fn ready(&self) -> bool {
        true
    }

    open spec fn staged(&self) -> Option<Seq<u8>> {
        None
    }

    open spec fn has_depth(&self) -> bool {
        false
    }

    open spec fn commands(&self) -> Seq<RenderCommand> {
        bind_commands()
    }

    fn render(&self) -> (frame: Frame) {
        let mut commands: Vec<RenderCommand> = Vec::new();
        commands.push(RenderCommand::SetPipeline);
        commands.push(RenderCommand::SetBindGroup { index: 0, group: BindGroupRef::Uniforms });
        assert(commands@ =~= bind_commands());
        Frame {
            staged: None,
            pass: RenderPass {
                color_attachment: ColorAttachment {
                    load_op: LoadOp::Clear,
                    store_op: StoreOp::Store,
                },
                depth_stencil_attachment: None,
                commands,
            },
        }
    }
}

} // verus!
