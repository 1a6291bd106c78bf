//! Compiled pipelines and recorded render passes, as plain values.

use crate::gpu::BindGroupLayout;
use crate::gpu::Buffer;
use crate::gpu::BufferCopy;
use crate::gpu::TextureFormat;
use crate::ratio::Ratio;
use crate::render_types::VertexBufferDescriptor;
use vstd::prelude::*;

verus! {

/// The winding of the triangles that face the viewer.
#[derive(Clone, Copy, Debug, PartialEq, Eq, Structural)]
pub enum FrontFace {
    Ccw,
    Cw,
}

/// The faces that are not drawn.
#[derive(Clone, Copy, Debug, PartialEq, Eq, Structural)]
pub enum CullMode {
    Off,
    Front,
    Back,
}

/// How the indices of a draw make primitives.
#[derive(Clone, Copy, Debug, PartialEq, Eq, Structural)]
pub enum PrimitiveTopology {
    PointList,
    LineList,
    LineStrip,
    TriangleList,
    TriangleStrip,
}

/// The width of an index.
#[derive(Clone, Copy, Debug, PartialEq, Eq, Structural)]
pub enum IndexFormat {
    Uint16,
    Uint32,
}

/// The test that a new depth or stencil value has to pass against the
/// stored one.
#[derive(Clone, Copy, Debug, PartialEq, Eq, Structural)]
pub enum CompareFunction {
    Undefined,
    Never,
    Less,
    Equal,
    LessEqual,
    Greater,
    NotEqual,
    GreaterEqual,
    Always,
}

/// The weight of a colour in a blend.
#[derive(Clone, Copy, Debug, PartialEq, Eq, Structural)]
pub enum BlendFactor {
    Zero,
    One,
    SrcColor,
    OneMinusSrcColor,
    SrcAlpha,
    OneMinusSrcAlpha,
    DstColor,
    OneMinusDstColor,
    DstAlpha,
    OneMinusDstAlpha,
    SrcAlphaSaturated,
    BlendColor,
    OneMinusBlendColor,
}

/// How a blend combines the weighted colours.
#[derive(Clone, Copy, Debug, PartialEq, Eq, Structural)]
pub enum BlendOperation {
    Add,
    Subtract,
    ReverseSubtract,
    Min,
    Max,
}

/// A blend of the new colour, the source, with the stored one, the
/// destination.
#[derive(Clone, Copy, Debug, PartialEq, Eq, Structural)]
pub struct BlendDescriptor {
    pub src_factor: BlendFactor,
    pub dst_factor: BlendFactor,
    pub operation: BlendOperation,
}

impl BlendDescriptor {
    /// The blend that puts the new colour in place of the old one.
    pub open spec fn replace() -> BlendDescriptor {
        BlendDescriptor {
            src_factor: BlendFactor::One,
            dst_factor: BlendFactor::Zero,
            operation: BlendOperation::Add,
        }
    }
}

/// The colour channels that a pipeline writes.
#[derive(Clone, Copy, Debug, PartialEq, Eq, Structural)]
pub struct ColorWrite {
    pub red: bool,
    pub green: bool,
    pub blue: bool,
    pub alpha: bool,
}

impl ColorWrite {
    pub open spec fn all() -> ColorWrite {
        ColorWrite { red: true, green: true, blue: true, alpha: true }
    }
}

/// The colour target of a pipeline: its format, how colour and alpha are
/// blended into it, and which channels are written.
#[derive(Clone, Copy, Debug, PartialEq, Eq, Structural)]
pub struct ColorStateDescriptor {
    pub format: TextureFormat,
    pub alpha_blend: BlendDescriptor,
    pub color_blend: BlendDescriptor,
    pub write_mask: ColorWrite,
}

impl ColorStateDescriptor {
    /// A target of the given format that every fragment overwrites.
    pub open spec fn overwrite(format: TextureFormat) -> ColorStateDescriptor {
        ColorStateDescriptor {
            format,
            alpha_blend: BlendDescriptor::replace(),
            color_blend: BlendDescriptor::replace(),
            write_mask: ColorWrite::all(),
        }
    }
}

/// What happens to a stencil value after a test.
#[derive(Clone, Copy, Debug, PartialEq, Eq, Structural)]
pub enum StencilOperation {
    Keep,
    Zero,
    Replace,
    Invert,
    IncrementClamp,
    DecrementClamp,
    IncrementWrap,
    DecrementWrap,
}

/// The stencil test for the triangles of one facing.
#[derive(Clone, Copy, Debug, PartialEq, Eq, Structural)]
pub struct StencilStateFaceDescriptor {
    pub compare: CompareFunction,
    pub fail_op: StencilOperation,
    pub depth_fail_op: StencilOperation,
    pub pass_op: StencilOperation,
}

impl StencilStateFaceDescriptor {
    /// The stencil state that lets every fragment pass and keeps the
    /// stencil buffer as it is.
    pub open spec fn ignore() -> StencilStateFaceDescriptor {
        StencilStateFaceDescriptor {
            compare: CompareFunction::Always,
            fail_op: StencilOperation::Keep,
            depth_fail_op: StencilOperation::Keep,
            pass_op: StencilOperation::Keep,
        }
    }
}

/// The depth and stencil target of a pipeline and its tests.
#[derive(Clone, Copy, Debug, PartialEq, Eq, Structural)]
pub struct DepthStencilStateDescriptor {
    pub format: TextureFormat,
    pub depth_write_enabled: bool,
    pub depth_compare: CompareFunction,
    pub stencil_front: StencilStateFaceDescriptor,
    pub stencil_back: StencilStateFaceDescriptor,
    pub stencil_read_mask: u32,
    pub stencil_write_mask: u32,
}

impl DepthStencilStateDescriptor {
    /// The depth test that keeps the nearer fragment and writes its depth,
    /// without a stencil test.
    pub open spec fn nearer_wins(format: TextureFormat) -> DepthStencilStateDescriptor {
        DepthStencilStateDescriptor {
            format,
            depth_write_enabled: true,
            depth_compare: CompareFunction::Less,
            stencil_front: StencilStateFaceDescriptor::ignore(),
            stencil_back: StencilStateFaceDescriptor::ignore(),
            stencil_read_mask: 0,
            stencil_write_mask: 0,
        }
    }
}

/// How triangles are turned into fragments. The slope scale and the clamp
/// of the depth bias are always zero.
#[derive(Clone, Copy, Debug, PartialEq, Eq, Structural)]
pub struct RasterizationStateDescriptor {
    pub front_face: FrontFace,
    pub cull_mode: CullMode,
    pub depth_bias: i32,
}

/// The state of a pipeline that is fixed when it is compiled.
#[derive(Clone, Copy, Debug, PartialEq, Eq)]
pub struct FixedState {
    pub rasterization_state: RasterizationStateDescriptor,
    pub color_state: ColorStateDescriptor,
    pub primitive_topology: PrimitiveTopology,
    pub depth_stencil_state: Option<DepthStencilStateDescriptor>,
    pub index_format: IndexFormat,
    pub sample_count: u32,
    pub sample_mask: u32,
    pub alpha_to_coverage_enabled: bool,
}

/// The fixed state that all effects share but for the winding of front
/// faces, the topology and the depth test: back faces are culled, there is
/// no depth bias, the one colour target is overwritten, indices are 16-bit
/// numbers, and every pixel has one sample.
pub open spec fn effect_state(
    format: TextureFormat,
    front_face: FrontFace,
    primitive_topology: PrimitiveTopology,
    depth_stencil_state: Option<DepthStencilStateDescriptor>,
) -> FixedState {
    FixedState {
        rasterization_state: RasterizationStateDescriptor {
            front_face,
            cull_mode: CullMode::Back,
            depth_bias: 0,
        },
        color_state: ColorStateDescriptor::overwrite(format),
        primitive_topology,
        depth_stencil_state,
        index_format: IndexFormat::Uint16,
        sample_count: 1,
        sample_mask: 0xffff_ffff,
        alpha_to_coverage_enabled: false,
    }
}

pub(crate) fn make_effect_state(
    format: TextureFormat,
    front_face: FrontFace,
    primitive_topology: PrimitiveTopology,
    depth: bool,
) -> (state: FixedState)
    ensures
        state == effect_state(
            format,
            front_face,
            primitive_topology,
            if depth {
                Some(DepthStencilStateDescriptor::nearer_wins(crate::texture::depth_format()))
            } else {
                None
            },
        ),
{
    let replace = BlendDescriptor {
        src_factor: BlendFactor::One,
        dst_factor: BlendFactor::Zero,
        operation: BlendOperation::Add,
    };
    let ignore = StencilStateFaceDescriptor {
        compare: CompareFunction::Always,
        fail_op: StencilOperation::Keep,
        depth_fail_op: StencilOperation::Keep,
        pass_op: StencilOperation::Keep,
    };
    FixedState {
        rasterization_state: RasterizationStateDescriptor {
            front_face,
            cull_mode: CullMode::Back,
            depth_bias: 0,
        },
        color_state: ColorStateDescriptor {
            format,
            alpha_blend: replace,
            color_blend: replace,
            write_mask: ColorWrite { red: true, green: true, blue: true, alpha: true },
        },
        primitive_topology,
        depth_stencil_state: if depth {
            Some(
                DepthStencilStateDescriptor {
                    format: crate::texture::Texture::depth_format(),
                    depth_write_enabled: true,
                    depth_compare: CompareFunction::Less,
                    stencil_front: ignore,
                    stencil_back: ignore,
                    stencil_read_mask: 0,
                    stencil_write_mask: 0,
                },
            )
        } else {
            None
        },
        index_format: IndexFormat::Uint16,
        sample_count: 1,
        sample_mask: 0xffff_ffff,
        alpha_to_coverage_enabled: false,
    }
}

/// A compiled pipeline: the binding schemas of its sets in order, the two
/// shader modules with their entry symbol, the fixed state and the layout
/// of the one vertex buffer.
#[derive(Clone, Debug, PartialEq, Eq)]
pub struct RenderPipeline {
    pub layout: Vec<BindGroupLayout>,
    pub vertex_module: Vec<u32>,
    pub fragment_module: Vec<u32>,
    pub entry_point: &'static str,
    pub state: FixedState,
    pub vertex_buffer: VertexBufferDescriptor,
}

/// A colour with exact components.
#[derive(Clone, Copy, Debug, PartialEq, Eq, Structural)]
pub struct Color {
    pub r: Ratio,
    pub g: Ratio,
    pub b: Ratio,
    pub a: Ratio,
}

/// Whether a pass starts from a cleared target or from what it holds.
#[derive(Clone, Copy, Debug, PartialEq, Eq, Structural)]
pub enum LoadOp {
    Clear,
    Load,
}

/// Whether a pass leaves its target cleared or keeps what it drew.
#[derive(Clone, Copy, Debug, PartialEq, Eq, Structural)]
pub enum StoreOp {
    Clear,
    Store,
}

/// The colour target of a pass: the view of the frame, without a resolve
/// target.
#[derive(Clone, Copy, Debug, PartialEq, Eq, Structural)]
pub struct ColorAttachment {
    pub load_op: LoadOp,
    pub store_op: StoreOp,
}

/// The depth target of a pass.
#[derive(Clone, Copy, Debug, PartialEq, Eq, Structural)]
pub struct DepthStencilAttachment {
    pub depth_load_op: LoadOp,
    pub depth_store_op: StoreOp,
    /// The depth that the target is cleared to, a whole number.
    pub clear_depth: u32,
    pub stencil_load_op: LoadOp,
    pub stencil_store_op: StoreOp,
    pub clear_stencil: u32,
}

impl DepthStencilAttachment {
    /// Depth and stencil are cleared, to depth 1 and stencil 0, and kept
    /// after the pass.
    pub open spec fn cleared() -> DepthStencilAttachment {
        DepthStencilAttachment {
            depth_load_op: LoadOp::Clear,
            depth_store_op: StoreOp::Store,
            clear_depth: 1,
            stencil_load_op: LoadOp::Clear,
            stencil_store_op: StoreOp::Store,
            clear_stencil: 0,
        }
    }
}

impl ColorAttachment {
    /// The target is cleared and kept after the pass.
    pub open spec fn cleared() -> ColorAttachment {
        ColorAttachment { load_op: LoadOp::Clear, store_op: StoreOp::Store }
    }
}

/// A bind group of the state that a pass draws.
#[derive(Clone, Copy, Debug, PartialEq, Eq, Structural)]
pub enum BindGroupRef {
    /// The group of the uniform and storage buffers.
    Uniforms,
    /// The group of the texture with this number.
    Texture { index: usize },
}

/// One command of a render pass.
#[derive(Clone, Copy, Debug, PartialEq, Eq, Structural)]
pub enum RenderCommand {
    /// Binds the pipeline that the pass is recorded for.
    SetPipeline,
    /// Binds a group to a set, without dynamic offsets.
    SetBindGroup { index: u32, group: BindGroupRef },
    /// Binds the vertex buffer of the geometry with this number; a size of
    /// zero means the rest of the buffer.
    SetVertexBuffer { slot: u32, geometry: usize, offset: u64, size: u64 },
    /// Binds the index buffer of the geometry with this number; a size of
    /// zero means the rest of the buffer.
    SetIndexBuffer { geometry: usize, offset: u64, size: u64 },
    /// Draws the indices `first_index..end_index` once for each instance
    /// of `first_instance..end_instance`.
    DrawIndexed {
        first_index: u32,
        end_index: u32,
        base_vertex: i32,
        first_instance: u32,
        end_instance: u32,
    },
}

/// A recorded render pass.
#[derive(Clone, Debug, PartialEq, Eq)]
pub struct RenderPass {
    pub color_attachment: ColorAttachment,
    pub depth_stencil_attachment: Option<DepthStencilAttachment>,
    pub commands: Vec<RenderCommand>,
}

/// A transient buffer and the copy that moves its bytes into a persistent
/// buffer. The transient buffer is done with once the copy has run.
#[derive(Clone, Debug, PartialEq, Eq)]
pub struct StagedCopy {
    pub staging: Buffer,
    pub copy: BufferCopy,
}

/// What one frame of an effect records: an upload, if the effect stages
/// one, and then one render pass.
#[derive(Clone, Debug, PartialEq, Eq)]
pub struct Frame {
    pub staged: Option<StagedCopy>,
    pub pass: RenderPass,
}

/// The commands of a pass that draws one geometry: the pipeline, the
/// uniforms as set 0, the texture group number `texture` as set 1, the two
/// buffers of geometry number `geometry`, and one indexed draw of all its
/// indices for the instances `0..num_instances`.
pub open spec fn draw_commands(
    texture: usize,
    geometry: usize,
    num_indices: u32,
    num_instances: u32,
) -> Seq<RenderCommand> {
    seq![
        RenderCommand::SetPipeline,
        RenderCommand::SetBindGroup { index: 0, group: BindGroupRef::Uniforms },
        RenderCommand::SetBindGroup { index: 1, group: BindGroupRef::Texture { index: texture } },
        RenderCommand::SetVertexBuffer { slot: 0, geometry, offset: 0, size: 0 },
        RenderCommand::SetIndexBuffer { geometry, offset: 0, size: 0 },
        RenderCommand::DrawIndexed {
            first_index: 0,
            end_index: num_indices,
            base_vertex: 0,
            first_instance: 0,
            end_instance: num_instances,
        },
    ]
}

pub(crate) fn record_draw(
    texture: usize,
    geometry: usize,
    num_indices: u32,
    num_instances: u32,
) -> (commands: Vec<RenderCommand>)
    ensures
        commands@ == draw_commands(texture, geometry, num_indices, num_instances),
{
    let mut commands: Vec<RenderCommand> = Vec::new();
    commands.push(RenderCommand::SetPipeline);
    commands.push(RenderCommand::SetBindGroup { index: 0, group: BindGroupRef::Uniforms });
    commands.push(
        RenderCommand::SetBindGroup { index: 1, group: BindGroupRef::Texture { index: texture } },
    );
    commands.push(RenderCommand::SetVertexBuffer { slot: 0, geometry, offset: 0, size: 0 });
    commands.push(RenderCommand::SetIndexBuffer { geometry, offset: 0, size: 0 });
    commands.push(
        RenderCommand::DrawIndexed {
            first_index: 0,
            end_index: num_indices,
            base_vertex: 0,
            first_instance: 0,
            end_instance: num_instances,
        },
    );
    assert(commands@ =~= draw_commands(texture, geometry, num_indices, num_instances));
    commands
}

/// What an effect records for one frame. Each effect has its own pass
/// type; the pass borrows the state that it draws.
pub trait Render {
    /// Whether the pass can be recorded: what it selects exists.
    spec fn ready(&self) -> bool;

    /// The bytes that the frame stages for the camera block, if any.
    spec fn staged(&self) -> Option<Seq<u8>>;

    /// Whether the pass has a depth target.
    spec fn has_depth(&self) -> bool;

    /// The commands of the pass.
    spec fn commands(&self) -> Seq<RenderCommand>;

    /// Records the frame: at most one staged upload of the camera block,
    /// then exactly one render pass that clears its targets.
    fn render(&self) -> (frame: Frame)
        requires
            self.ready(),
        ensures
            match (frame.staged, self.staged()) {
                (Some(upload), Some(bytes)) => upload.staging.contents@ == bytes
                    && upload.staging.usage == crate::gpu::BufferUsage::staging() && upload.copy
                    == whole_copy(bytes.len()),
                (None, None) => true,
                _ => false,
            },
            frame.pass.color_attachment == ColorAttachment::cleared(),
            frame.pass.depth_stencil_attachment == (if self.has_depth() {
                Some(DepthStencilAttachment::cleared())
            } else {
                None
            }),
            frame.pass.commands@ == self.commands(),
    ;
}

/// The copy of the first `len` bytes of one buffer to the start of
/// another.
pub open spec fn whole_copy(len: nat) -> BufferCopy {
    BufferCopy { source_offset: 0, destination_offset: 0, size: len as u64 }
}

/// An upload that is recorded in a command encoder of its own, which is
/// submitted at once.
#[derive(Clone, Debug, PartialEq, Eq)]
pub struct Submission {
    pub label: &'static str,
    pub staged: StagedCopy,
}

} // verus!
