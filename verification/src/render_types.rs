//! Vertex layouts and the blocks of data that shaders read.

use crate::ratio::Ratio;
use vstd::prelude::*;

verus! {

/// The format of a vertex attribute: one to four 32-bit floats.
#[derive(Clone, Copy, Debug, PartialEq, Eq, Structural)]
pub enum VertexFormat {
    Float,
    Float2,
    Float3,
    Float4,
}

impl VertexFormat {
    /// The bytes that one attribute of this format takes.
    pub open spec fn size(self) -> nat {
        match self {
            VertexFormat::Float => 4,
            VertexFormat::Float2 => 8,
            VertexFormat::Float3 => 12,
            VertexFormat::Float4 => 16,
        }
    }

    /// The bytes that one attribute of this format takes.
    pub fn byte_size(self) -> (n: u64)
        ensures
            n == self.size(),
    {
        match self {
            VertexFormat::Float => 4,
            VertexFormat::Float2 => 8,
            VertexFormat::Float3 => 12,
            VertexFormat::Float4 => 16,
        }
    }
}

/// Whether a buffer is stepped once for each vertex or each instance.
#[derive(Clone, Copy, Debug, PartialEq, Eq, Structural)]
pub enum InputStepMode {
    Vertex,
    Instance,
}

/// One attribute of a vertex: where it starts within the vertex, its
/// format, and the shader location that reads it.
#[derive(Clone, Copy, Debug, PartialEq, Eq, Structural)]
pub struct VertexAttributeDescriptor {
    pub offset: u64,
    pub format: VertexFormat,
    pub shader_location: u32,
}

/// How a vertex buffer is read: the distance between vertices and the
/// attributes of each.
#[derive(Clone, Debug, PartialEq, Eq)]
pub struct VertexBufferDescriptor {
    pub stride: u64,
    pub step_mode: InputStepMode,
    pub attributes: Vec<VertexAttributeDescriptor>,
}

/// Where attribute `i` starts when the attributes are packed one behind
/// the other.
pub open spec fn packed_offset(formats: Seq<(u32, VertexFormat)>, i: int) -> nat
    decreases i,
{
    if i <= 0 {
        0
    } else {
        packed_offset(formats, i - 1) + formats[i - 1].1.size()
    }
}

/// The attributes of the given shader locations and formats, packed one
/// behind the other.
pub open spec fn packed_attributes(formats: Seq<(u32, VertexFormat)>) -> Seq<
    VertexAttributeDescriptor,
> {
    Seq::new(
        formats.len(),
        |i: int|
            VertexAttributeDescriptor {
                offset: packed_offset(formats, i) as u64,
                format: formats[i].1,
                shader_location: formats[i].0,
            },
    )
}

proof fn packed_offset_bound(formats: Seq<(u32, VertexFormat)>, i: int)
    requires
        0 <= i <= formats.len(),
    ensures
        packed_offset(formats, i) <= 16 * i,
    decreases i,
{
    if i > 0 {
        packed_offset_bound(formats, i - 1);
    }
}

/// Lays out attributes one behind the other, each at the offset where the
/// one before it ends. There may be no more attributes than have their
/// offsets in 64 bits.
pub fn vertex_attr_array(formats: &[(u32, VertexFormat)]) -> (attributes: Vec<
    VertexAttributeDescriptor,
>)
    requires
        16 * formats@.len() <= u64::MAX,
    ensures
        attributes@ == packed_attributes(formats@),
{
    let mut attributes: Vec<VertexAttributeDescriptor> = Vec::new();
    let mut offset: u64 = 0;
    let mut i: usize = 0;
    while i < formats.len()
        invariant
            i <= formats@.len(),
            16 * formats@.len() <= u64::MAX,
            offset == packed_offset(formats@, i as int),
            attributes@ == packed_attributes(formats@).subrange(0, i as int),
        decreases formats@.len() - i,
    {
        let (shader_location, format) = formats[i];
        attributes.push(VertexAttributeDescriptor { offset, format, shader_location });
        proof {
            packed_offset_bound(formats@, i as int);
            assert(attributes@ =~= packed_attributes(formats@).subrange(0, i + 1));
        }
        offset = offset + format.byte_size();
        i += 1;
    }
    assert(attributes@ =~= packed_attributes(formats@));
    attributes
}

/// A kind of vertex, as far as a pipeline has to know it.
pub trait VertexDesc {
    /// The distance in bytes from one vertex to the next.
    spec fn stride() -> u64;

    /// The shader location and the format of each attribute, in order.
    spec fn formats() -> Seq<(u32, VertexFormat)>;

    /// The layout of a buffer of such vertices.
    fn desc() -> (layout: VertexBufferDescriptor)
        ensures
            layout.stride == Self::stride(),
            layout.step_mode == InputStepMode::Vertex,
            layout.attributes@ == packed_attributes(Self::formats()),
    ;
}

/// A vertex that is a position: three floats.
pub struct VertexPlain;

/// A vertex that is a position and a texture coordinate: three floats and
/// two.
pub struct VertexTex;

/// A vertex that is a position, a texture coordinate and a normal: three
/// floats, two and three.
pub struct VertexTexNormal;

/// The bytes of one position-only vertex.
pub const VERTEX_PLAIN_SIZE: u64 = 12;

/// The bytes of one textured vertex.
pub const VERTEX_TEX_SIZE: u64 = 20;

/// The bytes of one textured vertex with a normal.
pub const VERTEX_TEX_NORMAL_SIZE: u64 = 32;

impl VertexDesc for VertexPlain {
    /// Position-only vertices are stepped at the distance of textured ones.
    open spec fn stride() -> u64 {
        VERTEX_TEX_SIZE
    }

    open spec fn formats() -> Seq<(u32, VertexFormat)> {
        seq![(0u32, VertexFormat::Float3)]
    }

    fn desc() -> (layout: VertexBufferDescriptor) {
        let formats = [(0u32, VertexFormat::Float3)];
        assert(formats@ =~= Self::formats());
        VertexBufferDescriptor {
            stride: VERTEX_TEX_SIZE,
            step_mode: InputStepMode::Vertex,
            attributes: vertex_attr_array(formats.as_slice()),
        }
    }
}

impl VertexDesc for VertexTex {
    open spec fn stride() -> u64 {
        VERTEX_TEX_SIZE
    }

    open spec fn formats() -> Seq<(u32, VertexFormat)> {
        seq![(0u32, VertexFormat::Float3), (1u32, VertexFormat::Float2)]
    }

    fn desc() -> (layout: VertexBufferDescriptor) {
        let formats = [(0u32, VertexFormat::Float3), (1u32, VertexFormat::Float2)];
        assert(formats@ =~= Self::formats());
        VertexBufferDescriptor {
            stride: VERTEX_TEX_SIZE,
            step_mode: InputStepMode::Vertex,
            attributes: vertex_attr_array(formats.as_slice()),
        }
    }
}

impl VertexDesc for VertexTexNormal {
    open spec fn stride() -> u64 {
        VERTEX_TEX_NORMAL_SIZE
    }

    open spec fn formats() -> Seq<(u32, VertexFormat)> {
        seq![
            (0u32, VertexFormat::Float3),
            (1u32, VertexFormat::Float2),
            (2u32, VertexFormat::Float3),
        ]
    }

    fn desc() -> (layout: VertexBufferDescriptor) {
        let formats = [
            (0u32, VertexFormat::Float3),
            (1u32, VertexFormat::Float2),
            (2u32, VertexFormat::Float3),
        ];
        assert(formats@ =~= Self::formats());
        VertexBufferDescriptor {
            stride: VERTEX_TEX_NORMAL_SIZE,
            step_mode: InputStepMode::Vertex,
            attributes: vertex_attr_array(formats.as_slice()),
        }
    }
}

/// The bytes of the camera block: a four-vector and two four-by-four
/// matrices of 32-bit numbers.
pub const MVP_UNIFORMS_SIZE: usize = 144;

/// The bytes of the lighting block: nine four-vectors of 32-bit numbers.
pub const PBR_FRAGMENT_UNIFORMS_SIZE: usize = 144;

/// The bytes of one instance transform: a four-by-four matrix.
pub const TRANSFORM_RAW_SIZE: usize = 64;

/// The bytes of one instance material: a four-vector.
pub const MATERIAL_INFO_RAW_SIZE: usize = 16;

/// The camera block as the GPU reads it, byte for byte: the position of
/// the eye as a four-vector, the view-projection matrix and the model
/// matrix.
#[derive(Clone, Copy, Debug, PartialEq, Eq)]
pub struct MvpUniforms {
    pub view_position: [u8; 16],
    pub view_proj: [u8; 64],
    pub model: [u8; 64],
}

fn append_bytes(bytes: &mut Vec<u8>, field: &[u8])
    ensures
        final(bytes)@ == old(bytes)@ + field@,
{
    let mut i: usize = 0;
    while i < field.len()
        invariant
            i <= field@.len(),
            bytes@ == old(bytes)@ + field@.subrange(0, i as int),
        decreases field@.len() - i,
    {
        bytes.push(field[i]);
        assert(bytes@ =~= old(bytes)@ + field@.subrange(0, i + 1));
        i += 1;
    }
    assert(field@.subrange(0, i as int) =~= field@);
}

impl MvpUniforms {
    /// The bytes of the block: its three fields one behind the other.
    pub open spec fn bytes(&self) -> Seq<u8> {
        self.view_position@ + self.view_proj@ + self.model@
    }

    /// Takes the position of the eye and the view-projection matrix of a
    /// camera. The model matrix stays.
    pub fn update_view_proj(&mut self, view_position: [u8; 16], view_proj: [u8; 64])
        ensures
            *final(self) == (MvpUniforms { view_position, view_proj, model: old(self).model }),
    {
        self.view_position = view_position;
        self.view_proj = view_proj;
    }

    /// Takes a model matrix. The camera's part stays.
    pub fn update_model(&mut self, model: &[u8; 64])
        ensures
            *final(self) == (MvpUniforms { model: *model, ..*old(self) }),
    {
        self.model = *model;
    }

    /// The bytes of the block.
    pub fn to_vec(&self) -> (bytes: Vec<u8>)
        ensures
            bytes@ == self.bytes(),
            bytes@.len() == MVP_UNIFORMS_SIZE,
    {
        let mut bytes: Vec<u8> = Vec::new();
        append_bytes(&mut bytes, self.view_position.as_slice());
        append_bytes(&mut bytes, self.view_proj.as_slice());
        append_bytes(&mut bytes, self.model.as_slice());
        assert(bytes@ =~= self.bytes());
        bytes
    }
}

/// A four-vector of exact fractions.
#[derive(Clone, Copy, Debug, PartialEq, Eq, Structural)]
pub struct Vec4 {
    pub x: Ratio,
    pub y: Ratio,
    pub z: Ratio,
    pub w: Ratio,
}

/// The lighting block: the base colour and four lights.
#[derive(Clone, Copy, Debug, PartialEq, Eq)]
pub struct PbrFragmentUniforms {
    pub albedo: Vec4,
    pub light_positions: [Vec4; 4],
    pub light_colors: [Vec4; 4],
}

/// The material of one instance.
#[derive(Clone, Copy, Debug, PartialEq, Eq, Structural)]
pub struct MaterialInfoRaw {
    pub metallic: Ratio,
    pub roughness: Ratio,
    pub ambient_occlusion: Ratio,
    pub padding: Ratio,
}

/// The transform of one instance: the shift by `(x, y, z)`.
#[derive(Clone, Copy, Debug, PartialEq, Eq, Structural)]
pub struct TransformRaw {
    pub x: Ratio,
    pub y: Ratio,
    pub z: Ratio,
}

} // verus!
