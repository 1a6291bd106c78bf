//! Plain-value descriptions of GPU objects: what a backend needs to create
//! a buffer, a texture, a binding schema or a bind group.

use vstd::prelude::*;

verus! {

/// The shader stages that can see a binding.
#[derive(Clone, Copy, Debug, PartialEq, Eq, Structural)]
pub struct ShaderStage {
    pub vertex: bool,
    pub fragment: bool,
    pub compute: bool,
}

impl ShaderStage {
    pub open spec fn vertex_only() -> ShaderStage {
        ShaderStage { vertex: true, fragment: false, compute: false }
    }

    pub open spec fn fragment_only() -> ShaderStage {
        ShaderStage { vertex: false, fragment: true, compute: false }
    }

    pub open spec fn vertex_and_fragment() -> ShaderStage {
        ShaderStage { vertex: true, fragment: true, compute: false }
    }
}

/// What a buffer may be used for.
#[derive(Clone, Copy, Debug, PartialEq, Eq, Structural)]
pub struct BufferUsage {
    pub copy_src: bool,
    pub copy_dst: bool,
    pub index: bool,
    pub vertex: bool,
    pub uniform: bool,
    pub storage: bool,
    pub storage_read: bool,
}

impl BufferUsage {
    pub open spec fn empty() -> BufferUsage {
        BufferUsage {
            copy_src: false,
            copy_dst: false,
            index: false,
            vertex: false,
            uniform: false,
            storage: false,
            storage_read: false,
        }
    }

    /// A buffer that only feeds a copy.
    pub open spec fn staging() -> BufferUsage {
        BufferUsage { copy_src: true, ..Self::empty() }
    }

    /// A uniform buffer that copies may write to.
    pub open spec fn uniform_target() -> BufferUsage {
        BufferUsage { uniform: true, copy_dst: true, ..Self::empty() }
    }

    pub open spec fn vertex_data() -> BufferUsage {
        BufferUsage { vertex: true, ..Self::empty() }
    }

    pub open spec fn index_data() -> BufferUsage {
        BufferUsage { index: true, ..Self::empty() }
    }

    /// A storage buffer that shaders only read.
    pub open spec fn read_only_storage() -> BufferUsage {
        BufferUsage { storage_read: true, ..Self::empty() }
    }
}

/// A buffer as created: its usage and the bytes it is created with.
#[derive(Clone, Debug, PartialEq, Eq)]
pub struct Buffer {
    pub usage: BufferUsage,
    pub contents: Vec<u8>,
}

impl Buffer {
    /// The size of the buffer in bytes.
    pub open spec fn size(&self) -> nat {
        self.contents@.len()
    }

    /// Creates a buffer that holds `contents`.
    pub fn with_data(contents: Vec<u8>, usage: BufferUsage) -> (buffer: Buffer)
        ensures
            buffer.contents@ == contents@,
            buffer.usage == usage,
    {
        Buffer { usage, contents }
    }

    /// Creates a buffer that holds `contents`, which must be `expected`
    /// bytes long.
    pub fn with_sized_data(contents: Vec<u8>, usage: BufferUsage, expected: usize) -> (outcome:
        Result<Buffer, SizeMismatch>)
        ensures
            outcome is Ok <==> contents@.len() == expected,
            outcome matches Ok(buffer) ==> buffer.contents@ == contents@ && buffer.usage == usage,
            outcome matches Err(e) ==> e.expected == expected && e.actual == contents@.len(),
    {
        if contents.len() == expected {
            Ok(Buffer { usage, contents })
        } else {
            Err(SizeMismatch { expected, actual: contents.len() })
        }
    }

    /// The size of the buffer in bytes.
    pub fn len(&self) -> (n: usize)
        ensures
            n == self.size(),
    {
        self.contents.len()
    }
}

/// An upload whose length is not the one its binding declares.
#[derive(Clone, Copy, Debug, PartialEq, Eq, Structural)]
pub struct SizeMismatch {
    pub expected: usize,
    pub actual: usize,
}

/// A copy of `size` bytes from one buffer into another.
#[derive(Clone, Copy, Debug, PartialEq, Eq, Structural)]
pub struct BufferCopy {
    pub source_offset: u64,
    pub destination_offset: u64,
    pub size: u64,
}

/// What `destination` holds once `copy` has taken its bytes from `source`.
pub open spec fn after_copy(destination: Seq<u8>, source: Seq<u8>, copy: BufferCopy) -> Seq<u8>
    recommends
        copy.source_offset + copy.size <= source.len(),
        copy.destination_offset + copy.size <= destination.len(),
{
    Seq::new(
        destination.len(),
        |i: int|
            if copy.destination_offset <= i < copy.destination_offset + copy.size {
                source[i - copy.destination_offset + copy.source_offset]
            } else {
                destination[i]
            },
    )
}

/// The texel formats that the renderer uses.
#[derive(Clone, Copy, Debug, PartialEq, Eq, Structural)]
pub enum TextureFormat {
    Rgba8Unorm,
    Rgba8UnormSrgb,
    Bgra8Unorm,
    Bgra8UnormSrgb,
    Depth32Float,
}

/// The shape in which a shader sees a texture.
#[derive(Clone, Copy, Debug, PartialEq, Eq, Structural)]
pub enum TextureViewDimension {
    D1,
    D2,
    D2Array,
    Cube,
    CubeArray,
    D3,
}

/// The kind of number that a shader reads from a texture.
#[derive(Clone, Copy, Debug, PartialEq, Eq, Structural)]
pub enum TextureComponentType {
    Float,
    Sint,
    Uint,
}

/// The kind of resource a binding slot expects.
#[derive(Clone, Copy, Debug, PartialEq, Eq, Structural)]
pub enum BindingType {
    UniformBuffer { dynamic: bool },
    StorageBuffer { dynamic: bool, readonly: bool },
    Sampler { comparison: bool },
    SampledTexture {
        dimension: TextureViewDimension,
        component_type: TextureComponentType,
        multisampled: bool,
    },
}

/// One slot of a binding schema.
#[derive(Clone, Copy, Debug, PartialEq, Eq, Structural)]
pub struct BindGroupLayoutEntry {
    pub binding: u32,
    pub visibility: ShaderStage,
    pub ty: BindingType,
}

/// A binding schema: the ordered slots that a shader expects.
#[derive(Clone, Debug, PartialEq, Eq)]
pub struct BindGroupLayout {
    pub entries: Vec<BindGroupLayoutEntry>,
    pub label: &'static str,
}

/// The resource bound to one slot. `source` is the position of the resource
/// in the list that the bind group was made from: the backend binds the
/// object it created for that position.
#[derive(Clone, Copy, Debug, PartialEq, Eq, Structural)]
pub enum BindingResource {
    /// The bytes `start..end` of a buffer of `size` bytes and usage `usage`.
    Buffer { source: usize, usage: BufferUsage, size: u64, start: u64, end: u64 },
    Sampler { source: usize },
    TextureView { source: usize },
}

/// A resource and the number of the slot that it fills.
#[derive(Clone, Copy, Debug, PartialEq, Eq, Structural)]
pub struct Binding {
    pub binding: u32,
    pub resource: BindingResource,
}

/// A bind group: the resources that fill the slots of one schema.
#[derive(Clone, Debug, PartialEq, Eq)]
pub struct BindGroup {
    pub bindings: Vec<Binding>,
    pub label: &'static str,
}

/// Why a list of bindings does not fit a schema.
#[derive(Clone, Copy, Debug, PartialEq, Eq, Structural)]
pub enum BindGroupError {
    /// The list and the schema differ in length.
    CountMismatch,
    /// The binding at this position names another slot than the schema.
    SlotMismatch { position: usize },
    /// The resource at this position is not of the kind the slot expects.
    KindMismatch { position: usize },
    /// The buffer at this position lacks the usage the slot needs.
    UsageMismatch { position: usize },
    /// The bound range at this position does not lie inside its buffer.
    RangeMismatch { position: usize },
}

/// The usage a buffer needs to fill a slot of type `ty`.
pub open spec fn has_usage_for(usage: BufferUsage, ty: BindingType) -> bool {
    match ty {
        BindingType::UniformBuffer { .. } => usage.uniform,
        BindingType::StorageBuffer { readonly, .. } => if readonly {
            usage.storage_read
        } else {
            usage.storage
        },
        _ => false,
    }
}

/// The first fault of `binding` against `slot`, at position `position`.
pub open spec fn binding_fault(slot: BindGroupLayoutEntry, binding: Binding, position: usize)
    -> Option<BindGroupError> {
    if binding.binding != slot.binding {
        Some(BindGroupError::SlotMismatch { position })
    } else {
        match (binding.resource, slot.ty) {
            (BindingResource::Buffer { usage, size, start, end, .. }, BindingType::UniformBuffer { .. })
            | (BindingResource::Buffer { usage, size, start, end, .. }, BindingType::StorageBuffer { .. }) => {
                if !has_usage_for(usage, slot.ty) {
                    Some(BindGroupError::UsageMismatch { position })
                } else if !(start <= end <= size) {
                    Some(BindGroupError::RangeMismatch { position })
                } else {
                    None
                }
            },
            (BindingResource::Sampler { .. }, BindingType::Sampler { .. }) => None,
            (BindingResource::TextureView { .. }, BindingType::SampledTexture { .. }) => None,
            _ => Some(BindGroupError::KindMismatch { position }),
        }
    }
}

/// Whether `bindings` fills the slots of `entries`: same count, and slot by
/// slot the same number and a resource of the expected kind.
pub open spec fn fits(entries: Seq<BindGroupLayoutEntry>, bindings: Seq<Binding>) -> bool {
    &&& bindings.len() == entries.len()
    &&& forall|i: int|
        0 <= i < bindings.len() ==> (#[trigger] binding_fault(entries[i], bindings[i], i as usize)) is None
}

/// The fault that a validation of `bindings` against `entries` reports: a
/// differing count first, else the fault at the first position that has one.
pub open spec fn first_fault(entries: Seq<BindGroupLayoutEntry>, bindings: Seq<Binding>)
    -> Option<BindGroupError> {
    if bindings.len() != entries.len() {
        Some(BindGroupError::CountMismatch)
    } else {
        fault_from(entries, bindings, 0)
    }
}

/// The fault at the first position at or after `from` that has one.
pub open spec fn fault_from(entries: Seq<BindGroupLayoutEntry>, bindings: Seq<Binding>, from: int)
    -> Option<BindGroupError>
    decreases bindings.len() - from,
{
    if from < 0 || from >= bindings.len() {
        None
    } else if binding_fault(entries[from], bindings[from], from as usize) is Some {
        binding_fault(entries[from], bindings[from], from as usize)
    } else {
        fault_from(entries, bindings, from + 1)
    }
}

fn check_binding(slot: &BindGroupLayoutEntry, binding: &Binding, position: usize) -> (fault: Option<
    BindGroupError,
>)
    ensures
        fault == binding_fault(*slot, *binding, position),
{
    if binding.binding != slot.binding {
        return Some(BindGroupError::SlotMismatch { position });
    }
    match binding.resource {
        BindingResource::Buffer { usage, size, start, end, .. } => {
            let usage_ok = match slot.ty {
                BindingType::UniformBuffer { .. } => usage.uniform,
                BindingType::StorageBuffer { readonly, .. } => if readonly {
                    usage.storage_read
                } else {
                    usage.storage
                },
                _ => {
                    return Some(BindGroupError::KindMismatch { position });
                },
            };
            if !usage_ok {
                Some(BindGroupError::UsageMismatch { position })
            } else if !(start <= end && end <= size) {
                Some(BindGroupError::RangeMismatch { position })
            } else {
                None
            }
        },
        BindingResource::Sampler { .. } => match slot.ty {
            BindingType::Sampler { .. } => None,
            _ => Some(BindGroupError::KindMismatch { position }),
        },
        BindingResource::TextureView { .. } => match slot.ty {
            BindingType::SampledTexture { .. } => None,
            _ => Some(BindGroupError::KindMismatch { position }),
        },
    }
}

/// No fault is reported exactly for the lists that fit.
pub proof fn fits_iff_no_fault(entries: Seq<BindGroupLayoutEntry>, bindings: Seq<Binding>)
    ensures
        fits(entries, bindings) <==> first_fault(entries, bindings) is None,
{
    if bindings.len() == entries.len() {
        fault_from_none(entries, bindings, 0);
    }
}

proof fn fault_from_none(entries: Seq<BindGroupLayoutEntry>, bindings: Seq<Binding>, from: int)
    requires
        0 <= from <= bindings.len(),
    ensures
        fault_from(entries, bindings, from) is None <==> forall|i: int|
            from <= i < bindings.len() ==> (#[trigger] binding_fault(
                entries[i],
                bindings[i],
                i as usize,
            )) is None,
    decreases bindings.len() - from,
{
    if from < bindings.len() {
        fault_from_none(entries, bindings, from + 1);
    }
}

impl BindGroupLayout {
    /// Validates `bindings` against this schema.
    pub fn validate(&self, bindings: &Vec<Binding>) -> (outcome: Result<(), BindGroupError>)
        ensures
            outcome is Ok <==> fits(self.entries@, bindings@),
            outcome matches Err(e) ==> first_fault(self.entries@, bindings@) == Some(e),
    {
        if bindings.len() != self.entries.len() {
            return Err(BindGroupError::CountMismatch);
        }
        let mut i: usize = 0;
        while i < bindings.len()
            invariant
                i <= bindings.len(),
                bindings.len() == self.entries.len(),
                fault_from(self.entries@, bindings@, 0) == fault_from(
                    self.entries@,
                    bindings@,
                    i as int,
                ),
            decreases bindings.len() - i,
        {
            match check_binding(&self.entries[i], &bindings[i], i) {
                Some(e) => {
                    return Err(e);
                },
                None => {},
            }
            i += 1;
        }
        proof {
            fits_iff_no_fault(self.entries@, bindings@);
        }
        Ok(())
    }

    /// Makes a bind group of `bindings` if they fit this schema.
    pub fn create_bind_group(&self, bindings: Vec<Binding>, label: &'static str) -> (outcome: Result<
        BindGroup,
        BindGroupError,
    >)
        ensures
            outcome is Ok <==> fits(self.entries@, bindings@),
            outcome matches Ok(group) ==> group.bindings@ == bindings@ && group.label@ == label@,
            outcome matches Err(e) ==> first_fault(self.entries@, bindings@) == Some(e),
    {
        match self.validate(&bindings) {
            Ok(()) => Ok(BindGroup { bindings, label }),
            Err(e) => Err(e),
        }
    }
}

} // verus!
