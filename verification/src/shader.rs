//! Shader plumbing around the compiler: what to hand to it, and how its
//! binary output is read into the words of a shader module.

use vstd::prelude::*;
use vstd::string::*;

verus! {

/// `std::io::Error`, the error that `wgpu::read_spirv` reports. Nothing is
/// said of its values.
#[verifier::external_type_specification]
#[verifier::external_body]
pub struct ExIoError(std::io::Error);

/// The stage that a shader is written for.
#[derive(Clone, Copy, Debug, PartialEq, Eq, Structural)]
pub enum ShaderKind {
    Vertex,
    Fragment,
}

/// One compilation: the source text, its stage, the file name that
/// diagnostics carry, and the entry symbol.
#[derive(Clone, Debug, PartialEq, Eq)]
pub struct ShaderRequest<'a> {
    pub source: &'a str,
    pub kind: ShaderKind,
    pub file_name: String,
    pub entry_point: &'static str,
}

/// The file-name suffix of a stage.
pub open spec fn stage_suffix(kind: ShaderKind) -> Seq<char> {
    match kind {
        ShaderKind::Vertex => "_vs.glsl"@,
        ShaderKind::Fragment => "_fs.glsl"@,
    }
}

/// The compilation of one stage of the effect named `tag`.
pub fn shader_request<'a>(source: &'a str, kind: ShaderKind, tag: &str) -> (request: ShaderRequest<
    'a,
>)
    ensures
        request.source@ == source@,
        request.kind == kind,
        request.file_name@ == tag@ + stage_suffix(kind),
        request.entry_point@ == "main"@,
{
    let suffix = match kind {
        ShaderKind::Vertex => "_vs.glsl",
        ShaderKind::Fragment => "_fs.glsl",
    };
    let file_name = String::from_str(tag).concat(suffix);
    ShaderRequest { source, kind, file_name, entry_point: "main" }
}

/// The first word of every SPIR-V binary.
pub const SPIRV_MAGIC: u32 = 0x0723_0203;

/// The `i`-th group of four bytes, read with the lowest byte first.
pub open spec fn word_le(bytes: Seq<u8>, i: int) -> int {
    bytes[4 * i] + 0x100 * bytes[4 * i + 1] + 0x1_0000 * bytes[4 * i + 2] + 0x100_0000 * bytes[4 * i
        + 3]
}

/// The `i`-th group of four bytes, read with the highest byte first.
pub open spec fn word_be(bytes: Seq<u8>, i: int) -> int {
    bytes[4 * i + 3] + 0x100 * bytes[4 * i + 2] + 0x1_0000 * bytes[4 * i + 1] + 0x100_0000 * bytes[4
        * i]
}

/// Whether `bytes` is a whole number of words that starts with the magic
/// word, in either byte order.
pub open spec fn is_spirv(bytes: Seq<u8>) -> bool {
    &&& bytes.len() % 4 == 0
    &&& bytes.len() >= 4
    &&& (word_le(bytes, 0) == SPIRV_MAGIC || word_be(bytes, 0) == SPIRV_MAGIC)
}

/// The words of a binary, read in the byte order that its magic word shows.
pub open spec fn spirv_words(bytes: Seq<u8>) -> Seq<u32> {
    Seq::new(
        (bytes.len() / 4) as nat,
        |i: int|
            if word_le(bytes, 0) == SPIRV_MAGIC {
                word_le(bytes, i) as u32
            } else {
                word_be(bytes, i) as u32
            },
    )
}

/// Why a byte string is no SPIR-V binary.
#[derive(Clone, Copy, Debug, PartialEq, Eq, Structural)]
pub enum SpirvError {
    /// The length is no multiple of four.
    Misaligned,
    /// The first word is not the magic word.
    MissingMagic,
}

/// Calls `wgpu::read_spirv` on the bytes as an in-memory stream. That
/// function refuses a length that is no multiple of four, reads the bytes
/// as words of the machine's byte order, swaps the bytes of every word if
/// the first one is the magic word reversed, and then refuses anything
/// whose first word is not the magic word. Whatever the machine's byte
/// order, the words that come out are those of the byte order in which the
/// input spells the magic word.
#[verifier::external_body]
fn read_words(bytes: &[u8]) -> (outcome: Result<Vec<u32>, std::io::Error>)
    ensures
        outcome is Ok <==> is_spirv(bytes@),
        outcome matches Ok(words) ==> words@ == spirv_words(bytes@),
{
    wgpu::read_spirv(std::io::Cursor::new(bytes))
}

/// Reads a compiled shader into the words of a shader module.
pub fn read_spirv(bytes: &[u8]) -> (outcome: Result<Vec<u32>, SpirvError>)
    ensures
        outcome is Ok <==> is_spirv(bytes@),
        outcome matches Ok(words) ==> words@ == spirv_words(bytes@),
        outcome matches Err(e) ==> e == (if bytes@.len() % 4 != 0 {
            SpirvError::Misaligned
        } else {
            SpirvError::MissingMagic
        }),
{
    match read_words(bytes) {
        Ok(words) => Ok(words),
        Err(_) => if bytes.len() % 4 != 0 {
            Err(SpirvError::Misaligned)
        } else {
            Err(SpirvError::MissingMagic)
        },
    }
}

} // verus!
