//! Textures as a backend creates them.

use crate::gpu::Buffer;
use crate::gpu::BufferUsage;
use crate::gpu::TextureFormat;
use vstd::prelude::*;

verus! {

/// What a texture may be used for.
#[derive(Clone, Copy, Debug, PartialEq, Eq, Structural)]
pub struct TextureUsage {
    pub copy_src: bool,
    pub copy_dst: bool,
    pub sampled: bool,
    pub storage: bool,
    pub output_attachment: bool,
}

impl TextureUsage {
    /// A texture that is filled once by a copy and then sampled.
    pub open spec fn sampled_image() -> TextureUsage {
        TextureUsage {
            copy_src: false,
            copy_dst: true,
            sampled: true,
            storage: false,
            output_attachment: false,
        }
    }

    /// A texture that a render pass writes and a shader may sample.
    pub open spec fn sampled_attachment() -> TextureUsage {
        TextureUsage {
            copy_src: false,
            copy_dst: false,
            sampled: true,
            storage: false,
            output_attachment: true,
        }
    }
}

/// The surface that frames are presented on.
#[derive(Clone, Copy, Debug, PartialEq, Eq, Structural)]
pub struct SwapChainDescriptor {
    pub format: TextureFormat,
    pub width: u32,
    pub height: u32,
}

/// A two-dimensional texture with its view and its sampler.
#[derive(Clone, Copy, Debug, PartialEq, Eq)]
pub struct Texture {
    pub width: u32,
    pub height: u32,
    pub format: TextureFormat,
    pub usage: TextureUsage,
    pub label: Option<&'static str>,
}

/// The upload of an image into its texture: a transient buffer that holds
/// the texels row by row, and how the copy reads it.
#[derive(Clone, Debug, PartialEq, Eq)]
pub struct TextureUpload {
    pub staging: Buffer,
    pub bytes_per_row: u32,
    pub rows_per_image: u32,
}

/// Why pixels cannot become a texture.
#[derive(Clone, Copy, Debug, PartialEq, Eq, Structural)]
pub enum ImageError {
    /// The pixels are not four bytes for each texel of the image.
    WrongLength { width: u32, height: u32, actual: usize },
    /// A row of the image has more bytes than a copy can step over.
    TooWide { width: u32 },
}

/// The most texels that a row can have: a row's bytes are counted in 32
/// bits.
pub const MAX_ROW_TEXELS: u32 = 0x3fff_ffff;

/// Why `len` bytes of pixels cannot become a texture of the given size.
pub open spec fn image_fault(len: nat, width: u32, height: u32) -> Option<ImageError> {
    if width > MAX_ROW_TEXELS {
        Some(ImageError::TooWide { width })
    } else if len != 4 * width * height {
        Some(ImageError::WrongLength { width, height, actual: len as usize })
    } else {
        None
    }
}

/// The one depth format of the renderer.
pub open spec fn depth_format() -> TextureFormat {
    TextureFormat::Depth32Float
}

impl Texture {
    /// The one depth format of the renderer.
    pub fn depth_format() -> (format: TextureFormat)
        ensures
            format == depth_format(),
    {
        TextureFormat::Depth32Float
    }

    /// The depth texture for a surface: as large as the surface, in the
    /// depth format.
    pub fn create_depth_texture(sc_desc: &SwapChainDescriptor, label: &'static str) -> (texture:
        Texture)
        ensures
            texture.width == sc_desc.width,
            texture.height == sc_desc.height,
            texture.format == depth_format(),
            texture.usage == TextureUsage::sampled_attachment(),
            texture.label matches Some(l) && l@ == label@,
    {
        Texture {
            width: sc_desc.width,
            height: sc_desc.height,
            format: TextureFormat::Depth32Float,
            usage: TextureUsage {
                copy_src: false,
                copy_dst: false,
                sampled: true,
                storage: false,
                output_attachment: true,
            },
            label: Some(label),
        }
    }

    /// The texture for decoded pixels, four bytes for each texel and row by
    /// row, and the upload that fills it.
    pub fn from_pixels(pixels: Vec<u8>, width: u32, height: u32, is_normal_map: bool) -> (outcome:
        Result<(Texture, TextureUpload), ImageError>)
        ensures
            outcome is Ok <==> image_fault(pixels@.len(), width, height) is None,
            outcome matches Err(e) ==> image_fault(pixels@.len(), width, height) == Some(e),
            outcome matches Ok(created) ==> {
                &&& created.0.width == width
                &&& created.0.height == height
                &&& created.0.format == (if is_normal_map {
                    TextureFormat::Rgba8Unorm
                } else {
                    TextureFormat::Rgba8UnormSrgb
                })
                &&& created.0.usage == TextureUsage::sampled_image()
                &&& created.0.label is None
                &&& created.1.staging.contents@ == pixels@
                &&& created.1.staging.usage == BufferUsage::staging()
                &&& created.1.bytes_per_row == 4 * width
                &&& created.1.rows_per_image == height
            },
    {
        if width > MAX_ROW_TEXELS {
            return Err(ImageError::TooWide { width });
        }
        let row: u128 = 4 * (width as u128);
        assert(row * height <= 0x4_0000_0000_0000_0000) by (nonlinear_arith)
            requires
                row <= 0x4_0000_0000,
                height <= 0xffff_ffff,
        ;
        let expected: u128 = row * (height as u128);
        assert(expected == 4 * width * height) by (nonlinear_arith)
            requires
                expected == row * height,
                row == 4 * width,
        ;
        if pixels.len() as u128 != expected {
            return Err(ImageError::WrongLength { width, height, actual: pixels.len() });
        }
        let texture = Texture::from_image(width, height, is_normal_map);
        let staging = Buffer::with_data(
            pixels,
            BufferUsage {
                copy_src: true,
                copy_dst: false,
                index: false,
                vertex: false,
                uniform: false,
                storage: false,
                storage_read: false,
            },
        );
        Ok((texture, TextureUpload { staging, bytes_per_row: 4 * width, rows_per_image: height }))
    }

    /// The texture for a decoded image of the given size. The texels of a
    /// normal map are taken as they are; those of any other image are
    /// taken as sRGB.
    pub fn from_image(width: u32, height: u32, is_normal_map: bool) -> (texture: Texture)
        ensures
            texture.width == width,
            texture.height == height,
            texture.format == (if is_normal_map {
                TextureFormat::Rgba8Unorm
            } else {
                TextureFormat::Rgba8UnormSrgb
            }),
            texture.usage == TextureUsage::sampled_image(),
            texture.label is None,
    {
        Texture {
            width,
            height,
            format: if is_normal_map {
                TextureFormat::Rgba8Unorm
            } else {
                TextureFormat::Rgba8UnormSrgb
            },
            usage: TextureUsage {
                copy_src: false,
                copy_dst: true,
                sampled: true,
                storage: false,
                output_attachment: false,
            },
            label: None,
        }
    }
}

} // verus!
