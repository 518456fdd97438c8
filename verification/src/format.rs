//! The texture formats a container can be transcoded to, and the fixed
//! geometry of each.

use vstd::prelude::*;

verus! {

/// GPU texture format that a level can be transcoded to.
///
/// A format is either block-compressed (a fixed number of bytes encodes a
/// rectangle of texels) or a raster format (a fixed number of bytes encodes
/// one pixel, rows stored one after another).
#[allow(non_camel_case_types)]
#[non_exhaustive]
#[derive(Copy, Clone, Debug, PartialEq, Eq)]
pub enum OutputFormat {
    /// BC1, colour without alpha.
    BC1_RGB,
    /// BC3: a BC4 alpha block followed by a BC1 colour block.
    BC3_RGBA,
    /// BC4, a single channel.
    BC4_R,
    /// BC5: two BC4 blocks, one per channel.
    BC5_RG,
    /// BC7, colour with or without alpha.
    BC7_RGBA,
    /// ETC1, colour without alpha.
    ETC1_RGB,
    /// ETC2: an EAC alpha block followed by an ETC1 colour block.
    ETC2_RGBA,
    /// EAC R11, a single unsigned channel.
    ETC2_EAC_R11,
    /// EAC RG11, two unsigned channels.
    ETC2_EAC_RG11,
    /// ASTC with 4x4 blocks, colour with alpha.
    ASTC_4x4_RGBA,
    /// PVRTC1 at four bits per texel, colour without alpha.
    PVRTC1_4_RGB,
    /// PVRTC1 at four bits per texel, colour with alpha.
    PVRTC1_4_RGBA,
    /// PVRTC2 at four bits per texel, colour without alpha.
    PVRTC2_4_RGB,
    /// PVRTC2 at four bits per texel, colour with alpha.
    PVRTC2_4_RGBA,
    /// ATC, colour without alpha.
    ATC_RGB,
    /// ATC, colour with interpolated alpha.
    ATC_RGBA,
    /// FXT1, colour without alpha; the one format whose blocks are 8 texels wide.
    FXT1_RGB,
    /// Raster, four bytes per pixel: red, green, blue, alpha.
    RGBA32,
    /// Raster, two bytes per pixel: 5 bits red, 6 green, 5 blue.
    RGB565,
    /// Raster, two bytes per pixel: 4 bits for each of red, green, blue, alpha.
    RGBA4444,
    /// Raster, two bytes per pixel: 5 bits blue, 6 green, 5 red.
    BGR565,
}

impl OutputFormat {
    /// Whether the format stores single pixels in raster order.
    pub open spec fn spec_is_uncompressed(&self) -> bool {
        self is RGBA32 || self is RGB565 || self is RGBA4444 || self is BGR565
    }

    /// Whether the format packs 128 bits into a block; the other block
    /// formats pack 64.
    pub open spec fn spec_has_128_bit_block(&self) -> bool {
        self is BC3_RGBA || self is BC5_RG || self is BC7_RGBA || self is ETC2_RGBA
            || self is ETC2_EAC_RG11 || self is ASTC_4x4_RGBA || self is ATC_RGBA
            || self is FXT1_RGB
    }

    /// Bytes that one block holds, or one pixel of a raster format.
    pub open spec fn spec_bytes_per_block(&self) -> u32 {
        if self is RGBA32 {
            4
        } else if self.spec_is_uncompressed() {
            2
        } else if self.spec_has_128_bit_block() {
            16
        } else {
            8
        }
    }

    /// Texels across one block; 1 for a raster format.
    pub open spec fn spec_block_width(&self) -> u32 {
        if self.spec_is_uncompressed() {
            1
        } else if self is FXT1_RGB {
            8
        } else {
            4
        }
    }

    /// Texels down one block; 1 for a raster format.
    pub open spec fn spec_block_height(&self) -> u32 {
        if self.spec_is_uncompressed() {
            1
        } else {
            4
        }
    }

    /// Whether the format stores single pixels in raster order rather than
    /// blocks.
    #[verifier::when_used_as_spec(spec_is_uncompressed)]
    pub fn is_uncompressed(&self) -> (raster: bool)
        ensures
            raster == self.spec_is_uncompressed(),
    {
        match self {
            OutputFormat::RGBA32
            | OutputFormat::RGB565
            | OutputFormat::RGBA4444
            | OutputFormat::BGR565 => true,
            _ => false,
        }
    }

    /// Bytes that one block of the format occupies, or one pixel of a raster
    /// format. Never zero.
    #[verifier::when_used_as_spec(spec_bytes_per_block)]
    pub fn bytes_per_block(&self) -> (bytes: u32)
        ensures
            bytes == self.spec_bytes_per_block(),
            bytes > 0,
    {
        match self {
            OutputFormat::BC1_RGB
            | OutputFormat::BC4_R
            | OutputFormat::ETC1_RGB
            | OutputFormat::ETC2_EAC_R11
            | OutputFormat::PVRTC1_4_RGB
            | OutputFormat::PVRTC1_4_RGBA
            | OutputFormat::PVRTC2_4_RGB
            | OutputFormat::PVRTC2_4_RGBA
            | OutputFormat::ATC_RGB => 8,
            OutputFormat::BC3_RGBA
            | OutputFormat::BC5_RG
            | OutputFormat::BC7_RGBA
            | OutputFormat::ETC2_RGBA
            | OutputFormat::ETC2_EAC_RG11
            | OutputFormat::ASTC_4x4_RGBA
            | OutputFormat::ATC_RGBA
            | OutputFormat::FXT1_RGB => 16,
            OutputFormat::RGBA32 => 4,
            OutputFormat::RGB565 | OutputFormat::RGBA4444 | OutputFormat::BGR565 => 2,
        }
    }

    /// Width of one block in texels: 1 for a raster format, whose unit is
    /// the pixel.
    #[verifier::when_used_as_spec(spec_block_width)]
    pub fn block_width(&self) -> (width: u32)
        ensures
            width == self.spec_block_width(),
    {
        if self.is_uncompressed() {
            return 1;
        }
        match self {
            OutputFormat::FXT1_RGB => 8,
            _ => 4,
        }
    }

    /// Height of one block in texels: 1 for a raster format, whose unit is
    /// the pixel.
    #[verifier::when_used_as_spec(spec_block_height)]
    pub fn block_height(&self) -> (height: u32)
        ensures
            height == self.spec_block_height(),
    {
        if self.is_uncompressed() {
            return 1;
        }
        4
    }
}

/// Every format has a positive block size, and a raster format has blocks of
/// one pixel by one pixel.
pub proof fn lemma_format_geometry(format: OutputFormat)
    ensures
        format.spec_bytes_per_block() > 0,
        format.spec_is_uncompressed() ==> format.spec_block_width() == 1
            && format.spec_block_height() == 1,
{
}

} // verus!
