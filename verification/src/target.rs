//! Render targets and the descriptors of the device resources that a capture
//! of one needs.

use crate::error::MemoryUsage;
use vstd::prelude::*;

verus! {

/// How many samples a texel holds.
#[derive(Clone, Copy, Debug, PartialEq, Eq, Structural)]
pub enum AaMode {
    /// One sample.
    Single,
    /// Multisampling with the given number of samples.
    Multi(u8),
    /// Coverage sampling with the given numbers of samples and fragments.
    Coverage(u8, u8),
}

/// The bits that a surface allots to each channel.
#[derive(Clone, Copy, Debug, PartialEq, Eq, Structural)]
pub enum SurfaceType {
    R4G4,
    R4G4B4A4,
    R5G5B5A1,
    R5G6B5,
    R8,
    R8G8,
    R8G8B8A8,
    R10G10B10A2,
    R11G11B10,
    R16,
    R16G16,
    R16G16B16,
    R16G16B16A16,
    R32,
    R32G32,
    R32G32B32,
    R32G32B32A32,
    B8G8R8A8,
    D16,
    D24,
    D24S8,
    D32,
}

/// How the bits of a channel are read.
#[derive(Clone, Copy, Debug, PartialEq, Eq, Structural)]
pub enum ChannelType {
    Int,
    Uint,
    Inorm,
    Unorm,
    Float,
    Srgb,
}

/// A complete surface format.
#[derive(Clone, Copy, Debug, PartialEq, Eq, Structural)]
pub struct Format {
    pub surface: SurfaceType,
    pub channel: ChannelType,
}

/// The format that render targets have unless a pipeline says otherwise:
/// eight bits per channel, read as sRGB.
pub open spec fn default_color_format() -> Format {
    Format { surface: SurfaceType::R8G8B8A8, channel: ChannelType::Srgb }
}

/// Width, height, depth and sampling of a target or texture.
#[derive(Clone, Copy, Debug, PartialEq, Eq, Structural)]
pub struct Dimensions {
    pub width: u16,
    pub height: u16,
    pub depth: u16,
    pub aa: AaMode,
}

/// Which surface a render target is.
#[derive(Clone, Copy, Debug, PartialEq, Eq, Structural)]
pub enum TargetId {
    /// The physical screen.
    Screen,
    /// An off-screen canvas, by the number its owner gave it.
    Canvas(u32),
}

/// A surface that can be drawn to.
#[derive(Clone, Copy, Debug, PartialEq, Eq, Structural)]
pub struct RenderTarget {
    pub id: TargetId,
    pub dimensions: Dimensions,
}

/// A texture on the device, by the number its owner gave it.
#[derive(Clone, Copy, Debug, PartialEq, Eq, Structural)]
pub struct TextureHandle {
    pub id: u32,
}

/// A view of a texture that shaders can read, by the number its owner gave it.
#[derive(Clone, Copy, Debug, PartialEq, Eq, Structural)]
pub struct ShaderResourceHandle {
    pub id: u32,
}

/// Bind flag: the resource can be read by shaders.
pub const BIND_SHADER_RESOURCE: u8 = 0x04;

/// Bind flag: the resource can be copied from.
pub const BIND_TRANSFER_SRC: u8 = 0x10;

/// Bind flag: the resource can be copied into.
pub const BIND_TRANSFER_DST: u8 = 0x20;

/// What a two-dimensional texture is created with.
#[derive(Clone, Copy, Debug, PartialEq, Eq, Structural)]
pub struct TextureInfo {
    pub width: u16,
    pub height: u16,
    pub aa: AaMode,
    /// The number of mipmap levels.
    pub levels: u8,
    pub format: SurfaceType,
    /// The bind flags, as bits.
    pub bind: u8,
    pub usage: MemoryUsage,
}

/// A box of texels inside one mipmap level of a texture.
#[derive(Clone, Copy, Debug, PartialEq, Eq, Structural)]
pub struct ImageInfo {
    pub xoffset: u16,
    pub yoffset: u16,
    pub zoffset: u16,
    pub width: u16,
    pub height: u16,
    pub depth: u16,
    pub format: Format,
    pub mipmap: u8,
}

/// Where a channel of a view takes its value from.
#[derive(Clone, Copy, Debug, PartialEq, Eq, Structural)]
pub enum ChannelSource {
    Zero,
    One,
    X,
    Y,
    Z,
    W,
}

/// The source of each of the four channels of a view.
#[derive(Clone, Copy, Debug, PartialEq, Eq, Structural)]
pub struct Swizzle {
    pub r: ChannelSource,
    pub g: ChannelSource,
    pub b: ChannelSource,
    pub a: ChannelSource,
}

/// What a shader's view of a texture is created with.
#[derive(Clone, Copy, Debug, PartialEq, Eq, Structural)]
pub struct ResourceDesc {
    pub channel: ChannelType,
    pub layer: Option<u16>,
    /// The first mipmap level of the view.
    pub min: u8,
    /// The last mipmap level of the view.
    pub max: u8,
    pub swizzle: Swizzle,
}

/// The texture that can hold a copy of a target of the given size: one
/// level, of the target's surface type, readable by shaders and usable on
/// both sides of a copy, in memory that the GPU reaches at full speed.
pub open spec fn capture_texture_info(dim: Dimensions, format: Format) -> TextureInfo {
    TextureInfo {
        width: dim.width,
        height: dim.height,
        aa: dim.aa,
        levels: 1,
        format: format.surface,
        bind: 0x34,
        usage: MemoryUsage::Data,
    }
}

/// The whole of the first level of a target of the given size.
pub open spec fn capture_region(dim: Dimensions, format: Format) -> ImageInfo {
    ImageInfo {
        xoffset: 0,
        yoffset: 0,
        zoffset: 0,
        width: dim.width,
        height: dim.height,
        depth: 0,
        format,
        mipmap: 0,
    }
}

/// The view of a captured texture: its first level, read in the target's
/// channel type, each channel from itself.
pub open spec fn capture_view_desc(format: Format) -> ResourceDesc {
    ResourceDesc {
        channel: format.channel,
        layer: None,
        min: 0,
        max: 0,
        swizzle: Swizzle {
            r: ChannelSource::X,
            g: ChannelSource::Y,
            b: ChannelSource::Z,
            a: ChannelSource::W,
        },
    }
}

} // verus!
