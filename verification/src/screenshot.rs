//! Capturing the bound render target as an image.
//!
//! A capture takes three steps on the device, each of which can fail: a
//! texture of the target's size is created, the target is copied into it
//! through an encoder of its own that is flushed at once, and the texture is
//! viewed as a shader resource. Each step here says what the device is to do
//! next and takes what came of it; the first failure ends the capture.

use crate::context::{Context, GraphicsModel};
use crate::error::{GameError, MemoryUsage};
use crate::image::Image;
use crate::sampler::SamplerDescriptor;
use crate::target::{
    capture_region, capture_texture_info, capture_view_desc, ChannelSource, ChannelType, Format,
    ImageInfo, RenderTarget, ResourceDesc, ShaderResourceHandle, Swizzle, TargetId,
    TextureHandle, TextureInfo, BIND_SHADER_RESOURCE, BIND_TRANSFER_DST, BIND_TRANSFER_SRC,
};
use vstd::prelude::*;

verus! {

/// What is to be captured: the target, its format, and the sampler that
/// the image will have.
#[derive(Clone, Copy, Debug, PartialEq, Eq, Structural)]
pub struct Capture {
    pub source: RenderTarget,
    pub format: Format,
    pub sampler_info: SamplerDescriptor,
}

/// The request to create the texture that will hold the capture.
#[derive(Clone, Copy, Debug, PartialEq, Eq, Structural)]
pub struct TextureRequest {
    pub info: TextureInfo,
    pub channel: ChannelType,
}

/// The request to copy the target into the texture.
#[derive(Clone, Copy, Debug, PartialEq, Eq, Structural)]
pub struct CopyRequest {
    pub source: TargetId,
    /// The part of the target that is read.
    pub source_region: ImageInfo,
    pub destination: TextureHandle,
    /// The part of the texture that is written.
    pub destination_region: ImageInfo,
}

/// The request to view the texture as a shader resource.
#[derive(Clone, Copy, Debug, PartialEq, Eq, Structural)]
pub struct ViewRequest {
    pub texture: TextureHandle,
    pub desc: ResourceDesc,
}

/// A capture that waits for its texture.
#[derive(Clone, Copy, Debug, PartialEq, Eq, Structural)]
pub struct PendingTexture {
    pub capture: Capture,
}

/// A capture that waits for the copy into its texture.
#[derive(Clone, Copy, Debug, PartialEq, Eq, Structural)]
pub struct PendingCopy {
    pub capture: Capture,
    pub texture: TextureHandle,
}

/// A capture that waits for the view of its texture.
#[derive(Clone, Copy, Debug, PartialEq, Eq, Structural)]
pub struct PendingView {
    pub capture: Capture,
    pub texture: TextureHandle,
}

/// What a context would capture now: the bound target, in the context's
/// colour format, for an image with the default sampler.
pub open spec fn capture_of(g: GraphicsModel) -> Capture {
    Capture { source: g.out, format: g.color_format, sampler_info: g.default_sampler_info }
}

/// The texture that a capture asks for.
pub open spec fn texture_request(c: Capture) -> TextureRequest {
    TextureRequest {
        info: capture_texture_info(c.source.dimensions, c.format),
        channel: c.format.channel,
    }
}

/// The copy that a capture asks for: the whole target into the whole texture.
pub open spec fn copy_request(c: Capture, texture: TextureHandle) -> CopyRequest {
    CopyRequest {
        source: c.source.id,
        source_region: capture_region(c.source.dimensions, c.format),
        destination: texture,
        destination_region: capture_region(c.source.dimensions, c.format),
    }
}

/// The image that a capture ends in.
pub open spec fn captured_image(
    c: Capture,
    texture: TextureHandle,
    view: ShaderResourceHandle,
) -> Image {
    Image {
        texture: view,
        texture_handle: texture,
        sampler_info: c.sampler_info,
        blend_mode: None,
        width: c.source.dimensions.width,
        height: c.source.dimensions.height,
    }
}

/// Begins a capture of the target that is bound now, which need not be the
/// screen and need not have been presented. The context is left as it is.
pub fn screenshot(ctx: &Context) -> (r: (PendingTexture, TextureRequest))
    ensures
        r.0.capture == capture_of(ctx.gfx_context@),
        r.1 == texture_request(capture_of(ctx.gfx_context@)),
{
    let source = ctx.gfx_context.screen_render_target();
    let format = ctx.gfx_context.color_format();
    let capture = Capture {
        source,
        format,
        sampler_info: ctx.gfx_context.default_sampler_info(),
    };
    let bind = BIND_TRANSFER_SRC | BIND_TRANSFER_DST | BIND_SHADER_RESOURCE;
    assert(bind == 0x34) by (bit_vector)
        requires
            bind == 0x10u8 | 0x20u8 | 0x04u8,
    ;
    let info = TextureInfo {
        width: source.dimensions.width,
        height: source.dimensions.height,
        aa: source.dimensions.aa,
        levels: 1,
        format: format.surface,
        bind,
        usage: MemoryUsage::Data,
    };
    (PendingTexture { capture }, TextureRequest { info, channel: format.channel })
}

impl PendingTexture {
    /// Takes what came of creating the texture. With a texture the capture
    /// goes on to the copy; a failure ends it with that failure.
    pub fn texture_created(self, outcome: Result<TextureHandle, GameError>) -> (r: Result<
        (PendingCopy, CopyRequest),
        GameError,
    >)
        ensures
            match outcome {
                Ok(texture) => r == Ok::<(PendingCopy, CopyRequest), GameError>(
                    (
                        PendingCopy { capture: self.capture, texture },
                        copy_request(self.capture, texture),
                    ),
                ),
                Err(e) => r == Err::<(PendingCopy, CopyRequest), GameError>(e),
            },
    {
        let texture = match outcome {
            Ok(texture) => texture,
            Err(e) => {
                return Err(e);
            },
        };
        let c = self.capture;
        let region = ImageInfo {
            xoffset: 0,
            yoffset: 0,
            zoffset: 0,
            width: c.source.dimensions.width,
            height: c.source.dimensions.height,
            depth: 0,
            format: c.format,
            mipmap: 0,
        };
        Ok(
            (
                PendingCopy { capture: c, texture },
                CopyRequest {
                    source: c.source.id,
                    source_region: region,
                    destination: texture,
                    destination_region: region,
                },
            ),
        )
    }
}

impl PendingCopy {
    /// Takes what came of the copy. After a copy the capture goes on to the
    /// view; a failure ends it with that failure.
    pub fn texture_copied(self, outcome: Result<(), GameError>) -> (r: Result<
        (PendingView, ViewRequest),
        GameError,
    >)
        ensures
            match outcome {
                Ok(_) => r == Ok::<(PendingView, ViewRequest), GameError>(
                    (
                        PendingView { capture: self.capture, texture: self.texture },
                        ViewRequest {
                            texture: self.texture,
                            desc: capture_view_desc(self.capture.format),
                        },
                    ),
                ),
                Err(e) => r == Err::<(PendingView, ViewRequest), GameError>(e),
            },
    {
        match outcome {
            Ok(_) => {},
            Err(e) => {
                return Err(e);
            },
        }
        let desc = ResourceDesc {
            channel: self.capture.format.channel,
            layer: None,
            min: 0,
            max: 0,
            swizzle: Swizzle {
                r: ChannelSource::X,
                g: ChannelSource::Y,
                b: ChannelSource::Z,
                a: ChannelSource::W,
            },
        };
        Ok(
            (
                PendingView { capture: self.capture, texture: self.texture },
                ViewRequest { texture: self.texture, desc },
            ),
        )
    }
}

impl PendingView {
    /// Takes what came of viewing the texture. With a view the capture ends
    /// in an image of the target's size that has the sampler that was the
    /// default when the capture began and no blend mode of its own; a
    /// failure ends it with that failure.
    pub fn texture_viewed(self, outcome: Result<ShaderResourceHandle, GameError>) -> (r: Result<
        Image,
        GameError,
    >)
        ensures
            match outcome {
                Ok(view) => r == Ok::<Image, GameError>(
                    captured_image(self.capture, self.texture, view),
                ),
                Err(e) => r == Err::<Image, GameError>(e),
            },
    {
        match outcome {
            Ok(view) => Ok(
                Image {
                    texture: view,
                    texture_handle: self.texture,
                    sampler_info: self.capture.sampler_info,
                    blend_mode: None,
                    width: self.capture.source.dimensions.width,
                    height: self.capture.source.dimensions.height,
                },
            ),
            Err(e) => Err(e),
        }
    }
}

} // verus!
