use graphics_core::backend::{Backend, DeviceInfo, GlBackendSpec};
use graphics_core::conf::{Conf, WindowMode};
use graphics_core::context::{Context, GraphicsContext};
use graphics_core::error::{GameError, MemoryUsage, ResourceFailure};
use graphics_core::graphics::set_default_filter;
use graphics_core::image::Image;
use graphics_core::sampler::SamplerDescriptor;
use graphics_core::screenshot::{screenshot, CopyRequest, TextureRequest, ViewRequest};
use graphics_core::target::{
    AaMode, ChannelSource, ChannelType, Dimensions, Format, ImageInfo, RenderTarget,
    ResourceDesc, ShaderResourceHandle, SurfaceType, Swizzle, TargetId, TextureHandle,
    TextureInfo, BIND_SHADER_RESOURCE, BIND_TRANSFER_DST, BIND_TRANSFER_SRC,
};
use graphics_core::types::{FilterMode, WrapMode};

fn srgba8() -> Format {
    Format { surface: SurfaceType::R8G8B8A8, channel: ChannelType::Srgb }
}

fn context() -> Context {
    let device = DeviceInfo {
        vendor: String::new(),
        renderer: String::new(),
        version: String::new(),
        shading_language: String::new(),
    };
    let gfx_context = GraphicsContext::new(
        GlBackendSpec::from(Backend::OpenGL { major: 3, minor: 2 }),
        device,
        srgba8(),
        Dimensions { width: 800, height: 600, depth: 1, aa: AaMode::Single },
        "game",
    )
    .unwrap();
    Context { gfx_context, conf: Conf { window_mode: WindowMode::default() } }
}

fn region(width: u16, height: u16) -> ImageInfo {
    ImageInfo {
        xoffset: 0,
        yoffset: 0,
        zoffset: 0,
        width,
        height,
        depth: 0,
        format: srgba8(),
        mipmap: 0,
    }
}

#[test]
fn bind_flags_have_their_bits() {
    assert_eq!(BIND_SHADER_RESOURCE, gfx::memory::Bind::SHADER_RESOURCE.bits());
    assert_eq!(BIND_TRANSFER_SRC, gfx::memory::Bind::TRANSFER_SRC.bits());
    assert_eq!(BIND_TRANSFER_DST, gfx::memory::Bind::TRANSFER_DST.bits());
}

#[test]
fn capture_of_the_screen_succeeds() {
    let ctx = context();
    let (pending, request) = screenshot(&ctx);
    assert_eq!(
        request,
        TextureRequest {
            info: TextureInfo {
                width: 800,
                height: 600,
                aa: AaMode::Single,
                levels: 1,
                format: SurfaceType::R8G8B8A8,
                bind: 0x34,
                usage: MemoryUsage::Data,
            },
            channel: ChannelType::Srgb,
        }
    );
    let texture = TextureHandle { id: 11 };
    let (pending, copy) = pending.texture_created(Ok(texture)).unwrap();
    assert_eq!(
        copy,
        CopyRequest {
            source: TargetId::Screen,
            source_region: region(800, 600),
            destination: texture,
            destination_region: region(800, 600),
        }
    );
    let (pending, view) = pending.texture_copied(Ok(())).unwrap();
    assert_eq!(
        view,
        ViewRequest {
            texture,
            desc: ResourceDesc {
                channel: ChannelType::Srgb,
                layer: None,
                min: 0,
                max: 0,
                swizzle: Swizzle {
                    r: ChannelSource::X,
                    g: ChannelSource::Y,
                    b: ChannelSource::Z,
                    a: ChannelSource::W,
                },
            },
        }
    );
    let image = pending.texture_viewed(Ok(ShaderResourceHandle { id: 12 }));
    assert_eq!(
        image,
        Ok(Image {
            texture: ShaderResourceHandle { id: 12 },
            texture_handle: texture,
            sampler_info: SamplerDescriptor { filter: FilterMode::Linear, wrap: WrapMode::Clamp },
            blend_mode: None,
            width: 800,
            height: 600,
        })
    );
}

#[test]
fn capture_reads_the_bound_canvas_and_default_sampler() {
    let mut ctx = context();
    set_default_filter(&mut ctx, FilterMode::Nearest);
    let canvas = RenderTarget {
        id: TargetId::Canvas(3),
        dimensions: Dimensions { width: 64, height: 32, depth: 1, aa: AaMode::Multi(4) },
    };
    ctx.gfx_context.set_canvas(Some((3, canvas.dimensions)));
    let (pending, request) = screenshot(&ctx);
    assert_eq!(request.info.width, 64);
    assert_eq!(request.info.height, 32);
    assert_eq!(request.info.aa, AaMode::Multi(4));
    // A later change of the default sampler does not reach a capture that has begun.
    set_default_filter(&mut ctx, FilterMode::Linear);
    let (pending, copy) = pending.texture_created(Ok(TextureHandle { id: 1 })).unwrap();
    assert_eq!(copy.source, TargetId::Canvas(3));
    assert_eq!(copy.source_region, region(64, 32));
    let (pending, _) = pending.texture_copied(Ok(())).unwrap();
    let image = pending.texture_viewed(Ok(ShaderResourceHandle { id: 2 })).unwrap();
    assert_eq!(image.sampler_info.filter, FilterMode::Nearest);
    assert_eq!((image.width, image.height), (64, 32));
}

#[test]
fn capture_does_not_touch_the_frame() {
    let ctx = context();
    let queued = ctx.gfx_context.queued();
    let _ = screenshot(&ctx);
    assert_eq!(ctx.gfx_context.queued(), queued);
}

#[test]
fn failed_texture_creation_ends_the_capture() {
    let ctx = context();
    let (pending, _) = screenshot(&ctx);
    let failure = GameError::ResourceCreationError(ResourceFailure::UnsupportedBind(0x34));
    assert_eq!(pending.texture_created(Err(failure.clone())).err(), Some(failure));
}

#[test]
fn failed_copy_ends_the_capture() {
    let ctx = context();
    let (pending, _) = screenshot(&ctx);
    let (pending, _) = pending.texture_created(Ok(TextureHandle { id: 1 })).unwrap();
    let failure = GameError::RenderError("copy out of bounds".to_string());
    assert_eq!(pending.texture_copied(Err(failure.clone())).err(), Some(failure));
}

#[test]
fn failed_view_ends_the_capture() {
    let ctx = context();
    let (pending, _) = screenshot(&ctx);
    let (pending, _) = pending.texture_created(Ok(TextureHandle { id: 1 })).unwrap();
    let (pending, _) = pending.texture_copied(Ok(())).unwrap();
    let failure = GameError::ResourceCreationError(ResourceFailure::Unknown);
    assert_eq!(pending.texture_viewed(Err(failure.clone())), Err(failure));
}
