use graphics_core::backend::{Api, Backend, DeviceInfo, GlBackendSpec};
use graphics_core::command::{Command, FrameState};
use graphics_core::conf::{Conf, FullscreenType, WindowMode};
use graphics_core::context::{Context, GraphicsContext};
use graphics_core::error::GameError;
use graphics_core::graphics::{
    apply_transformations, default_filter, mul_projection, mul_transform, origin, pop_transform,
    present, projection, push_transform, renderer_info, screen_coordinates, set_blend_mode,
    set_default_filter, set_fullscreen, set_mode, set_projection, set_resizable, set_resolution,
    set_screen_coordinates, set_transform, set_window_title, transform, transformations_applied,
};
use graphics_core::matrix::Matrix4;
use graphics_core::sampler::{SamplerDescriptor, SamplerHandle};
use graphics_core::target::{AaMode, ChannelType, Dimensions, Format, SurfaceType};
use graphics_core::types::{BlendMode, FilterMode, Rect, WrapMode};

fn device() -> DeviceInfo {
    DeviceInfo {
        vendor: "Acme".to_string(),
        renderer: "Rasterizer 9000".to_string(),
        version: "4.6".to_string(),
        shading_language: "4.60".to_string(),
    }
}

fn srgba8() -> Format {
    Format { surface: SurfaceType::R8G8B8A8, channel: ChannelType::Srgb }
}

fn screen(width: u16, height: u16) -> Dimensions {
    Dimensions { width, height, depth: 1, aa: AaMode::Single }
}

fn context() -> Context {
    let gfx_context = GraphicsContext::new(
        GlBackendSpec::from(Backend::OpenGL { major: 3, minor: 2 }),
        device(),
        srgba8(),
        screen(800, 600),
        "game",
    )
    .unwrap();
    Context { gfx_context, conf: Conf { window_mode: WindowMode::default() } }
}

fn translation(x: i32, y: i32) -> Matrix4 {
    Matrix4::from_entries([1, 0, 0, x, 0, 1, 0, y, 0, 0, 1, 0, 0, 0, 0, 1])
}

fn scaling(sx: i32, sy: i32) -> Matrix4 {
    Matrix4::from_entries([sx, 0, 0, 0, 0, sy, 0, 0, 0, 0, 1, 0, 0, 0, 0, 1])
}

fn ortho_800_600() -> Matrix4 {
    Matrix4::from_entries([
        1200, 0, 0, -480000, 0, -1600, 0, 480000, 0, 0, -480000, 0, 0, 0, 0, 480000,
    ])
}

#[test]
fn new_context_starts_with_the_whole_screen() {
    let ctx = context();
    assert_eq!(transform(&ctx), Matrix4::identity());
    assert_eq!(projection(&ctx), ortho_800_600());
    assert_eq!(ctx.gfx_context.mvp(), ortho_800_600());
    assert_eq!(screen_coordinates(&ctx), Rect { x: 0, y: 0, w: 800, h: 600 });
    assert_eq!(default_filter(&ctx), FilterMode::Linear);
    assert_eq!(ctx.gfx_context.sampler_count(), 1);
    assert_eq!(ctx.gfx_context.blend_mode(), BlendMode::Alpha);
    assert_eq!(ctx.gfx_context.frame_state(), FrameState::Idle);
    assert_eq!(ctx.gfx_context.color_format(), srgba8());
    assert_eq!(ctx.gfx_context.queued(), 1);
}

#[test]
fn new_context_uploads_its_first_transform() {
    let mut ctx = context();
    assert_eq!(present(&mut ctx), vec![Command::UpdateGlobals(ortho_800_600())]);
}

#[test]
fn new_context_refuses_a_screen_that_is_too_large() {
    let r = GraphicsContext::new(
        GlBackendSpec::from(Backend::OpenGLES { major: 3, minor: 0 }),
        device(),
        srgba8(),
        screen(65535, 65535),
        "game",
    );
    assert_eq!(r.err(), Some(GameError::MatrixOverflow));
}

#[test]
fn new_context_refuses_an_api_without_shaders() {
    let r = GraphicsContext::new(
        GlBackendSpec { major: 2, minor: 0, api: Api::WebGl },
        device(),
        srgba8(),
        screen(800, 600),
        "game",
    );
    assert_eq!(r.err(), Some(GameError::UnsupportedApi(Api::WebGl)));
    // The API is looked at before the screen.
    let r = GraphicsContext::new(
        GlBackendSpec { major: 2, minor: 0, api: Api::WebGl },
        device(),
        srgba8(),
        screen(65535, 65535),
        "game",
    );
    assert_eq!(r.err(), Some(GameError::UnsupportedApi(Api::WebGl)));
}

#[test]
fn push_and_pop_through_the_context() {
    let mut ctx = context();
    push_transform(&mut ctx, Some(translation(3, 4)));
    assert_eq!(transform(&ctx), translation(3, 4));
    push_transform(&mut ctx, None);
    assert_eq!(transform(&ctx), translation(3, 4));
    assert_eq!(mul_transform(&mut ctx, scaling(2, 2)), Ok(()));
    assert_eq!(
        transform(&ctx),
        Matrix4::from_entries([2, 0, 0, 6, 0, 2, 0, 8, 0, 0, 1, 0, 0, 0, 0, 1])
    );
    assert_eq!(pop_transform(&mut ctx), Ok(()));
    assert_eq!(transform(&ctx), translation(3, 4));
    assert_eq!(pop_transform(&mut ctx), Ok(()));
    assert_eq!(transform(&ctx), Matrix4::identity());
}

#[test]
fn popping_the_last_transform_is_an_error() {
    let mut ctx = context();
    set_transform(&mut ctx, translation(9, 9));
    assert_eq!(pop_transform(&mut ctx), Err(GameError::TransformStackUnderflow));
    assert_eq!(transform(&ctx), translation(9, 9));
    // The context is still usable.
    push_transform(&mut ctx, None);
    assert_eq!(pop_transform(&mut ctx), Ok(()));
    assert_eq!(pop_transform(&mut ctx), Err(GameError::TransformStackUnderflow));
    assert_eq!(transform(&ctx), translation(9, 9));
}

#[test]
fn origin_makes_the_top_the_identity() {
    let mut ctx = context();
    push_transform(&mut ctx, Some(translation(3, 4)));
    push_transform(&mut ctx, Some(scaling(5, 6)));
    origin(&mut ctx);
    assert_eq!(transform(&ctx), Matrix4::identity());
    pop_transform(&mut ctx).unwrap();
    assert_eq!(transform(&ctx), translation(3, 4));
}

#[test]
fn transforms_take_effect_only_when_applied() {
    let mut ctx = context();
    set_transform(&mut ctx, translation(10, 20));
    assert_eq!(ctx.gfx_context.mvp(), ortho_800_600());
    assert_eq!(ctx.gfx_context.queued(), 1);
    assert_eq!(apply_transformations(&mut ctx), Ok(()));
    let mvp = ortho_800_600().checked_mul(&translation(10, 20)).unwrap();
    assert_eq!(
        mvp,
        Matrix4::from_entries([
            1200, 0, 0, -468000, 0, -1600, 0, 448000, 0, 0, -480000, 0, 0, 0, 0, 480000,
        ])
    );
    assert_eq!(ctx.gfx_context.mvp(), mvp);
    assert_eq!(
        present(&mut ctx),
        vec![Command::UpdateGlobals(ortho_800_600()), Command::UpdateGlobals(mvp)]
    );
}

#[test]
fn apply_refuses_a_product_that_does_not_fit() {
    let mut ctx = context();
    set_transform(&mut ctx, scaling(10_000_000, 1));
    assert_eq!(apply_transformations(&mut ctx), Err(GameError::MatrixOverflow));
    assert_eq!(ctx.gfx_context.mvp(), ortho_800_600());
    assert_eq!(ctx.gfx_context.queued(), 1);
    assert_eq!(transform(&ctx), scaling(10_000_000, 1));
}

#[test]
fn screen_coordinates_are_applied_at_once() {
    let mut ctx = context();
    let rect = Rect { x: 0, y: 0, w: 400, h: -300 };
    assert_eq!(set_screen_coordinates(&mut ctx, rect), Ok(()));
    let expected = Matrix4::from_entries([
        600, 0, 0, -120000, 0, 800, 0, 120000, 0, 0, -120000, 0, 0, 0, 0, 120000,
    ]);
    assert_eq!(screen_coordinates(&ctx), rect);
    assert_eq!(projection(&ctx), expected);
    assert_eq!(ctx.gfx_context.mvp(), expected);
    assert_eq!(
        present(&mut ctx),
        vec![Command::UpdateGlobals(ortho_800_600()), Command::UpdateGlobals(expected)]
    );
}

#[test]
fn screen_coordinates_that_do_not_fit_change_nothing() {
    let mut ctx = context();
    let rect = Rect { x: 0, y: 0, w: i32::MAX, h: 2 };
    assert_eq!(set_screen_coordinates(&mut ctx, rect), Err(GameError::MatrixOverflow));
    assert_eq!(screen_coordinates(&ctx), Rect { x: 0, y: 0, w: 800, h: 600 });
    assert_eq!(projection(&ctx), ortho_800_600());
    assert_eq!(ctx.gfx_context.queued(), 1);
    // The projection fits, the combined transform does not.
    set_transform(&mut ctx, scaling(10_000_000, 1));
    let small = Rect { x: 0, y: 0, w: 400, h: 300 };
    assert_eq!(set_screen_coordinates(&mut ctx, small), Err(GameError::MatrixOverflow));
    assert_eq!(screen_coordinates(&ctx), Rect { x: 0, y: 0, w: 800, h: 600 });
    assert_eq!(projection(&ctx), ortho_800_600());
}

#[test]
fn raw_projection_can_be_set_and_multiplied() {
    let mut ctx = context();
    set_projection(&mut ctx, translation(1, 2));
    assert_eq!(projection(&ctx), translation(1, 2));
    assert_eq!(screen_coordinates(&ctx), Rect { x: 0, y: 0, w: 800, h: 600 });
    assert_eq!(mul_projection(&mut ctx, scaling(3, 4)), Ok(()));
    assert_eq!(
        projection(&ctx),
        Matrix4::from_entries([3, 0, 0, 3, 0, 4, 0, 8, 0, 0, 1, 0, 0, 0, 0, 1])
    );
    assert_eq!(ctx.gfx_context.mvp(), ortho_800_600());
    set_projection(&mut ctx, scaling(i32::MAX, 1));
    assert_eq!(mul_projection(&mut ctx, scaling(2, 1)), Err(GameError::MatrixOverflow));
    assert_eq!(projection(&ctx), scaling(i32::MAX, 1));
}

#[test]
fn default_filter_creates_its_sampler_once() {
    let mut ctx = context();
    set_default_filter(&mut ctx, FilterMode::Nearest);
    assert_eq!(default_filter(&ctx), FilterMode::Nearest);
    assert_eq!(
        ctx.gfx_context.default_sampler_info(),
        SamplerDescriptor { filter: FilterMode::Nearest, wrap: WrapMode::Clamp }
    );
    assert_eq!(ctx.gfx_context.sampler_count(), 2);
    assert_eq!(
        ctx.gfx_context.sampler_descriptor(SamplerHandle { index: 0 }),
        Some(SamplerDescriptor { filter: FilterMode::Linear, wrap: WrapMode::Clamp })
    );
    assert_eq!(
        ctx.gfx_context.sampler_descriptor(SamplerHandle { index: 1 }),
        Some(SamplerDescriptor { filter: FilterMode::Nearest, wrap: WrapMode::Clamp })
    );
    assert_eq!(ctx.gfx_context.sampler_descriptor(SamplerHandle { index: 2 }), None);
    set_default_filter(&mut ctx, FilterMode::Linear);
    set_default_filter(&mut ctx, FilterMode::Nearest);
    assert_eq!(ctx.gfx_context.sampler_count(), 2);
    assert_eq!(default_filter(&ctx), FilterMode::Nearest);
}

#[test]
fn blend_mode_is_kept() {
    let mut ctx = context();
    assert_eq!(set_blend_mode(&mut ctx, BlendMode::Multiply), Ok(()));
    assert_eq!(ctx.gfx_context.blend_mode(), BlendMode::Multiply);
}

#[test]
fn renderer_info_names_request_and_device() {
    let ctx = context();
    assert_eq!(
        renderer_info(&ctx),
        Ok("Requested OpenGl 3.2 Core profile, actually got Driver vendor: Acme, renderer Rasterizer 9000, version 4.6, shading language 4.60.".to_string())
    );
    let gfx_context = GraphicsContext::new(
        GlBackendSpec::from(Backend::OpenGLES { major: 3, minor: 10 }),
        device(),
        srgba8(),
        screen(320, 240),
        "",
    )
    .unwrap();
    let es = Context { gfx_context, conf: Conf { window_mode: WindowMode::default() } };
    assert_eq!(
        renderer_info(&es),
        Ok("Requested OpenGlEs 3.10 Core profile, actually got Driver vendor: Acme, renderer Rasterizer 9000, version 4.6, shading language 4.60.".to_string())
    );
    assert_eq!(GlBackendSpec::from(Backend::OpenGLES { major: 3, minor: 10 }).api, Api::OpenGlEs);
}

#[test]
fn window_mode_is_persisted() {
    let mut ctx = context();
    let before = ctx.conf.window_mode;
    assert_eq!(before.width, 800);
    assert_eq!(before.height, 600);
    assert_eq!(set_fullscreen(&mut ctx, FullscreenType::Desktop), Ok(()));
    assert_eq!(
        ctx.conf.window_mode,
        WindowMode { fullscreen_type: FullscreenType::Desktop, ..before }
    );
    assert_eq!(set_resizable(&mut ctx, true), Ok(()));
    assert_eq!(
        ctx.conf.window_mode,
        WindowMode { fullscreen_type: FullscreenType::Desktop, resizable: true, ..before }
    );
    assert_eq!(set_resolution(&mut ctx, 1024, 768), Ok(()));
    assert_eq!(
        ctx.conf.window_mode,
        WindowMode {
            width: 1024,
            height: 768,
            fullscreen_type: FullscreenType::Desktop,
            resizable: true,
            ..before
        }
    );
    assert_eq!(set_mode(&mut ctx, before), Ok(()));
    assert_eq!(ctx.conf.window_mode, before);
    // The window mode does not touch the coordinate system.
    assert_eq!(screen_coordinates(&ctx), Rect { x: 0, y: 0, w: 800, h: 600 });
}

#[test]
fn window_title_can_be_set() {
    let mut ctx = context();
    assert_eq!(ctx.gfx_context.window_title(), "game");
    set_window_title(&mut ctx, "another title");
    assert_eq!(ctx.gfx_context.window_title(), "another title");
    // Nothing else changes.
    assert_eq!(ctx.gfx_context.queued(), 1);
    assert_eq!(transform(&ctx), Matrix4::identity());
}

#[test]
fn pending_changes_are_visible_until_applied() {
    let mut ctx = context();
    assert!(transformations_applied(&ctx));
    push_transform(&mut ctx, Some(translation(1, 1)));
    assert!(!transformations_applied(&ctx));
    assert_eq!(pop_transform(&mut ctx), Ok(()));
    assert!(transformations_applied(&ctx));
    set_transform(&mut ctx, translation(2, 2));
    assert!(!transformations_applied(&ctx));
    apply_transformations(&mut ctx).unwrap();
    assert!(transformations_applied(&ctx));
    set_projection(&mut ctx, scaling(2, 2));
    assert!(!transformations_applied(&ctx));
    apply_transformations(&mut ctx).unwrap();
    assert!(transformations_applied(&ctx));
    // A product that cannot be stored was never uploaded.
    set_transform(&mut ctx, scaling(i32::MAX, 1));
    assert!(!transformations_applied(&ctx));
}

#[test]
fn applied_screen_coordinates_map_the_corners() {
    let mut ctx = context();
    for h in [600, -600] {
        set_screen_coordinates(&mut ctx, Rect { x: 0, y: 0, w: 800, h }).unwrap();
        let mvp = ctx.gfx_context.mvp();
        let image = |x: i64, y: i64| -> [i64; 4] {
            let mut out = [0i64; 4];
            for r in 0..4 {
                out[r] = mvp.get(r, 0) as i64 * x + mvp.get(r, 1) as i64 * y + mvp.get(r, 3) as i64;
            }
            out
        };
        // Top-left is (-1, 1) and bottom-right (1, -1), after division by the last coordinate.
        assert_eq!(image(0, 0), [-480000, 480000, 0, 480000]);
        assert_eq!(image(800, h as i64), [480000, -480000, 0, 480000]);
    }
}
