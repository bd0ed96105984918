//! The drawing operations: graphics state, coordinate systems, and the
//! drawing of everything that is `Drawable`.
//!
//! The default coordinate system has its origin in the upper-left corner of
//! the screen, with Y increasing downward. Changes to the transforms and the
//! projection take effect when they are applied, not before.

use crate::command::{commands_view, Command, CommandModel, DrawCall, FrameState};
use crate::conf::{Conf, FullscreenType, WindowMode};
use crate::context::{renderer_text, sampler_for, Context, GraphicsModel};
use crate::error::{GameError, GameResult};
use crate::image::Image;
use crate::matrix::{mat_identity, mat_mul, representable, Matrix4};
use crate::projection::ortho_of;
use crate::sampler::{requested, SamplerHandle};
pub use crate::screenshot::screenshot;
use crate::target::RenderTarget;
use crate::types::{BlendMode, Color, DrawParam, FilterMode, Rect};
use vstd::prelude::*;

verus! {

/// Everything that can be drawn.
pub trait Drawable {
    /// The blend mode that the drawable is drawn with, where it names one.
    spec fn blend_mode_spec(&self) -> Option<BlendMode>;

    /// What drawing with `param` may do: whether a context that was `before`
    /// can be `after`, with the result `r`.
    spec fn drawn(
        &self,
        before: GraphicsModel,
        param: DrawParam,
        after: GraphicsModel,
        r: GameResult,
    ) -> bool;

    /// Draws onto the bound target, as `drawn` says. A drawable adds to the
    /// queue of the frame; it takes nothing out of it.
    fn draw(&self, ctx: &mut Context, param: DrawParam) -> (r: GameResult)
        requires
            old(ctx).wf(),
        ensures
            final(ctx).wf(),
            old(ctx).gfx_context@.queue.is_prefix_of(final(ctx).gfx_context@.queue),
            final(ctx).conf == old(ctx).conf,
            self.drawn(old(ctx).gfx_context@, param, final(ctx).gfx_context@, r),
    ;

    /// Sets the blend mode that the drawable is drawn with. `None` leaves
    /// the choice to the context.
    fn set_blend_mode(&mut self, mode: Option<BlendMode>)
        ensures
            final(self).blend_mode_spec() == mode,
    ;

    /// The blend mode that the drawable is drawn with, where it names one.
    fn blend_mode(&self) -> (mode: Option<BlendMode>)
        ensures
            mode == self.blend_mode_spec(),
    ;
}

/// The draw that an image queues: to the bound target, with the image's own
/// sampler, and with its own blend mode or else the context's.
pub open spec fn image_draw_call(g: GraphicsModel, image: Image, param: DrawParam) -> DrawCall {
    let samplers = requested(g.samplers, image.sampler_info);
    DrawCall {
        target: g.out.id,
        texture: image.texture,
        sampler: SamplerHandle { index: samplers.index_of(image.sampler_info) as usize },
        blend: match image.blend_mode {
            Some(mode) => mode,
            None => g.blend_mode,
        },
        param,
    }
}

impl Drawable for Image {
    open spec fn blend_mode_spec(&self) -> Option<BlendMode> {
        self.blend_mode
    }

    /// Drawing an image always succeeds. It queues one draw, and makes the
    /// image's sampler if that does not exist yet.
    open spec fn drawn(
        &self,
        before: GraphicsModel,
        param: DrawParam,
        after: GraphicsModel,
        r: GameResult,
    ) -> bool {
        &&& r is Ok
        &&& after == (GraphicsModel {
            samplers: requested(before.samplers, self.sampler_info),
            queue: before.queue.push(CommandModel::Draw(image_draw_call(before, *self, param))),
            ..before
        })
    }

    fn draw(&self, ctx: &mut Context, param: DrawParam) -> (r: GameResult) {
        let sampler = ctx.gfx_context.sampler(self.sampler_info);
        let blend = match self.blend_mode {
            Some(mode) => mode,
            None => ctx.gfx_context.blend_mode(),
        };
        let target = ctx.gfx_context.screen_render_target().id;
        proof {
            let samplers = requested(old(ctx).gfx_context@.samplers, self.sampler_info);
            assert(samplers[sampler.index as int] == self.sampler_info);
        }
        ctx.gfx_context.draw_call(
            DrawCall { target, texture: self.texture, sampler, blend, param },
        );
        Ok(())
    }

    /// Sets the blend mode and leaves the rest of the image alone.
    fn set_blend_mode(&mut self, mode: Option<BlendMode>)
        ensures
            *final(self) == (Image { blend_mode: mode, ..*old(self) }),
    {
        self.blend_mode = mode;
    }

    fn blend_mode(&self) -> (mode: Option<BlendMode>) {
        self.blend_mode
    }
}

/// Queues the clearing of the bound target (the screen, or the canvas that
/// stands in for it) to `color`, and begins a frame.
pub fn clear(ctx: &mut Context, color: Color)
    ensures
        final(ctx).conf == old(ctx).conf,
        final(ctx).gfx_context@ == (GraphicsModel {
            queue: old(ctx).gfx_context@.queue.push(
                CommandModel::Clear { target: old(ctx).gfx_context@.out.id, color },
            ),
            frame: FrameState::Drawing,
            ..old(ctx).gfx_context@
        }),
{
    ctx.gfx_context.clear(color);
}

/// Draws `drawable` with `params`: the drawable decides what that adds to
/// the frame, and whatever was queued before stays queued.
pub fn draw<D>(ctx: &mut Context, drawable: &D, params: DrawParam) -> (r: GameResult) where
    D: Drawable,

    requires
        old(ctx).wf(),
    ensures
        final(ctx).wf(),
        old(ctx).gfx_context@.queue.is_prefix_of(final(ctx).gfx_context@.queue),
        final(ctx).conf == old(ctx).conf,
        drawable.drawn(old(ctx).gfx_context@, params, final(ctx).gfx_context@, r),
{
    drawable.draw(ctx, params)
}

/// Ends the frame. The screen is bound again, whatever canvas was bound,
/// and every command queued since the last present is handed out, none
/// dropped and none reordered, to be flushed before the buffers are swapped.
pub fn present(ctx: &mut Context) -> (frame: Vec<Command>)
    ensures
        final(ctx).conf == old(ctx).conf,
        frame@.len() == old(ctx).gfx_context@.queue.len(),
        commands_view(frame@) == old(ctx).gfx_context@.queue,
        final(ctx).gfx_context@ == (GraphicsModel {
            out: old(ctx).gfx_context@.screen_render_target,
            queue: Seq::<CommandModel>::empty(),
            frame: FrameState::Idle,
            ..old(ctx).gfx_context@
        }),
{
    ctx.gfx_context.present()
}

/// The filter that new images are sampled with.
pub fn default_filter(ctx: &Context) -> (mode: FilterMode)
    ensures
        mode == ctx.gfx_context@.default_sampler_info.filter,
{
    ctx.gfx_context.default_filter()
}

/// A line of text about the rendering mode that was asked for and the one
/// that the device gave. It is meant for people, not for parsing.
pub fn renderer_info(ctx: &Context) -> (r: GameResult<String>)
    ensures
        r matches Ok(text) && text@ == renderer_text(
            ctx.gfx_context@.backend_spec,
            ctx.gfx_context@.device_info,
        ),
{
    Ok(ctx.gfx_context.renderer_info())
}

/// The rectangle that defines the coordinate system of the screen: its
/// top-left corner and its extent.
pub fn screen_coordinates(ctx: &Context) -> (r: Rect)
    ensures
        r == ctx.gfx_context@.screen_rect,
{
    ctx.gfx_context.screen_coordinates()
}

/// Sets the filter that new images are sampled with. Images that exist
/// keep theirs.
pub fn set_default_filter(ctx: &mut Context, mode: FilterMode)
    requires
        old(ctx).wf(),
    ensures
        final(ctx).wf(),
        final(ctx).conf == old(ctx).conf,
        final(ctx).gfx_context@ == (GraphicsModel {
            samplers: requested(old(ctx).gfx_context@.samplers, sampler_for(mode)),
            default_sampler_info: sampler_for(mode),
            ..old(ctx).gfx_context@
        }),
{
    ctx.gfx_context.set_default_filter(mode);
}

/// Sets the coordinate system of the screen and applies it at once: the
/// top-left corner of `rect` becomes the top-left corner of the screen and
/// its opposite corner the bottom-right one. Where the projection or the
/// combined transform cannot be stored, that is refused with
/// `MatrixOverflow` and changes nothing.
pub fn set_screen_coordinates(context: &mut Context, rect: Rect) -> (r: GameResult)
    requires
        old(context).wf(),
    ensures
        final(context).wf(),
        final(context).conf == old(context).conf,
        representable(ortho_of(rect)) && representable(
            mat_mul(ortho_of(rect), old(context).gfx_context@.top()),
        ) ==> r is Ok && final(context).gfx_context@ == (GraphicsModel {
            projection: ortho_of(rect),
            screen_rect: rect,
            mvp: mat_mul(ortho_of(rect), old(context).gfx_context@.top()),
            queue: old(context).gfx_context@.queue.push(
                CommandModel::UpdateGlobals(
                    mat_mul(ortho_of(rect), old(context).gfx_context@.top()),
                ),
            ),
            ..old(context).gfx_context@
        }),
        !(representable(ortho_of(rect)) && representable(
            mat_mul(ortho_of(rect), old(context).gfx_context@.top()),
        )) ==> r == Err::<(), GameError>(GameError::MatrixOverflow) && final(context).gfx_context@
            == old(context).gfx_context@,
        r is Ok ==> final(context).gfx_context@.applied(),
{
    context.gfx_context.set_screen_coordinates(rect)
}

/// Sets the raw projection matrix. The change takes effect with the next
/// `apply_transformations`.
pub fn set_projection(context: &mut Context, proj: Matrix4)
    ensures
        final(context).conf == old(context).conf,
        final(context).gfx_context@ == (GraphicsModel {
            projection: proj@,
            ..old(context).gfx_context@
        }),
{
    context.gfx_context.set_projection(proj);
}

/// Multiplies the projection from the left by `transform`. Where the
/// product cannot be stored, that is refused with `MatrixOverflow` and
/// changes nothing. The change takes effect with the next
/// `apply_transformations`.
pub fn mul_projection(context: &mut Context, transform: Matrix4) -> (r: GameResult)
    ensures
        final(context).conf == old(context).conf,
        representable(mat_mul(transform@, old(context).gfx_context@.projection)) ==> r is Ok
            && final(context).gfx_context@ == (GraphicsModel {
            projection: mat_mul(transform@, old(context).gfx_context@.projection),
            ..old(context).gfx_context@
        }),
        !representable(mat_mul(transform@, old(context).gfx_context@.projection)) ==> r == Err::<
            (),
            GameError,
        >(GameError::MatrixOverflow) && final(context).gfx_context@ == old(context).gfx_context@,
{
    context.gfx_context.mul_projection(transform)
}

/// The raw projection matrix.
pub fn projection(context: &Context) -> (m: Matrix4)
    ensures
        m@ == context.gfx_context@.projection,
{
    context.gfx_context.projection()
}

/// Pushes `transform` onto the stack of model transforms, or a copy of the
/// current one where none is given. The change takes effect with the next
/// `apply_transformations`.
pub fn push_transform(context: &mut Context, transform: Option<Matrix4>)
    requires
        old(context).wf(),
    ensures
        final(context).wf(),
        final(context).conf == old(context).conf,
        final(context).gfx_context@ == (GraphicsModel {
            transforms: old(context).gfx_context@.transforms.push(
                match transform {
                    Some(t) => t@,
                    None => old(context).gfx_context@.top(),
                },
            ),
            ..old(context).gfx_context@
        }),
{
    context.gfx_context.push_transform(transform);
}

/// Pops the stack of model transforms. The stack never becomes empty:
/// popping its last entry is refused with `TransformStackUnderflow` and
/// changes nothing. The change takes effect with the next
/// `apply_transformations`.
pub fn pop_transform(context: &mut Context) -> (r: GameResult)
    requires
        old(context).wf(),
    ensures
        final(context).wf(),
        final(context).conf == old(context).conf,
        old(context).gfx_context@.transforms.len() > 1 ==> r is Ok && final(context).gfx_context@
            == (GraphicsModel {
            transforms: old(context).gfx_context@.transforms.drop_last(),
            ..old(context).gfx_context@
        }),
        old(context).gfx_context@.transforms.len() <= 1 ==> r == Err::<(), GameError>(
            GameError::TransformStackUnderflow,
        ) && final(context).gfx_context@ == old(context).gfx_context@,
{
    context.gfx_context.pop_transform()
}

/// Replaces the current model transform. The change takes effect with the
/// next `apply_transformations`.
pub fn set_transform(context: &mut Context, transform: Matrix4)
    requires
        old(context).wf(),
    ensures
        final(context).wf(),
        final(context).conf == old(context).conf,
        final(context).gfx_context@ == (GraphicsModel {
            transforms: old(context).gfx_context@.transforms.drop_last().push(transform@),
            ..old(context).gfx_context@
        }),
{
    context.gfx_context.set_transform(transform);
}

/// The current model transform.
pub fn transform(context: &Context) -> (m: Matrix4)
    requires
        context.wf(),
    ensures
        m@ == context.gfx_context@.top(),
{
    context.gfx_context.transform()
}

/// Multiplies the current model transform from the left by `transform`.
/// Where the product cannot be stored, that is refused with
/// `MatrixOverflow` and changes nothing. The change takes effect with the
/// next `apply_transformations`.
pub fn mul_transform(context: &mut Context, transform: Matrix4) -> (r: GameResult)
    requires
        old(context).wf(),
    ensures
        final(context).wf(),
        final(context).conf == old(context).conf,
        representable(mat_mul(transform@, old(context).gfx_context@.top())) ==> r is Ok
            && final(context).gfx_context@ == (GraphicsModel {
            transforms: old(context).gfx_context@.transforms.drop_last().push(
                mat_mul(transform@, old(context).gfx_context@.top()),
            ),
            ..old(context).gfx_context@
        }),
        !representable(mat_mul(transform@, old(context).gfx_context@.top())) ==> r == Err::<
            (),
            GameError,
        >(GameError::MatrixOverflow) && final(context).gfx_context@ == old(context).gfx_context@,
{
    context.gfx_context.mul_transform(transform)
}

/// Resets the current model transform to the identity, whatever the stack
/// holds. The change takes effect with the next `apply_transformations`.
pub fn origin(context: &mut Context)
    requires
        old(context).wf(),
    ensures
        final(context).wf(),
        final(context).conf == old(context).conf,
        final(context).gfx_context@ == (GraphicsModel {
            transforms: old(context).gfx_context@.transforms.drop_last().push(mat_identity()),
            ..old(context).gfx_context@
        }),
        final(context).gfx_context@.top() == mat_identity(),
{
    context.gfx_context.origin();
}

/// Recomputes the combined transform, projection × current model transform,
/// and queues its upload. Until this is called, changes to the transforms
/// and the projection have no effect on what is drawn. Where the product
/// cannot be stored, that is refused with `MatrixOverflow` and changes
/// nothing.
pub fn apply_transformations(context: &mut Context) -> (r: GameResult)
    requires
        old(context).wf(),
    ensures
        final(context).wf(),
        final(context).conf == old(context).conf,
        representable(
            mat_mul(old(context).gfx_context@.projection, old(context).gfx_context@.top()),
        ) ==> r is Ok && final(context).gfx_context@ == (GraphicsModel {
            mvp: mat_mul(old(context).gfx_context@.projection, old(context).gfx_context@.top()),
            queue: old(context).gfx_context@.queue.push(
                CommandModel::UpdateGlobals(
                    mat_mul(old(context).gfx_context@.projection, old(context).gfx_context@.top()),
                ),
            ),
            ..old(context).gfx_context@
        }),
        !representable(
            mat_mul(old(context).gfx_context@.projection, old(context).gfx_context@.top()),
        ) ==> r == Err::<(), GameError>(GameError::MatrixOverflow) && final(context).gfx_context@
            == old(context).gfx_context@,
        r is Ok ==> final(context).gfx_context@.applied(),
{
    context.gfx_context.apply_transformations()
}

/// Whether every change to the transforms and the projection has been
/// applied, so that the next draw is placed as they say.
pub fn transformations_applied(context: &Context) -> (r: bool)
    requires
        context.wf(),
    ensures
        r == context.gfx_context@.applied(),
{
    context.gfx_context.is_applied()
}

/// Sets the blend mode of draws whose drawable names none.
pub fn set_blend_mode(ctx: &mut Context, mode: BlendMode) -> (r: GameResult)
    ensures
        r is Ok,
        final(ctx).conf == old(ctx).conf,
        final(ctx).gfx_context@ == (GraphicsModel { blend_mode: mode, ..old(ctx).gfx_context@ }),
{
    ctx.gfx_context.set_blend_mode(mode)
}

/// Sets the window mode, and keeps it as the configuration's own.
pub fn set_mode(context: &mut Context, mode: WindowMode) -> (r: GameResult)
    ensures
        r is Ok,
        final(context).conf == (Conf { window_mode: mode }),
        final(context).gfx_context == old(context).gfx_context,
{
    context.conf.window_mode = mode;
    Ok(())
}

/// Makes the window fullscreen, or a window again. The rest of the window
/// mode stays.
pub fn set_fullscreen(context: &mut Context, fullscreen: FullscreenType) -> (r: GameResult)
    ensures
        r is Ok,
        final(context).conf == (Conf {
            window_mode: WindowMode { fullscreen_type: fullscreen, ..old(context).conf.window_mode },
        }),
        final(context).gfx_context == old(context).gfx_context,
{
    let mut window_mode = context.conf.window_mode;
    window_mode.fullscreen_type = fullscreen;
    set_mode(context, window_mode)
}

/// Sets the size of the window. The rest of the window mode stays.
pub fn set_resolution(context: &mut Context, width: u32, height: u32) -> (r: GameResult)
    ensures
        r is Ok,
        final(context).conf == (Conf {
            window_mode: WindowMode { width, height, ..old(context).conf.window_mode },
        }),
        final(context).gfx_context == old(context).gfx_context,
{
    let mut window_mode = context.conf.window_mode;
    window_mode.width = width;
    window_mode.height = height;
    set_mode(context, window_mode)
}

/// Sets whether the window can be resized. The rest of the window mode
/// stays.
pub fn set_resizable(context: &mut Context, resizable: bool) -> (r: GameResult)
    ensures
        r is Ok,
        final(context).conf == (Conf {
            window_mode: WindowMode { resizable, ..old(context).conf.window_mode },
        }),
        final(context).gfx_context == old(context).gfx_context,
{
    let mut window_mode = context.conf.window_mode;
    window_mode.resizable = resizable;
    set_mode(context, window_mode)
}

/// Sets the title of the window.
pub fn set_window_title(context: &mut Context, title: &str)
    ensures
        final(context).conf == old(context).conf,
        final(context).gfx_context@ == (GraphicsModel {
            window_title: title@,
            ..old(context).gfx_context@
        }),
{
    context.gfx_context.set_window_title(title);
}

/// The target that is drawn to: the screen, or the canvas that stands in
/// for it.
pub fn screen_render_target(context: &Context) -> (t: RenderTarget)
    ensures
        t == context.gfx_context@.out,
{
    context.gfx_context.screen_render_target()
}

} // verus!
