//! The graphics context: the one owner of the transform stack, the
//! projection, the sampler cache, the bound render target and the queue of
//! commands of the frame that is being drawn.

use crate::backend::{api_name, device_text, shaders_of, BackendSpec, DeviceInfo, GlBackendSpec};
use crate::command::{commands_view, Command, CommandModel, DrawCall, FrameState};
use crate::conf::Conf;
use crate::error::GameError;
use crate::matrix::{mat_identity, mat_mul, representable, Matrix4};
use crate::projection::{ortho_matrix, ortho_of};
use crate::sampler::{requested, SamplerCache, SamplerDescriptor, SamplerHandle};
use crate::target::{Dimensions, Format, RenderTarget, TargetId};
use crate::text::{decimal, push_decimal};
use crate::transform::TransformStack;
use crate::types::{BlendMode, Color, FilterMode, Rect, WrapMode};
use vstd::prelude::*;

verus! {

/// What a graphics context holds, as mathematical values.
pub struct GraphicsModel {
    /// The backend that the context is bound to.
    pub backend_spec: GlBackendSpec,
    /// What the device reported of itself.
    pub device_info: DeviceInfo,
    /// The format of the colour targets.
    pub color_format: Format,
    /// The physical screen.
    pub screen_render_target: RenderTarget,
    /// The target that is drawn to: the screen or a canvas in its place.
    pub out: RenderTarget,
    /// The model transforms, from the bottom of the stack to its top.
    pub transforms: Seq<Seq<int>>,
    /// The projection.
    pub projection: Seq<int>,
    /// The rectangle that the projection was last derived from.
    pub screen_rect: Rect,
    /// The combined transform that was last uploaded.
    pub mvp: Seq<int>,
    /// The descriptors of the samplers made so far.
    pub samplers: Seq<SamplerDescriptor>,
    /// The sampler that new images get.
    pub default_sampler_info: SamplerDescriptor,
    /// The blend mode of draws whose drawable names none.
    pub blend_mode: BlendMode,
    /// The commands queued since the last present.
    pub queue: Seq<CommandModel>,
    /// Where the context stands in its frame.
    pub frame: FrameState,
    /// The title of the window.
    pub window_title: Seq<char>,
}

impl GraphicsModel {
    /// What holds of every context: the transform stack is not empty, no
    /// descriptor has two samplers, and the default sampler exists.
    pub open spec fn wf(self) -> bool {
        &&& self.transforms.len() >= 1
        &&& self.samplers.no_duplicates()
        &&& self.samplers.contains(self.default_sampler_info)
    }

    /// The current model transform.
    pub open spec fn top(self) -> Seq<int> {
        self.transforms.last()
    }

    /// Whether the combined transform that was last uploaded is the product
    /// of the projection and the current model transform as they stand now.
    pub open spec fn applied(self) -> bool {
        self.mvp == mat_mul(self.projection, self.top())
    }
}

/// The screen rectangle of a new context: the whole screen, Y downward.
pub open spec fn initial_rect(screen: Dimensions) -> Rect {
    Rect { x: 0, y: 0, w: screen.width as i32, h: screen.height as i32 }
}

/// The sampler that images get in a new context.
pub open spec fn initial_sampler() -> SamplerDescriptor {
    SamplerDescriptor { filter: FilterMode::Linear, wrap: WrapMode::Clamp }
}

/// A new context: the identity on the transform stack, the projection of
/// the whole screen, their product uploaded, the default sampler made, the
/// screen bound, and no frame begun.
pub open spec fn initial_model(
    backend_spec: GlBackendSpec,
    device_info: DeviceInfo,
    color_format: Format,
    screen: Dimensions,
    title: Seq<char>,
) -> GraphicsModel {
    GraphicsModel {
        backend_spec,
        device_info,
        color_format,
        screen_render_target: RenderTarget { id: TargetId::Screen, dimensions: screen },
        out: RenderTarget { id: TargetId::Screen, dimensions: screen },
        transforms: seq![mat_identity()],
        projection: ortho_of(initial_rect(screen)),
        screen_rect: initial_rect(screen),
        mvp: ortho_of(initial_rect(screen)),
        samplers: seq![initial_sampler()],
        default_sampler_info: initial_sampler(),
        blend_mode: BlendMode::Alpha,
        queue: seq![CommandModel::UpdateGlobals(ortho_of(initial_rect(screen)))],
        frame: FrameState::Idle,
        window_title: title,
    }
}

/// The sampler that images get after `mode` was made the default filter.
pub open spec fn sampler_for(mode: FilterMode) -> SamplerDescriptor {
    SamplerDescriptor { filter: mode, wrap: WrapMode::Clamp }
}

/// What a context says of the rendering mode it asked for and got.
pub open spec fn renderer_text(backend: GlBackendSpec, device: DeviceInfo) -> Seq<char> {
    "Requested "@ + api_name(backend.api) + " "@ + decimal(backend.major as int) + "."@ + decimal(
        backend.minor as int,
    ) + " Core profile, actually got "@ + device_text(device) + "."@
}

/// The state of the drawing layer.
#[derive(Clone, Debug)]
pub struct GraphicsContext {
    backend_spec: GlBackendSpec,
    device_info: DeviceInfo,
    color_format: Format,
    screen_render_target: RenderTarget,
    out: RenderTarget,
    modelview_stack: TransformStack,
    projection: Matrix4,
    screen_rect: Rect,
    mvp: Matrix4,
    samplers: SamplerCache,
    default_sampler_info: SamplerDescriptor,
    blend_mode: BlendMode,
    queue: Vec<Command>,
    frame: FrameState,
    window_title: String,
}

impl View for GraphicsContext {
    type V = GraphicsModel;

    closed spec fn view(&self) -> GraphicsModel {
        GraphicsModel {
            backend_spec: self.backend_spec,
            device_info: self.device_info,
            color_format: self.color_format,
            screen_render_target: self.screen_render_target,
            out: self.out,
            transforms: self.modelview_stack@,
            projection: self.projection@,
            screen_rect: self.screen_rect,
            mvp: self.mvp@,
            samplers: self.samplers@,
            default_sampler_info: self.default_sampler_info,
            blend_mode: self.blend_mode,
            queue: commands_view(self.queue@),
            frame: self.frame,
            window_title: self.window_title@,
        }
    }
}

impl GraphicsContext {
    /// The context is in a state that its operations can start from. `new`
    /// establishes this and every operation keeps it.
    pub open spec fn wf(&self) -> bool {
        self@.wf()
    }

    /// A context for the given backend and screen. An API without shaders is
    /// refused with `UnsupportedApi`; otherwise a screen whose projection
    /// cannot be stored is refused with `MatrixOverflow`.
    pub fn new(
        backend_spec: GlBackendSpec,
        device_info: DeviceInfo,
        color_format: Format,
        screen: Dimensions,
        title: &str,
    ) -> (r: Result<GraphicsContext, GameError>)
        ensures
            shaders_of(backend_spec.api) is None ==> r == Err::<GraphicsContext, GameError>(
                GameError::UnsupportedApi(backend_spec.api),
            ),
            shaders_of(backend_spec.api) is Some && !representable(ortho_of(initial_rect(screen)))
                ==> r == Err::<GraphicsContext, GameError>(GameError::MatrixOverflow),
            shaders_of(backend_spec.api) is Some && representable(ortho_of(initial_rect(screen)))
                ==> r is Ok,
            r matches Ok(g) ==> g.wf() && g@ == initial_model(
                backend_spec,
                device_info,
                color_format,
                screen,
                title@,
            ),
    {
        match backend_spec.shaders() {
            Err(e) => {
                return Err(e);
            },
            Ok(_) => {},
        }
        let screen_rect = Rect { x: 0, y: 0, w: screen.width as i32, h: screen.height as i32 };
        let projection = match ortho_matrix(screen_rect) {
            Some(m) => m,
            None => {
                return Err(GameError::MatrixOverflow);
            },
        };
        let target = RenderTarget { id: TargetId::Screen, dimensions: screen };
        let default_sampler_info = SamplerDescriptor {
            filter: FilterMode::Linear,
            wrap: WrapMode::Clamp,
        };
        let mut samplers = SamplerCache::new();
        let _ = samplers.get_or_insert(default_sampler_info);
        let mut queue: Vec<Command> = Vec::new();
        queue.push(Command::UpdateGlobals(projection));
        let g = GraphicsContext {
            backend_spec,
            device_info,
            color_format,
            screen_render_target: target,
            out: target,
            modelview_stack: TransformStack::new(),
            projection,
            screen_rect,
            mvp: projection,
            samplers,
            default_sampler_info,
            blend_mode: BlendMode::Alpha,
            queue,
            frame: FrameState::Idle,
            window_title: String::from_str(title),
        };
        proof {
            let want = initial_model(backend_spec, device_info, color_format, screen, title@);
            assert(g@.samplers =~= want.samplers);
            assert(g@.queue =~= want.queue);
            assert(want.samplers[0] == initial_sampler());
        }
        Ok(g)
    }

    /// The current model transform.
    pub fn transform(&self) -> (m: Matrix4)
        requires
            self.wf(),
        ensures
            m@ == self@.top(),
    {
        self.modelview_stack.top()
    }

    /// Pushes `transform` onto the transform stack, or a copy of the current
    /// transform where none is given. Nothing is uploaded.
    pub fn push_transform(&mut self, transform: Option<Matrix4>)
        requires
            old(self).wf(),
        ensures
            final(self).wf(),
            final(self)@ == (GraphicsModel {
                transforms: old(self)@.transforms.push(
                    match transform {
                        Some(t) => t@,
                        None => old(self)@.top(),
                    },
                ),
                ..old(self)@
            }),
    {
        self.modelview_stack.push(transform);
    }

    /// Pops the transform stack. Its last entry stays: popping it is refused
    /// with `TransformStackUnderflow` and changes nothing.
    pub fn pop_transform(&mut self) -> (r: Result<(), GameError>)
        requires
            old(self).wf(),
        ensures
            final(self).wf(),
            old(self)@.transforms.len() > 1 ==> r is Ok && final(self)@ == (GraphicsModel {
                transforms: old(self)@.transforms.drop_last(),
                ..old(self)@
            }),
            old(self)@.transforms.len() <= 1 ==> r == Err::<(), GameError>(
                GameError::TransformStackUnderflow,
            ) && final(self)@ == old(self)@,
    {
        self.modelview_stack.pop()
    }

    /// Replaces the current model transform. Nothing is uploaded.
    pub fn set_transform(&mut self, transform: Matrix4)
        requires
            old(self).wf(),
        ensures
            final(self).wf(),
            final(self)@ == (GraphicsModel {
                transforms: old(self)@.transforms.drop_last().push(transform@),
                ..old(self)@
            }),
    {
        self.modelview_stack.set(transform);
    }

    /// Multiplies the current model transform from the left by `transform`.
    /// Where the product cannot be stored, that is refused with
    /// `MatrixOverflow` and changes nothing. Nothing is uploaded.
    pub fn mul_transform(&mut self, transform: Matrix4) -> (r: Result<(), GameError>)
        requires
            old(self).wf(),
        ensures
            final(self).wf(),
            representable(mat_mul(transform@, old(self)@.top())) ==> r is Ok && final(self)@ == (
            GraphicsModel {
                transforms: old(self)@.transforms.drop_last().push(
                    mat_mul(transform@, old(self)@.top()),
                ),
                ..old(self)@
            }),
            !representable(mat_mul(transform@, old(self)@.top())) ==> r == Err::<(), GameError>(
                GameError::MatrixOverflow,
            ) && final(self)@ == old(self)@,
    {
        self.modelview_stack.mul(transform)
    }

    /// Resets the current model transform to the identity. Nothing is
    /// uploaded.
    pub fn origin(&mut self)
        requires
            old(self).wf(),
        ensures
            final(self).wf(),
            final(self)@ == (GraphicsModel {
                transforms: old(self)@.transforms.drop_last().push(mat_identity()),
                ..old(self)@
            }),
            final(self)@.top() == mat_identity(),
    {
        self.modelview_stack.origin();
    }

    /// The projection.
    pub fn projection(&self) -> (m: Matrix4)
        ensures
            m@ == self@.projection,
    {
        self.projection
    }

    /// Replaces the projection. The screen rectangle is left as it is, and
    /// nothing is uploaded.
    pub fn set_projection(&mut self, proj: Matrix4)
        ensures
            final(self)@ == (GraphicsModel { projection: proj@, ..old(self)@ }),
    {
        self.projection = proj;
    }

    /// Multiplies the projection from the left by `transform`. Where the
    /// product cannot be stored, that is refused with `MatrixOverflow` and
    /// changes nothing. Nothing is uploaded.
    pub fn mul_projection(&mut self, transform: Matrix4) -> (r: Result<(), GameError>)
        ensures
            representable(mat_mul(transform@, old(self)@.projection)) ==> r is Ok && final(self)@
                == (GraphicsModel {
                projection: mat_mul(transform@, old(self)@.projection),
                ..old(self)@
            }),
            !representable(mat_mul(transform@, old(self)@.projection)) ==> r == Err::<
                (),
                GameError,
            >(GameError::MatrixOverflow) && final(self)@ == old(self)@,
    {
        match transform.checked_mul(&self.projection) {
            Some(m) => {
                self.projection = m;
                Ok(())
            },
            None => Err(GameError::MatrixOverflow),
        }
    }

    /// Derives the projection from a screen rectangle and remembers the
    /// rectangle. Where the projection cannot be stored, that is refused
    /// with `MatrixOverflow` and changes nothing. Nothing is uploaded.
    pub fn set_projection_rect(&mut self, rect: Rect) -> (r: Result<(), GameError>)
        ensures
            representable(ortho_of(rect)) ==> r is Ok && final(self)@ == (GraphicsModel {
                projection: ortho_of(rect),
                screen_rect: rect,
                ..old(self)@
            }),
            !representable(ortho_of(rect)) ==> r == Err::<(), GameError>(
                GameError::MatrixOverflow,
            ) && final(self)@ == old(self)@,
    {
        match ortho_matrix(rect) {
            Some(m) => {
                self.projection = m;
                self.screen_rect = rect;
                Ok(())
            },
            None => Err(GameError::MatrixOverflow),
        }
    }

    /// The rectangle that the projection was last derived from.
    pub fn screen_coordinates(&self) -> (r: Rect)
        ensures
            r == self@.screen_rect,
    {
        self.screen_rect
    }

    /// Recomputes the combined transform, projection × current model
    /// transform, and queues its upload. Where the product cannot be stored,
    /// that is refused with `MatrixOverflow` and changes nothing.
    pub fn apply_transformations(&mut self) -> (r: Result<(), GameError>)
        requires
            old(self).wf(),
        ensures
            final(self).wf(),
            representable(mat_mul(old(self)@.projection, old(self)@.top())) ==> r is Ok
                && final(self)@ == (GraphicsModel {
                mvp: mat_mul(old(self)@.projection, old(self)@.top()),
                queue: old(self)@.queue.push(
                    CommandModel::UpdateGlobals(mat_mul(old(self)@.projection, old(self)@.top())),
                ),
                ..old(self)@
            }),
            !representable(mat_mul(old(self)@.projection, old(self)@.top())) ==> r == Err::<
                (),
                GameError,
            >(GameError::MatrixOverflow) && final(self)@ == old(self)@,
            r is Ok ==> final(self)@.applied(),
    {
        let top = self.modelview_stack.top();
        match self.projection.checked_mul(&top) {
            Some(m) => {
                self.mvp = m;
                self.enqueue(Command::UpdateGlobals(m));
                Ok(())
            },
            None => Err(GameError::MatrixOverflow),
        }
    }

    /// Adds a command at the end of the queue.
    fn enqueue(&mut self, command: Command)
        ensures
            final(self)@ == (GraphicsModel {
                queue: old(self)@.queue.push(command@),
                ..old(self)@
            }),
    {
        self.queue.push(command);
        assert(commands_view(self.queue@) =~= commands_view(old(self).queue@).push(command@));
    }

    /// Sets the projection for a screen rectangle, recomputes the combined
    /// transform and queues its upload. Where the projection or the combined
    /// transform cannot be stored, that is refused with `MatrixOverflow` and
    /// changes nothing.
    pub fn set_screen_coordinates(&mut self, rect: Rect) -> (r: Result<(), GameError>)
        requires
            old(self).wf(),
        ensures
            final(self).wf(),
            representable(ortho_of(rect)) && representable(
                mat_mul(ortho_of(rect), old(self)@.top()),
            ) ==> r is Ok && final(self)@ == (GraphicsModel {
                projection: ortho_of(rect),
                screen_rect: rect,
                mvp: mat_mul(ortho_of(rect), old(self)@.top()),
                queue: old(self)@.queue.push(
                    CommandModel::UpdateGlobals(mat_mul(ortho_of(rect), old(self)@.top())),
                ),
                ..old(self)@
            }),
            !(representable(ortho_of(rect)) && representable(
                mat_mul(ortho_of(rect), old(self)@.top()),
            )) ==> r == Err::<(), GameError>(GameError::MatrixOverflow)
                && final(self)@ == old(self)@,
            r is Ok ==> final(self)@.applied(),
    {
        let projection = match ortho_matrix(rect) {
            Some(m) => m,
            None => {
                return Err(GameError::MatrixOverflow);
            },
        };
        let top = self.modelview_stack.top();
        match projection.checked_mul(&top) {
            Some(m) => {
                self.projection = projection;
                self.screen_rect = rect;
                self.mvp = m;
                self.enqueue(Command::UpdateGlobals(m));
                Ok(())
            },
            None => Err(GameError::MatrixOverflow),
        }
    }

    /// Whether every change to the transforms and the projection has been
    /// applied: whether what was last uploaded is what would be uploaded now.
    pub fn is_applied(&self) -> (r: bool)
        requires
            self.wf(),
        ensures
            r == self@.applied(),
    {
        let top = self.modelview_stack.top();
        match self.projection.checked_mul(&top) {
            Some(m) => m.same(&self.mvp),
            None => {
                proof {
                    self.mvp.lemma_view_representable();
                }
                false
            },
        }
    }

    /// The combined transform that was last uploaded.
    pub fn mvp(&self) -> (m: Matrix4)
        ensures
            m@ == self@.mvp,
    {
        self.mvp
    }

    /// The filter of the sampler that new images get.
    pub fn default_filter(&self) -> (mode: FilterMode)
        ensures
            mode == self@.default_sampler_info.filter,
    {
        self.default_sampler_info.filter
    }

    /// The sampler that new images get.
    pub fn default_sampler_info(&self) -> (d: SamplerDescriptor)
        ensures
            d == self@.default_sampler_info,
    {
        self.default_sampler_info
    }

    /// Makes the clamping sampler with the given filter the one that new
    /// images get. The sampler is made now, if it does not exist yet.
    pub fn set_default_filter(&mut self, mode: FilterMode)
        requires
            old(self).wf(),
        ensures
            final(self).wf(),
            final(self)@ == (GraphicsModel {
                samplers: requested(old(self)@.samplers, sampler_for(mode)),
                default_sampler_info: sampler_for(mode),
                ..old(self)@
            }),
    {
        let sampler_info = SamplerDescriptor { filter: mode, wrap: WrapMode::Clamp };
        let _ = self.samplers.get_or_insert(sampler_info);
        self.default_sampler_info = sampler_info;
        proof {
            let before = old(self)@.samplers;
            let i = choose|i: int|
                0 <= i < before.len() && before[i] == old(self)@.default_sampler_info;
            assert(requested(before, sampler_info)[i] == old(self)@.default_sampler_info);
        }
    }

    /// The sampler for a descriptor; it is made now, if it does not exist yet.
    pub fn sampler(&mut self, info: SamplerDescriptor) -> (h: SamplerHandle)
        requires
            old(self).wf(),
        ensures
            final(self).wf(),
            final(self)@ == (GraphicsModel {
                samplers: requested(old(self)@.samplers, info),
                ..old(self)@
            }),
            h.index < final(self)@.samplers.len(),
            final(self)@.samplers[h.index as int] == info,
    {
        let h = self.samplers.get_or_insert(info);
        proof {
            let before = old(self)@.samplers;
            let i = choose|i: int|
                0 <= i < before.len() && before[i] == old(self)@.default_sampler_info;
            assert(requested(before, info)[i] == old(self)@.default_sampler_info);
        }
        h
    }

    /// The descriptor of a sampler, where the handle names one.
    pub fn sampler_descriptor(&self, handle: SamplerHandle) -> (d: Option<SamplerDescriptor>)
        ensures
            handle.index < self@.samplers.len() ==> d == Some(
                self@.samplers[handle.index as int],
            ),
            handle.index >= self@.samplers.len() ==> d is None,
    {
        self.samplers.descriptor(handle)
    }

    /// The number of samplers made so far.
    pub fn sampler_count(&self) -> (n: usize)
        ensures
            n == self@.samplers.len(),
    {
        self.samplers.len()
    }

    /// The blend mode of draws whose drawable names none.
    pub fn blend_mode(&self) -> (mode: BlendMode)
        ensures
            mode == self@.blend_mode,
    {
        self.blend_mode
    }

    /// Sets the blend mode of draws whose drawable names none.
    pub fn set_blend_mode(&mut self, mode: BlendMode) -> (r: Result<(), GameError>)
        ensures
            r is Ok,
            final(self)@ == (GraphicsModel { blend_mode: mode, ..old(self)@ }),
    {
        self.blend_mode = mode;
        Ok(())
    }

    /// The backend that the context is bound to.
    pub fn backend_spec(&self) -> (b: GlBackendSpec)
        ensures
            b == self@.backend_spec,
    {
        self.backend_spec
    }

    /// The format of the colour targets.
    pub fn color_format(&self) -> (f: Format)
        ensures
            f == self@.color_format,
    {
        self.color_format
    }

    /// The target that is drawn to.
    pub fn screen_render_target(&self) -> (t: RenderTarget)
        ensures
            t == self@.out,
    {
        self.out
    }

    /// Redirects drawing to the canvas with the given number and dimensions,
    /// or back to the screen where none is given.
    pub fn set_canvas(&mut self, canvas: Option<(u32, Dimensions)>)
        ensures
            final(self)@ == (GraphicsModel {
                out: match canvas {
                    Some((id, dimensions)) => RenderTarget { id: TargetId::Canvas(id), dimensions },
                    None => old(self)@.screen_render_target,
                },
                ..old(self)@
            }),
    {
        self.out = match canvas {
            Some((id, dimensions)) => RenderTarget { id: TargetId::Canvas(id), dimensions },
            None => self.screen_render_target,
        };
    }

    /// Takes note of the size of the window. Where the screen has another
    /// size, the screen gets the window's, and so does the bound target if
    /// it is the screen; the result says whether that happened.
    pub fn resize_viewport(&mut self, window: Dimensions) -> (resized: bool)
        ensures
            resized == (window != old(self)@.screen_render_target.dimensions),
            resized ==> final(self)@ == (GraphicsModel {
                screen_render_target: RenderTarget { id: TargetId::Screen, dimensions: window },
                out: if old(self)@.out.id == TargetId::Screen {
                    RenderTarget { id: TargetId::Screen, dimensions: window }
                } else {
                    old(self)@.out
                },
                ..old(self)@
            }),
            !resized ==> final(self)@ == old(self)@,
    {
        let current = self.screen_render_target.dimensions;
        match self.backend_spec.resize_viewport(current, current, window) {
            Some(dimensions) => {
                let screen = RenderTarget { id: TargetId::Screen, dimensions };
                self.screen_render_target = screen;
                match self.out.id {
                    TargetId::Screen => {
                        self.out = screen;
                    },
                    TargetId::Canvas(_) => {},
                }
                true
            },
            None => false,
        }
    }

    /// Where the context stands in its frame.
    pub fn frame_state(&self) -> (f: FrameState)
        ensures
            f == self@.frame,
    {
        self.frame
    }

    /// The number of commands queued since the last present.
    pub fn queued(&self) -> (n: usize)
        ensures
            n == self@.queue.len(),
    {
        self.queue.len()
    }

    /// Queues the clearing of the bound target to `color` and begins a frame.
    pub fn clear(&mut self, color: Color)
        ensures
            final(self)@ == (GraphicsModel {
                queue: old(self)@.queue.push(
                    CommandModel::Clear { target: old(self)@.out.id, color },
                ),
                frame: FrameState::Drawing,
                ..old(self)@
            }),
    {
        let target = self.out.id;
        self.enqueue(Command::Clear { target, color });
        self.frame = FrameState::Drawing;
    }

    /// Queues one draw to the bound target.
    pub fn draw_call(&mut self, call: DrawCall)
        ensures
            final(self)@ == (GraphicsModel {
                queue: old(self)@.queue.push(CommandModel::Draw(call)),
                ..old(self)@
            }),
    {
        self.enqueue(Command::Draw(call));
    }

    /// Ends the frame: binds the screen again and hands out every command
    /// queued since the last present, in the order in which it was queued.
    /// The queue is empty afterwards.
    pub fn present(&mut self) -> (frame: Vec<Command>)
        ensures
            frame@.len() == old(self)@.queue.len(),
            commands_view(frame@) == old(self)@.queue,
            final(self)@ == (GraphicsModel {
                out: old(self)@.screen_render_target,
                queue: Seq::<CommandModel>::empty(),
                frame: FrameState::Idle,
                ..old(self)@
            }),
    {
        let mut frame: Vec<Command> = Vec::new();
        std::mem::swap(&mut frame, &mut self.queue);
        self.out = self.screen_render_target;
        self.frame = FrameState::Idle;
        assert(commands_view(self.queue@) =~= Seq::<CommandModel>::empty());
        frame
    }

    /// The title of the window.
    pub fn window_title(&self) -> (title: &String)
        ensures
            title@ == self@.window_title,
    {
        &self.window_title
    }

    /// Sets the title of the window.
    pub fn set_window_title(&mut self, title: &str)
        ensures
            final(self)@ == (GraphicsModel { window_title: title@, ..old(self)@ }),
    {
        self.window_title = String::from_str(title);
    }

    /// What the context says of the rendering mode it asked for and got.
    pub fn renderer_info(&self) -> (text: String)
        ensures
            text@ == renderer_text(self@.backend_spec, self@.device_info),
    {
        let backend_info = self.backend_spec.info(&self.device_info);
        let mut text = String::from_str("Requested ");
        text.append(self.backend_spec.api.name());
        text.append(" ");
        push_decimal(&mut text, self.backend_spec.major as i64);
        text.append(".");
        push_decimal(&mut text, self.backend_spec.minor as i64);
        text.append(" Core profile, actually got ");
        text.append(backend_info.as_str());
        text.append(".");
        text
    }
}

/// A graphics context together with the configuration it was made from.
#[derive(Clone, Debug)]
pub struct Context {
    pub gfx_context: GraphicsContext,
    pub conf: Conf,
}

impl Context {
    /// The graphics context is well formed.
    pub open spec fn wf(&self) -> bool {
        self.gfx_context.wf()
    }
}

} // verus!
