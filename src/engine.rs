use vstd::prelude::*;
use wgpu::{SurfaceError, TextureFormat};

use crate::config::{ConfigView, EngineConfig};
use crate::graphics::Graphics;
use crate::surface::{
    caps_error, caps_usable, negotiated, with_extent, ConfigureError, SurfaceCaps,
    SurfaceSettings,
};
use crate::utils::{after_update, FrameTimer, TimerView};

verus! {

/// The failure that `wgpu::Surface::get_current_texture` reports. Declared
/// with its variants visible (Timeout, Outdated, Lost, OutOfMemory, Other;
/// none has fields), so that verified code can tell them apart.
#[verifier::external_type_specification]
pub struct ExSurfaceError(wgpu::SurfaceError);

/// Where the engine is in its life.
#[derive(PartialEq, Eq, Structural, Clone, Copy, Debug)]
pub enum Lifecycle {
    /// No subsystem exists yet.
    Uninitialized,
    /// The window and the graphics context are being created.
    Activating,
    /// All subsystems exist; window events are dispatched.
    Active,
    /// A close was requested or an error was fatal; terminal.
    ShuttingDown,
}

/// A window event, as far as the engine's own handling goes.
#[derive(PartialEq, Eq, Structural, Clone, Copy, Debug)]
pub enum WindowEventKind {
    CloseRequested,
    Resized { width: u32, height: u32 },
    RedrawRequested,
    Other,
}

/// One thing for the host to do, in the order given by a plan.
#[derive(PartialEq, Eq, Structural, Clone, Copy, Debug)]
pub enum Step {
    /// Create the window from the engine's configuration.
    CreateWindow,
    /// Create the GPU device and the window's surface, then report the
    /// surface capabilities and the window's pixel size to `surface_ready`.
    CreateGraphics,
    /// Apply the engine's current surface configuration to the surface.
    ApplySurface,
    /// Create the per-frame resource holder.
    CreateFrameResources,
    /// Create the overlay renderer for the negotiated surface format.
    CreateOverlay,
    /// Run the application's activation hook.
    AppActivate,
    /// Offer the raw event to the overlay.
    OverlayInput,
    /// Ask the host loop to exit.
    Exit,
    /// Ask the window for another redraw.
    RequestRedraw,
    /// Acquire the next presentable image and report the outcome to
    /// `frame_acquired`.
    AcquireFrame,
    /// Store the acquired image, a view over it and a new command buffer.
    BeginFrame,
    /// Run the application's render hook on the open frame.
    AppRender,
    /// Open the overlay's pass with the input gathered since the last frame.
    OverlayBegin,
    /// Run the application's gui hook.
    AppGui,
    /// Close the overlay's pass and record it into the open command buffer.
    OverlayEnd,
    /// Finish and submit the command buffer, then present the image.
    EndFrame,
    /// Run the application's event hook.
    AppEvent,
    /// Stop: the device or surface failed beyond recovery.
    Abort,
}

/// The abstract value of an [`Engine`].
pub struct EngineView {
    pub config: ConfigView,
    pub lifecycle: Lifecycle,
    /// An acquisition was asked for and its outcome not yet reported.
    pub acquiring: bool,
    pub surface: Option<SurfaceSettings>,
    pub timer: TimerView,
    /// How many windows the engine has asked for.
    pub windows_created: nat,
}

/// The orchestrator's decisions: from its state and an event to its next
/// state and the plan of steps that the host carries out, in order.
pub struct Engine {
    config: EngineConfig,
    lifecycle: Lifecycle,
    acquiring: bool,
    graphics: Graphics,
    timer: FrameTimer,
    windows_created: Ghost<nat>,
}

/// The surface failures that a resize to the window's size recovers from.
pub open spec fn is_stale(e: SurfaceError) -> bool {
    e is Lost || e is Outdated
}

pub open spec fn activation_plan() -> Seq<Step> {
    seq![Step::ApplySurface, Step::CreateFrameResources, Step::CreateOverlay, Step::AppActivate]
}

pub open spec fn event_plan(event: WindowEventKind) -> Seq<Step> {
    match event {
        WindowEventKind::CloseRequested => seq![Step::OverlayInput, Step::Exit, Step::AppEvent],
        WindowEventKind::Resized { .. } => seq![
            Step::OverlayInput,
            Step::ApplySurface,
            Step::RequestRedraw,
            Step::AppEvent,
        ],
        WindowEventKind::RedrawRequested => seq![Step::OverlayInput, Step::AcquireFrame],
        WindowEventKind::Other => seq![Step::OverlayInput, Step::AppEvent],
    }
}

/// The lifecycle after a window event handled while active.
pub open spec fn lifecycle_after(event: WindowEventKind) -> Lifecycle {
    if event is CloseRequested {
        Lifecycle::ShuttingDown
    } else {
        Lifecycle::Active
    }
}

/// The surface configuration after a window event: a resize changes the
/// extent, nothing else touches it.
pub open spec fn surface_after(s: Option<SurfaceSettings>, event: WindowEventKind) -> Option<
    SurfaceSettings,
> {
    match event {
        WindowEventKind::Resized { width, height } => Some(with_extent(s->Some_0, width, height)),
        _ => s,
    }
}

/// The rest of a redraw whose image was acquired.
pub open spec fn frame_plan() -> Seq<Step> {
    seq![
        Step::BeginFrame,
        Step::AppRender,
        Step::OverlayBegin,
        Step::AppGui,
        Step::OverlayEnd,
        Step::EndFrame,
        Step::RequestRedraw,
        Step::AppEvent,
    ]
}

/// The rest of a redraw whose surface was stale.
pub open spec fn recovery_plan() -> Seq<Step> {
    seq![Step::ApplySurface, Step::RequestRedraw, Step::AppEvent]
}

impl View for Engine {
    type V = EngineView;

    closed spec fn view(&self) -> EngineView {
        EngineView {
            config: self.config@,
            lifecycle: self.lifecycle,
            acquiring: self.acquiring,
            surface: self.graphics@,
            timer: self.timer@,
            windows_created: self.windows_created@,
        }
    }
}

impl Engine {
    /// The invariant of every engine state.
    pub closed spec fn wf(&self) -> bool {
        &&& self.timer.wf()
        &&& self.windows_created@ == if self.lifecycle is Uninitialized {
            0nat
        } else {
            1nat
        }
        &&& (self.lifecycle is Uninitialized || self.lifecycle is Activating)
            ==> self.graphics@ is None
        &&& self.lifecycle is Active ==> self.graphics@ is Some
        &&& self.acquiring ==> self.lifecycle is Active
    }

    pub fn new(config: EngineConfig) -> (r: Self)
        ensures
            r.wf(),
            r@.config == config@,
            r@.lifecycle is Uninitialized,
            !r@.acquiring,
            r@.surface is None,
            r@.timer == (TimerView { frame_count: 0, accumulated: 0, delta: 0, fps: 0 }),
            r@.windows_created == 0,
    {
        Engine {
            config,
            lifecycle: Lifecycle::Uninitialized,
            acquiring: false,
            graphics: Graphics::new(),
            timer: FrameTimer::new(),
            windows_created: Ghost(0),
        }
    }

    /// The host activated the application. The first time, the engine asks
    /// for the window and the graphics context; later calls change nothing
    /// and plan nothing, so there is only ever one window.
    pub fn resumed(&mut self) -> (r: Vec<Step>)
        requires
            old(self).wf(),
        ensures
            final(self).wf(),
            old(self)@.lifecycle is Uninitialized ==> r@ == seq![Step::CreateWindow, Step::CreateGraphics]
                && final(self)@ == (EngineView {
                lifecycle: Lifecycle::Activating,
                windows_created: 1,
                ..old(self)@
            }),
            !(old(self)@.lifecycle is Uninitialized) ==> r@ == Seq::<Step>::empty() && final(self)@
                == old(self)@,
    {
        if self.lifecycle == Lifecycle::Uninitialized {
            self.lifecycle = Lifecycle::Activating;
            self.windows_created = Ghost(1);
            let r = vec![Step::CreateWindow, Step::CreateGraphics];
            assert(r@ == seq![Step::CreateWindow, Step::CreateGraphics]);
            r
        } else {
            Vec::new()
        }
    }

    /// The window and the graphics context exist: negotiates the surface
    /// configuration for the window's current pixel size, then plans the
    /// remaining subsystems and the application's activation hook. A
    /// capability set that offers no configuration is fatal.
    pub fn surface_ready(&mut self, caps: &SurfaceCaps, width: u32, height: u32) -> (r: Result<
        Vec<Step>,
        ConfigureError,
    >)
        requires
            old(self).wf(),
            old(self)@.lifecycle is Activating,
        ensures
            final(self).wf(),
            r is Ok <==> caps_usable(caps),
            r matches Ok(plan) ==> {
                &&& plan@ == activation_plan()
                &&& final(self)@ == (EngineView {
                    lifecycle: Lifecycle::Active,
                    surface: final(self)@.surface,
                    ..old(self)@
                })
                &&& final(self)@.surface matches Some(s) && negotiated(s, caps, width, height)
            },
            r matches Err(e) ==> e == caps_error(caps) && final(self)@ == (EngineView {
                lifecycle: Lifecycle::ShuttingDown,
                ..old(self)@
            }),
    {
        match self.graphics.configure(caps, width, height) {
            Ok(_) => {
                self.lifecycle = Lifecycle::Active;
                let r = vec![
                    Step::ApplySurface,
                    Step::CreateFrameResources,
                    Step::CreateOverlay,
                    Step::AppActivate,
                ];
                assert(r@ == activation_plan());
                Ok(r)
            },
            Err(e) => {
                self.lifecycle = Lifecycle::ShuttingDown;
                Err(e)
            },
        }
    }

    /// Dispatches a window event that arrived `elapsed` nanoseconds after the
    /// previous one. The overlay sees every event first and the application's
    /// event hook runs last; a redraw stops after asking for an image, and
    /// goes on in `frame_acquired`.
    pub fn window_event(&mut self, event: WindowEventKind, elapsed: u64) -> (r: Vec<Step>)
        requires
            old(self).wf(),
            old(self)@.lifecycle is Active,
            !old(self)@.acquiring,
        ensures
            final(self).wf(),
            r@ == event_plan(event),
            final(self)@ == (EngineView {
                lifecycle: lifecycle_after(event),
                acquiring: event is RedrawRequested,
                surface: surface_after(old(self)@.surface, event),
                timer: after_update(old(self)@.timer, elapsed),
                ..old(self)@
            }),
    {
        self.timer.update(elapsed);
        let r = match event {
            WindowEventKind::CloseRequested => {
                self.lifecycle = Lifecycle::ShuttingDown;
                vec![Step::OverlayInput, Step::Exit, Step::AppEvent]
            },
            WindowEventKind::Resized { width, height } => {
                self.graphics.resize(width, height);
                vec![Step::OverlayInput, Step::ApplySurface, Step::RequestRedraw, Step::AppEvent]
            },
            WindowEventKind::RedrawRequested => {
                self.acquiring = true;
                vec![Step::OverlayInput, Step::AcquireFrame]
            },
            WindowEventKind::Other => vec![Step::OverlayInput, Step::AppEvent],
        };
        assert(r@ == event_plan(event));
        r
    }

    /// Goes on with a redraw once the acquisition asked for has an outcome.
    /// An acquired image runs the whole frame; a stale surface is resized to
    /// the window's current pixel size and another redraw asked for, with no
    /// frame begun; any other failure aborts, with no frame ended.
    pub fn frame_acquired(
        &mut self,
        outcome: Result<(), SurfaceError>,
        window_width: u32,
        window_height: u32,
    ) -> (r: Vec<Step>)
        requires
            old(self).wf(),
            old(self)@.acquiring,
        ensures
            final(self).wf(),
            outcome is Ok ==> r@ == frame_plan() && final(self)@ == (EngineView {
                acquiring: false,
                ..old(self)@
            }),
            outcome matches Err(e) && is_stale(e) ==> r@ == recovery_plan() && final(self)@ == (
            EngineView {
                acquiring: false,
                surface: Some(with_extent(old(self)@.surface->Some_0, window_width, window_height)),
                ..old(self)@
            }),
            outcome matches Err(e) && !is_stale(e) ==> r@ == seq![Step::Abort] && final(self)@ == (
            EngineView { acquiring: false, lifecycle: Lifecycle::ShuttingDown, ..old(self)@ }),
    {
        self.acquiring = false;
        match outcome {
            Ok(()) => {
                let r = vec![
                    Step::BeginFrame,
                    Step::AppRender,
                    Step::OverlayBegin,
                    Step::AppGui,
                    Step::OverlayEnd,
                    Step::EndFrame,
                    Step::RequestRedraw,
                    Step::AppEvent,
                ];
                assert(r@ == frame_plan());
                r
            },
            Err(SurfaceError::Lost) | Err(SurfaceError::Outdated) => {
                self.graphics.resize(window_width, window_height);
                let r = vec![Step::ApplySurface, Step::RequestRedraw, Step::AppEvent];
                assert(r@ == recovery_plan());
                r
            },
            Err(_) => {
                self.lifecycle = Lifecycle::ShuttingDown;
                vec![Step::Abort]
            },
        }
    }

    pub fn lifecycle(&self) -> (r: Lifecycle)
        ensures
            r == self@.lifecycle,
    {
        self.lifecycle
    }

    pub fn is_active(&self) -> (r: bool)
        ensures
            r == self@.lifecycle is Active,
    {
        self.lifecycle == Lifecycle::Active
    }

    pub fn is_acquiring(&self) -> (r: bool)
        ensures
            r == self@.acquiring,
    {
        self.acquiring
    }

    pub fn config(&self) -> (r: &EngineConfig)
        ensures
            r@ == self@.config,
    {
        &self.config
    }

    pub fn frame_timer(&self) -> (r: &FrameTimer)
        ensures
            r@ == self@.timer,
    {
        &self.timer
    }

    /// The negotiated surface configuration; absent until `surface_ready`
    /// has configured the surface.
    pub fn surface_config(&self) -> (r: Option<SurfaceSettings>)
        ensures
            r == self@.surface,
    {
        self.graphics.surface_config()
    }

    pub fn surface_format(&self) -> (r: Option<TextureFormat>)
        ensures
            r is Some <==> self@.surface is Some,
            r matches Some(f) ==> f == self@.surface->Some_0.format,
    {
        self.graphics.surface_format()
    }
}

/// How often `s` occurs in `plan`.
pub open spec fn occurrences(plan: Seq<Step>, s: Step) -> nat
    decreases plan.len(),
{
    if plan.len() == 0 {
        0
    } else {
        occurrences(plan.drop_last(), s) + if plan.last() == s {
            1nat
        } else {
            0nat
        }
    }
}

/// Every plan the engine hands out keeps frames balanced: an acquired image
/// gives exactly one `BeginFrame` followed by exactly one `EndFrame`, and no
/// other plan begins or ends a frame.
pub proof fn lemma_plans_balance_frames(event: WindowEventKind)
    ensures
        occurrences(event_plan(event), Step::BeginFrame) == 0,
        occurrences(event_plan(event), Step::EndFrame) == 0,
        occurrences(activation_plan(), Step::BeginFrame) == 0,
        occurrences(activation_plan(), Step::EndFrame) == 0,
        occurrences(recovery_plan(), Step::BeginFrame) == 0,
        occurrences(recovery_plan(), Step::EndFrame) == 0,
        occurrences(seq![Step::Abort], Step::EndFrame) == 0,
        occurrences(frame_plan(), Step::BeginFrame) == 1,
        occurrences(frame_plan(), Step::EndFrame) == 1,
        frame_plan()[0] == Step::BeginFrame,
        frame_plan()[5] == Step::EndFrame,
{
    reveal_with_fuel(occurrences, 9);
    let f = frame_plan();
    assert(f.drop_last() == seq![Step::BeginFrame, Step::AppRender, Step::OverlayBegin, Step::AppGui, Step::OverlayEnd, Step::EndFrame, Step::RequestRedraw]);
    assert(f.drop_last().drop_last() == seq![Step::BeginFrame, Step::AppRender, Step::OverlayBegin, Step::AppGui, Step::OverlayEnd, Step::EndFrame]);
    assert(f.drop_last().drop_last().drop_last() == seq![Step::BeginFrame, Step::AppRender, Step::OverlayBegin, Step::AppGui, Step::OverlayEnd]);
    assert(f.drop_last().drop_last().drop_last().drop_last() == seq![Step::BeginFrame, Step::AppRender, Step::OverlayBegin, Step::AppGui]);
    assert(f.drop_last().drop_last().drop_last().drop_last().drop_last() == seq![Step::BeginFrame, Step::AppRender, Step::OverlayBegin]);
    assert(seq![Step::BeginFrame, Step::AppRender, Step::OverlayBegin].drop_last() == seq![Step::BeginFrame, Step::AppRender]);
    assert(seq![Step::BeginFrame, Step::AppRender].drop_last() == seq![Step::BeginFrame]);
    assert(seq![Step::BeginFrame].drop_last() == Seq::<Step>::empty());
}

/// In every engine state at most one window has been asked for, exactly one
/// once activation has started; no surface configuration exists before the
/// surface has been configured, and one exists whenever the engine is active.
pub proof fn lemma_single_window(e: &Engine)
    requires
        e.wf(),
    ensures
        e@.windows_created <= 1,
        e@.windows_created == 1 <==> !(e@.lifecycle is Uninitialized),
        e@.lifecycle is Uninitialized || e@.lifecycle is Activating ==> e@.surface is None,
        e@.lifecycle is Active ==> e@.surface is Some,
        e@.acquiring ==> e@.lifecycle is Active,
{
}

} // verus!
