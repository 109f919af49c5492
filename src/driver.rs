//! The event-loop state machine: from the current state and one window or
//! backend event to the next state and the one action the caller performs.
use vstd::prelude::*;

use crate::color::{Color, State};
use crate::renderer::{
    render_result,
    resize_result,
    App,
    AppView,
    Frame,
    RenderError,
    SurfaceConfig,
};

verus! {

/// Lifecycle of the loop.
#[derive(Clone, Copy, Debug, PartialEq, Eq, Structural)]
pub enum Phase {
    Uninitialized,
    Running,
    Terminating,
}

/// What the window system and the backend report, in arrival order.
#[derive(Clone, Copy, Debug, PartialEq, Eq, Structural)]
pub enum Event {
    /// The application became active.
    Resumed,
    /// The window exists and the backend negotiation ended; the window's
    /// inner size is `width` by `height`.
    Initialized { backend_ready: bool, width: u32, height: u32 },
    /// The window's inner size changed.
    Resized { width: u32, height: u32 },
    /// The update rule is due.
    Tick,
    /// A frame is due; `acquired` says whether the next surface image was had.
    RedrawRequested { acquired: bool },
    /// The user asked to close the window.
    CloseRequested,
    /// The window was destroyed.
    Destroyed,
}

/// What the caller does next.
#[derive(Clone, Copy, Debug, PartialEq, Eq, Structural)]
pub enum Action {
    /// Nothing to do.
    Nothing,
    /// Create the window, negotiate the backend, then report `Initialized`.
    Initialize,
    /// Configure the presentation surface to this size.
    Configure { width: u32, height: u32 },
    /// Clear, draw, submit and present the acquired image as planned.
    Draw(Frame),
    /// Ask the window system for a redraw.
    Redraw,
    /// A request was rejected; the loop goes on.
    Report(RenderError),
    /// Release everything and leave the loop.
    Exit,
    /// Release everything and leave the loop on a fatal error.
    Abort(RenderError),
}

/// What a driver is, seen from its contracts.
pub struct DriverView {
    pub phase: Phase,
    /// The render state's color.
    pub color: Color,
    /// The renderer, present exactly while the loop runs.
    pub renderer: Option<AppView>,
}

impl DriverView {
    pub open spec fn wf(self) -> bool {
        &&& self.color.finite()
        &&& (self.phase == Phase::Running <==> self.renderer is Some)
        &&& (self.renderer matches Some(a) ==> a.wf())
    }

    /// The loop has stopped, with its resources released.
    pub open spec fn stopped(self) -> DriverView {
        DriverView { phase: Phase::Terminating, renderer: None, ..self }
    }
}

/// The state after `e` and the action it calls for.
pub open spec fn next(d: DriverView, e: Event) -> (DriverView, Action) {
    match d.phase {
        Phase::Uninitialized => match e {
            Event::Resumed => (d, Action::Initialize),
            Event::Initialized { backend_ready, width, height } => {
                if !backend_ready {
                    (d.stopped(), Action::Abort(RenderError::BackendUnavailable))
                } else if width == 0 || height == 0 {
                    (d.stopped(), Action::Abort(RenderError::InvalidDimensions))
                } else {
                    let a = AppView {
                        config: SurfaceConfig { width, height },
                        lost_streak: 0,
                    };
                    (
                        DriverView { phase: Phase::Running, renderer: Some(a), ..d },
                        Action::Configure { width, height },
                    )
                }
            },
            Event::CloseRequested | Event::Destroyed => (d.stopped(), Action::Exit),
            _ => (d, Action::Nothing),
        },
        Phase::Running => {
            let a = d.renderer->0;
            match e {
                Event::Resized { width, height } => {
                    let (a2, r) = resize_result(a, width, height);
                    let act = match r {
                        Ok(_) => Action::Configure { width, height },
                        Err(err) => Action::Report(err),
                    };
                    (DriverView { renderer: Some(a2), ..d }, act)
                },
                Event::Tick => (DriverView { color: Color::spec_green(), ..d }, Action::Redraw),
                Event::RedrawRequested { acquired } => {
                    let (a2, r) = render_result(a, d.color, acquired);
                    match r {
                        Ok(f) => (DriverView { renderer: Some(a2), ..d }, Action::Draw(f)),
                        Err(err) => if a2.exhausted() {
                            (d.stopped(), Action::Abort(err))
                        } else {
                            (
                                DriverView { renderer: Some(a2), ..d },
                                Action::Configure {
                                    width: a2.config.width,
                                    height: a2.config.height,
                                },
                            )
                        },
                    }
                },
                Event::CloseRequested | Event::Destroyed => (d.stopped(), Action::Exit),
                _ => (d, Action::Nothing),
            }
        },
        Phase::Terminating => (d, Action::Nothing),
    }
}

/// The event loop's state: its phase, the render state, and the renderer
/// while the loop runs.
pub struct Driver {
    phase: Phase,
    state: State,
    renderer: Option<App>,
}

impl View for Driver {
    type V = DriverView;

    closed spec fn view(&self) -> DriverView {
        DriverView {
            phase: self.phase,
            color: self.state.color,
            renderer: match self.renderer {
                Some(a) => Some(a@),
                None => None,
            },
        }
    }
}

impl Driver {
    /// A driver before activation, its color opaque red.
    pub fn new() -> (d: Driver)
        ensures
            d@ == (DriverView {
                phase: Phase::Uninitialized,
                color: Color::spec_red(),
                renderer: None,
            }),
            d@.wf(),
    {
        Driver { phase: Phase::Uninitialized, state: State::new(), renderer: None }
    }

    fn stop(&mut self)
        ensures
            final(self)@ == old(self)@.stopped(),
    {
        self.phase = Phase::Terminating;
        self.renderer = None;
    }

    /// Takes one event and returns the action it calls for.
    pub fn step(&mut self, e: Event) -> (act: Action)
        requires
            old(self)@.wf(),
        ensures
            (final(self)@, act) == next(old(self)@, e),
            final(self)@.wf(),
    {
        match self.phase {
            Phase::Uninitialized => match e {
                Event::Resumed => Action::Initialize,
                Event::Initialized { backend_ready, width, height } => {
                    match App::new(backend_ready, width, height) {
                        Ok(a) => {
                            self.phase = Phase::Running;
                            self.renderer = Some(a);
                            Action::Configure { width, height }
                        },
                        Err(err) => {
                            self.stop();
                            Action::Abort(err)
                        },
                    }
                },
                Event::CloseRequested | Event::Destroyed => {
                    self.stop();
                    Action::Exit
                },
                _ => Action::Nothing,
            },
            Phase::Running => match e {
                Event::Resized { width, height } => match &mut self.renderer {
                    Some(a) => match a.resize(width, height) {
                        Ok(()) => Action::Configure { width, height },
                        Err(err) => Action::Report(err),
                    },
                    None => Action::Nothing,
                },
                Event::Tick => {
                    App::update(&mut self.state);
                    Action::Redraw
                },
                Event::RedrawRequested { acquired } => {
                    let color = self.state.get_color();
                    let (act, lost) = match &mut self.renderer {
                        Some(a) => match a.render(color, acquired) {
                            Ok(f) => (Action::Draw(f), false),
                            Err(err) => if a.is_exhausted() {
                                (Action::Abort(err), true)
                            } else {
                                let c = a.config();
                                (Action::Configure { width: c.width, height: c.height }, false)
                            },
                        },
                        None => (Action::Nothing, false),
                    };
                    if lost {
                        self.stop();
                    }
                    act
                },
                Event::CloseRequested | Event::Destroyed => {
                    self.stop();
                    Action::Exit
                },
                _ => Action::Nothing,
            },
            Phase::Terminating => Action::Nothing,
        }
    }

    /// The current phase.
    pub fn phase(&self) -> (p: Phase)
        ensures
            p == self@.phase,
    {
        self.phase
    }

    /// The render state's current color.
    pub fn color(&self) -> (c: Color)
        ensures
            c == self@.color,
    {
        self.state.get_color()
    }

    /// The surface configuration, while the loop runs.
    pub fn config(&self) -> (c: Option<SurfaceConfig>)
        ensures
            c == (match self@.renderer {
                Some(a) => Some(a.config),
                None => None::<SurfaceConfig>,
            }),
    {
        match &self.renderer {
            Some(a) => Some(a.config()),
            None => None,
        }
    }
}

/// Once the loop is terminating, no event changes its state or calls for
/// any action: in particular no further frame is drawn.
pub proof fn lemma_terminating_is_final(d: DriverView, e: Event)
    requires
        d.phase == Phase::Terminating,
    ensures
        next(d, e) == (d, Action::Nothing),
        next(d, e).1 !is Draw,
{
}

/// A drawn frame is cleared to the render state's color as a whole, as it
/// stood when the frame was taken: never a mix of two colors.
pub proof fn lemma_frame_is_one_snapshot(d: DriverView, e: Event)
    requires
        d.wf(),
    ensures
        next(d, e).1 matches Action::Draw(f) ==> f.clear == d.color,
{
}

/// Events after the loop has stopped leave it stopped, whatever they are.
pub proof fn lemma_stays_terminated(d: DriverView, events: Seq<Event>)
    requires
        d.phase == Phase::Terminating,
    ensures
        run(d, events) == d,
    decreases events.len(),
{
    if events.len() > 0 {
        lemma_terminating_is_final(d, events[0]);
        lemma_stays_terminated(d, events.drop_first());
    }
}

/// The state after a sequence of events.
pub open spec fn run(d: DriverView, events: Seq<Event>) -> DriverView
    decreases events.len(),
{
    if events.len() == 0 {
        d
    } else {
        run(next(d, events[0]).0, events.drop_first())
    }
}

} // verus!
