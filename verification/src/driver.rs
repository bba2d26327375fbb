use crate::error::EXIT_OK;
use crate::picture::PictureSet;
use crate::renderer::{Renderer, WindowId};
use crate::surface::presentable;
use crate::timer::{Millis, RedrawTimer, RotationTimer};
use vstd::prelude::*;

verus! {

/// What the window system reports to the event loop.
#[derive(Clone, Copy, Debug, PartialEq, Eq, Structural)]
pub enum Event {
    /// The event loop has started.
    Started,
    /// The redraw timer has fired.
    TimerFired,
    /// The window system offers `window` an opportunity to paint.
    RedrawDue { window: WindowId },
    /// `window` has a new physical size, after a resize or a change of scale.
    Resized { window: WindowId, width: u32, height: u32 },
    /// The user asked to close `window`.
    CloseRequested { window: WindowId },
    /// Anything else.
    Other,
}

/// Where the event loop stands.
#[derive(Clone, Copy, Debug, PartialEq, Eq, Structural)]
pub enum Phase {
    /// Not started yet: the redraw timer is not armed.
    Init,
    /// Started, and waiting for the next event.
    Waiting,
    /// Closed: nothing is handled any more.
    Terminal,
}

/// What the host has to carry out after an event was handled.
#[derive(Clone, Copy, Debug, PartialEq, Eq, Structural)]
pub enum Action {
    /// Wait for the next event, for `timeout_ms` at most, and report
    /// [`Event::TimerFired`] if none came.
    ArmTimer { timeout_ms: u64 },
    /// Ask the window system to schedule a redraw of `window`.
    RequestRedraw { window: WindowId },
    /// Upload the picture at `index` of the picture set to the picture layer.
    SetPicture { index: usize },
    /// Acquire a frame, record the renderer's passes into it, submit, present.
    Draw,
    /// Configure the surface, and lay out the overlay, for this size.
    Configure { width: u32, height: u32 },
    /// Leave the event loop and end the process with `code`.
    Exit { code: i32 },
}

/// The event loop's state: the renderer, the picture set, and both timers.
#[derive(Debug)]
pub struct Driver {
    pub phase: Phase,
    pub renderer: Renderer,
    pub pictures: PictureSet,
    pub redraw: RedrawTimer,
    pub rotation: RotationTimer,
}

/// Draws an index below `len` with `rand::Rng::gen_range` on the range
/// `0..len`, from the generator that `rand::thread_rng` hands out. Trusted,
/// not proved: `gen_range` panics on an empty range, hence the precondition,
/// and returns a value of the range it is given. Nothing is claimed of how
/// the indices are distributed.
#[verifier::external_body]
fn random_index(len: usize) -> (index: usize)
    requires
        len > 0,
    ensures
        index < len,
{
    rand::Rng::gen_range(&mut rand::thread_rng(), 0..len)
}

impl Driver {
    /// Renderer and picture set are well formed, and every picture of the set
    /// fits the picture layer.
    pub open spec fn wf(&self) -> bool {
        &&& self.renderer.wf()
        &&& self.pictures.wf()
        &&& self.pictures.width == self.renderer.picture.width
        &&& self.pictures.height == self.renderer.picture.height
    }

    /// The event is for this driver to act on: the loop has not ended, and an
    /// event that names a window names the renderer's.
    pub open spec fn concerns(&self, event: Event) -> bool {
        self.phase != Phase::Terminal && match event {
            Event::RedrawDue { window } => window == self.renderer.window,
            Event::Resized { window, .. } => window == self.renderer.window,
            Event::CloseRequested { window } => window == self.renderer.window,
            _ => true,
        }
    }

    /// Handling the event at `now` replaces the picture: it is a paint
    /// opportunity, and the rotation interval has passed.
    pub open spec fn swaps(&self, event: Event, now: Millis) -> bool {
        self.concerns(event) && event is RedrawDue && self.rotation.is_due(now)
    }

    /// The actions that handling the event at `now` asks for, in order, where
    /// `pick` is the picture chosen if one is due.
    pub open spec fn actions(&self, event: Event, now: Millis, pick: usize) -> Seq<Action> {
        if !self.concerns(event) {
            Seq::empty()
        } else {
            match event {
                Event::Started => seq![Action::ArmTimer { timeout_ms: self.redraw.interval_ms }],
                Event::TimerFired => seq![
                    Action::RequestRedraw { window: self.renderer.window },
                    Action::ArmTimer { timeout_ms: self.redraw.interval_ms },
                ],
                Event::RedrawDue { .. } => if self.rotation.is_due(now) {
                    seq![Action::SetPicture { index: pick }, Action::Draw]
                } else {
                    seq![Action::Draw]
                },
                Event::Resized { width, height, .. } => if presentable(width, height) {
                    seq![Action::Configure { width, height }]
                } else {
                    Seq::empty()
                },
                Event::CloseRequested { .. } => seq![Action::Exit { code: EXIT_OK }],
                Event::Other => Seq::empty(),
            }
        }
    }

    /// The phase after the event: started by `Started`, ended by a close
    /// request, and never left once it is `Terminal`.
    pub open spec fn next_phase(&self, event: Event) -> Phase {
        if !self.concerns(event) {
            self.phase
        } else {
            match event {
                Event::Started => Phase::Waiting,
                Event::CloseRequested { .. } => Phase::Terminal,
                _ => self.phase,
            }
        }
    }

    /// What handling the event at `now` makes of `self`, where `pick` is the
    /// picture chosen if one is due.
    pub open spec fn stepped(&self, after: &Driver, event: Event, now: Millis, pick: usize) -> bool {
        &&& after.phase == self.next_phase(event)
        &&& after.pictures == self.pictures
        &&& after.rotation == if self.swaps(event, now) {
            self.rotation.restarted(now)
        } else {
            self.rotation
        }
        &&& after.redraw == if self.concerns(event) && (event is Started || event is TimerFired) {
            self.redraw.armed(now)
        } else {
            self.redraw
        }
        &&& if self.swaps(event, now) {
            self.renderer.uploaded(&after.renderer, self.pictures@[pick as int])
        } else if self.concerns(event) && event is Resized {
            self.renderer.resized(&after.renderer, event->Resized_width, event->Resized_height)
        } else {
            after.renderer == self.renderer
        }
    }

    /// Whether handling the event at `now` replaces the picture.
    pub fn swap_due(&self, event: Event, now: Millis) -> (due: bool)
        ensures
            due == self.swaps(event, now),
    {
        match (self.phase, event) {
            (Phase::Terminal, _) => false,
            (_, Event::RedrawDue { window }) => self.renderer.match_window(window)
                && self.rotation.due(now),
            _ => false,
        }
    }

    /// The driver before the loop starts: `pick` is shown first, and the
    /// rotation interval runs from `now`.
    pub fn new(
        renderer: Renderer,
        pictures: PictureSet,
        redraw_interval_ms: u64,
        rotation_interval_secs: u64,
        now: Millis,
        pick: usize,
    ) -> (driver: Driver)
        requires
            renderer.wf(),
            pictures.wf(),
            pictures.width == renderer.picture.width,
            pictures.height == renderer.picture.height,
            pick < pictures@.len(),
        ensures
            driver.wf(),
            driver.phase == Phase::Init,
            driver.pictures == pictures,
            renderer.uploaded(&driver.renderer, pictures@[pick as int]),
            driver.redraw == (RedrawTimer { interval_ms: redraw_interval_ms, last_fired: now }),
            driver.rotation == (RotationTimer {
                interval_secs: rotation_interval_secs,
                last_swap: now,
            }),
    {
        let mut renderer = renderer;
        renderer.set_picture(pictures.get(pick));
        Driver {
            phase: Phase::Init,
            renderer,
            pictures,
            redraw: RedrawTimer::new(redraw_interval_ms, now),
            rotation: RotationTimer::new(rotation_interval_secs, now),
        }
    }

    /// The driver before the loop starts, showing a picture chosen at random.
    pub fn start(
        renderer: Renderer,
        pictures: PictureSet,
        redraw_interval_ms: u64,
        rotation_interval_secs: u64,
        now: Millis,
    ) -> (started: (Driver, usize))
        requires
            renderer.wf(),
            pictures.wf(),
            pictures.width == renderer.picture.width,
            pictures.height == renderer.picture.height,
        ensures
            started.0.wf(),
            started.0.phase == Phase::Init,
            started.0.pictures == pictures,
            started.1 < pictures@.len(),
            renderer.uploaded(&started.0.renderer, pictures@[started.1 as int]),
            started.0.redraw == (RedrawTimer { interval_ms: redraw_interval_ms, last_fired: now }),
            started.0.rotation == (RotationTimer {
                interval_secs: rotation_interval_secs,
                last_swap: now,
            }),
    {
        let pick: usize = random_index(pictures.len());
        let driver = Driver::new(
            renderer,
            pictures,
            redraw_interval_ms,
            rotation_interval_secs,
            now,
            pick,
        );
        (driver, pick)
    }

    /// Handles one event at `now`; if a picture is due, it is `pick`.
    pub fn step(&mut self, event: Event, now: Millis, pick: usize) -> (actions: Vec<Action>)
        requires
            old(self).wf(),
            old(self).swaps(event, now) ==> pick < old(self).pictures@.len(),
        ensures
            final(self).wf(),
            old(self).stepped(final(self), event, now, pick),
            actions@ == old(self).actions(event, now, pick),
    {
        let mut actions: Vec<Action> = Vec::new();
        match (self.phase, event) {
            (Phase::Terminal, _) => {},
            (_, Event::Started) => {
                let timeout_ms: u64 = self.redraw.arm(now);
                actions.push(Action::ArmTimer { timeout_ms });
                self.phase = Phase::Waiting;
            },
            (_, Event::TimerFired) => {
                let window: WindowId = self.renderer.request_redraw();
                actions.push(Action::RequestRedraw { window });
                let timeout_ms: u64 = self.redraw.arm(now);
                actions.push(Action::ArmTimer { timeout_ms });
            },
            (_, Event::RedrawDue { window }) => {
                if self.renderer.match_window(window) {
                    if self.rotation.due(now) {
                        self.renderer.set_picture(self.pictures.get(pick));
                        self.rotation.reset(now);
                        actions.push(Action::SetPicture { index: pick });
                    }
                    actions.push(Action::Draw);
                }
            },
            (_, Event::Resized { window, width, height }) => {
                if self.renderer.match_window(window) {
                    if self.renderer.resize(width, height) {
                        actions.push(Action::Configure { width, height });
                    }
                }
            },
            (_, Event::CloseRequested { window }) => {
                if self.renderer.match_window(window) {
                    actions.push(Action::Exit { code: EXIT_OK });
                    self.phase = Phase::Terminal;
                }
            },
            (_, Event::Other) => {},
        }
        actions
    }

    /// Handles one event at `now`; if a picture is due, one is chosen at
    /// random, repeats allowed.
    pub fn handle(&mut self, event: Event, now: Millis) -> (actions: Vec<Action>)
        requires
            old(self).wf(),
        ensures
            final(self).wf(),
            exists|pick: usize|
                pick < old(self).pictures@.len() && #[trigger] old(self).stepped(
                    final(self),
                    event,
                    now,
                    pick,
                ) && actions@ == old(self).actions(event, now, pick),
    {
        let pick: usize = if self.swap_due(event, now) {
            random_index(self.pictures.len())
        } else {
            0
        };
        self.step(event, now, pick)
    }
}

/// While the rotation interval has not passed, handling an event sets no
/// picture: no such action is asked for, the picture layer keeps its content,
/// and the interval keeps running from the same baseline.
pub proof fn no_swap_before_interval(
    before: Driver,
    after: Driver,
    event: Event,
    now: Millis,
    pick: usize,
)
    requires
        before.stepped(&after, event, now, pick),
        before.rotation.elapsed(now) < before.rotation.interval_secs * 1000,
    ensures
        forall|i: int|
            0 <= i < before.actions(event, now, pick).len() ==> !(#[trigger] before.actions(
                event,
                now,
                pick,
            )[i] is SetPicture),
        after.renderer.picture == before.renderer.picture,
        after.rotation == before.rotation,
{
}

/// Once the rotation interval has passed, a paint opportunity sets exactly
/// one picture, the chosen one, before the frame is drawn, and the interval
/// runs anew from `now`.
pub proof fn one_swap_when_interval_passed(
    before: Driver,
    after: Driver,
    window: WindowId,
    now: Millis,
    pick: usize,
)
    requires
        before.phase != Phase::Terminal,
        window == before.renderer.window,
        before.stepped(&after, Event::RedrawDue { window }, now, pick),
        before.rotation.elapsed(now) >= before.rotation.interval_secs * 1000,
    ensures
        before.actions(Event::RedrawDue { window }, now, pick) == seq![
            Action::SetPicture { index: pick },
            Action::Draw,
        ],
        after.renderer.picture.texture@ == before.pictures@[pick as int],
        after.rotation.last_swap == now,
        after.rotation.interval_secs == before.rotation.interval_secs,
        after.rotation.elapsed(now) == 0,
{
}

/// A close request for the renderer's window ends the loop, and an ended loop
/// asks for nothing and changes nothing, whatever event comes.
pub proof fn close_is_final(
    before: Driver,
    closed: Driver,
    after: Driver,
    event: Event,
    now: Millis,
    later: Millis,
    pick: usize,
)
    requires
        before.phase != Phase::Terminal,
        before.stepped(
            &closed,
            Event::CloseRequested { window: before.renderer.window },
            now,
            pick,
        ),
        closed.stepped(&after, event, later, pick),
    ensures
        before.actions(Event::CloseRequested { window: before.renderer.window }, now, pick)
            == seq![Action::Exit { code: EXIT_OK }],
        closed.phase == Phase::Terminal,
        closed.actions(event, later, pick) == Seq::<Action>::empty(),
        after == closed,
{
}

} // verus!
