//! The decisions of the event loop: what each input event does to the view,
//! and what one frame does with the cursor.
//!
//! The loop itself belongs to the program that owns the window. It hands every
//! polled event to [`Session::handle_event`], and once per frame the cursor
//! position to [`Session::frame`], which answers with the place to move the
//! cursor to, if any, and the rectangle to project.

use crate::geometry::{Point, WindowSize};
use crate::fixed::{lemma_quotient_toward_zero_bounds, saturate};
use crate::view::{
    damped, lemma_damped, lemma_operations_keep_wf, ViewBounds, ViewModel, ViewState, ZOOM_MAX,
    ZOOM_MIN,
};
use vstd::prelude::*;

verus! {

/// The keys that the session tells apart.
#[derive(Clone, Copy, Debug, PartialEq, Eq, Structural)]
pub enum Key {
    Escape,
    R,
    Other,
}

/// The mouse buttons that the session tells apart.
#[derive(Clone, Copy, Debug, PartialEq, Eq, Structural)]
pub enum Button {
    Left,
    Other,
}

/// What happened to a key or a button.
#[derive(Clone, Copy, Debug, PartialEq, Eq, Structural)]
pub enum Action {
    Press,
    Release,
    Repeat,
}

/// An input event as the window reports it.
#[derive(Clone, Copy, Debug, PartialEq, Eq, Structural)]
pub enum Event {
    /// A key changed state.
    Key(Key, Action),
    /// A mouse button changed state.
    Button(Button, Action),
    /// The wheel turned by this many steps vertically, fixed-point.
    Scroll(i64),
    /// Anything else.
    Other,
}

/// What the loop is to do after an event.
#[derive(Clone, Copy, Debug, PartialEq, Eq, Structural)]
pub enum Reaction {
    /// Go on.
    Continue,
    /// Ask the window to close.
    Close,
}

/// What the loop is to do with one frame.
#[derive(Clone, Copy, Debug, PartialEq, Eq)]
pub struct FramePlan {
    /// Where to move the cursor before the next frame, if anywhere.
    pub warp: Option<Point>,
    /// The rectangle of the image to show.
    pub bounds: ViewBounds,
}

/// The mathematical content of a [`Session`].
pub struct SessionModel {
    /// The view.
    pub view: ViewModel,
    /// Where the cursor was when the drag last measured it; `None` while the
    /// left button is up.
    pub drag_anchor: Option<Point>,
}

/// One step of a session: an event with the cursor position at that moment,
/// or a frame with the cursor position and the window size.
pub enum Input {
    Event(Event, Point),
    Frame(Point, WindowSize),
}

impl Input {
    /// The input is no press of R and no scroll in the direction `sign`
    /// (`-1` for zooming out, `1` for zooming in): whatever it does, it does
    /// not reset the view and does not push the zoom velocity that way.
    pub open spec fn never_pushes(self, sign: int) -> bool {
        match self {
            Input::Event(Event::Key(Key::R, Action::Press), _) => false,
            Input::Event(Event::Scroll(delta), _) => delta * sign <= 0,
            _ => true,
        }
    }
}

impl Event {
    /// What the loop is to do after this event: close on a press of Escape,
    /// go on otherwise.
    pub open spec fn reaction(self) -> Reaction {
        match self {
            Event::Key(Key::Escape, Action::Press) => Reaction::Close,
            _ => Reaction::Continue,
        }
    }
}

impl SessionModel {
    /// The view is well-formed.
    pub open spec fn wf(self) -> bool {
        self.view.wf()
    }

    /// The session at launch: the view at launch, no drag.
    pub open spec fn initial() -> SessionModel {
        SessionModel { view: ViewModel::initial(), drag_anchor: None }
    }

    /// The session after an event that arrived with the cursor at `cursor`.
    ///
    /// A press of R resets the view, a scroll adds to the zoom velocity, a
    /// press of the left button starts a drag at the cursor and its release
    /// ends the drag. Every other event is ignored.
    pub open spec fn on_event(self, event: Event, cursor: Point) -> SessionModel {
        match event {
            Event::Key(Key::R, Action::Press) => SessionModel { view: self.view.reset(), ..self },
            Event::Scroll(delta) => SessionModel { view: self.view.scroll(delta as int), ..self },
            Event::Button(Button::Left, Action::Press) => SessionModel {
                drag_anchor: Some(cursor),
                ..self
            },
            Event::Button(Button::Left, Action::Release) => SessionModel {
                drag_anchor: None,
                ..self
            },
            _ => self,
        }
    }

    /// Where a frame moves the cursor to: the wrap target, while a drag is
    /// on and the cursor touches an edge.
    pub open spec fn warp(self, cursor: Point, size: WindowSize) -> Option<Point> {
        if self.drag_anchor is Some {
            size.wrap_target(cursor)
        } else {
            None
        }
    }

    /// The session after the drag has been integrated: the origin moves by
    /// what the cursor moved since the anchor, and the anchor becomes the
    /// cursor position after the wrap. Nothing changes while no drag is on.
    pub open spec fn drag(self, cursor: Point, size: WindowSize) -> SessionModel {
        match self.drag_anchor {
            Some(anchor) => SessionModel {
                view: self.view.pan(cursor.x - anchor.x, cursor.y - anchor.y),
                drag_anchor: Some(size.wrapped(cursor)),
            },
            None => self,
        }
    }

    /// The session after one frame: drag integration, then zoom integration.
    pub open spec fn frame(self, cursor: Point, size: WindowSize) -> SessionModel {
        let dragged = self.drag(cursor, size);
        SessionModel { view: dragged.view.integrate(), ..dragged }
    }

    /// The session after one input.
    pub open spec fn step(self, input: Input) -> SessionModel {
        match input {
            Input::Event(event, cursor) => self.on_event(event, cursor),
            Input::Frame(cursor, size) => self.frame(cursor, size),
        }
    }

    /// The session after a sequence of inputs, first to last.
    pub open spec fn run(self, inputs: Seq<Input>) -> SessionModel
        decreases inputs.len(),
    {
        if inputs.len() == 0 {
            self
        } else {
            self.run(inputs.drop_last()).step(inputs.last())
        }
    }
}

/// The state of the event loop: the view and the drag in progress.
#[derive(Clone, Copy, Debug, PartialEq, Eq)]
pub struct Session {
    view: ViewState,
    drag_anchor: Option<Point>,
}

impl View for Session {
    type V = SessionModel;

    closed spec fn view(&self) -> SessionModel {
        SessionModel { view: self.view@, drag_anchor: self.drag_anchor }
    }
}

impl Session {
    #[verifier::type_invariant]
    spec fn inv(self) -> bool {
        self.view@.wf()
    }

    /// The session at launch.
    pub fn new() -> (session: Session)
        ensures
            session@ == SessionModel::initial(),
            session@.wf(),
        no_unwind
    {
        Session { view: ViewState::new(), drag_anchor: None }
    }

    /// Takes in one event that arrived with the cursor at `cursor`, and says
    /// whether the window is to close.
    pub fn handle_event(&mut self, event: Event, cursor: Point) -> (reaction: Reaction)
        ensures
            final(self)@ == old(self)@.on_event(event, cursor),
            final(self)@.wf(),
            reaction == event.reaction(),
        no_unwind
    {
        proof {
            use_type_invariant(&*self);
        }
        match event {
            Event::Key(Key::Escape, Action::Press) => Reaction::Close,
            Event::Key(Key::R, Action::Press) => {
                self.view.reset();
                Reaction::Continue
            },
            Event::Scroll(delta) => {
                self.view.scroll(delta);
                Reaction::Continue
            },
            Event::Button(Button::Left, Action::Press) => {
                self.drag_anchor = Some(cursor);
                Reaction::Continue
            },
            Event::Button(Button::Left, Action::Release) => {
                self.drag_anchor = None;
                Reaction::Continue
            },
            _ => Reaction::Continue,
        }
    }

    /// Runs one frame with the cursor at `cursor` in a window of size `size`:
    /// integrates the drag and the zoom, and plans the cursor move and the
    /// rectangle to show.
    pub fn frame(&mut self, cursor: Point, size: WindowSize) -> (plan: FramePlan)
        ensures
            final(self)@ == old(self)@.frame(cursor, size),
            final(self)@.wf(),
            plan.warp == old(self)@.warp(cursor, size),
            plan.bounds@ == final(self)@.view.bounds(
                size.spec_width() as int,
                size.spec_height() as int,
            ),
            plan.bounds@.denominator > 0,
        no_unwind
    {
        let warp = match self.drag_anchor {
            Some(anchor) => {
                let dx: i64 = cursor.x as i64 - anchor.x as i64;
                let dy: i64 = cursor.y as i64 - anchor.y as i64;
                self.view.pan(dx, dy);
                let target = size.edge_wrap(cursor);
                self.drag_anchor = match target {
                    Some(point) => Some(point),
                    None => Some(cursor),
                };
                target
            },
            None => None,
        };
        self.view.integrate();
        let bounds = self.view.bounds(size);
        FramePlan { warp, bounds }
    }

    /// The view.
    pub fn view_state(&self) -> (view: ViewState)
        ensures
            view@ == self@.view,
            self@.wf(),
        no_unwind
    {
        proof {
            use_type_invariant(self);
        }
        self.view
    }

    /// Where the drag last measured the cursor; `None` while no drag is on.
    pub fn drag_anchor(&self) -> (anchor: Option<Point>)
        ensures
            anchor == self@.drag_anchor,
        no_unwind
    {
        self.drag_anchor
    }
}

/// Every input leaves a well-formed session well-formed: whatever is scrolled,
/// dragged or pressed, the zoom factor stays within its limits.
pub proof fn lemma_step_keeps_wf(session: SessionModel, input: Input)
    requires
        session.wf(),
    ensures
        session.step(input).wf(),
{
    match input {
        Input::Event(event, cursor) => {
            match event {
                Event::Scroll(delta) => {
                    lemma_operations_keep_wf(session.view, delta as int, 0, 0);
                },
                _ => {
                    lemma_operations_keep_wf(session.view, 0, 0, 0);
                },
            }
        },
        Input::Frame(cursor, size) => {
            match session.drag_anchor {
                Some(anchor) => {
                    lemma_operations_keep_wf(
                        session.view,
                        0,
                        cursor.x - anchor.x,
                        cursor.y - anchor.y,
                    );
                    lemma_operations_keep_wf(
                        session.view.pan(cursor.x - anchor.x, cursor.y - anchor.y),
                        0,
                        0,
                        0,
                    );
                },
                None => {
                    lemma_operations_keep_wf(session.view, 0, 0, 0);
                },
            }
        },
    }
}

/// After any sequence of events and frames, the zoom factor lies between
/// `ZOOM_MIN` and `ZOOM_MAX`.
pub proof fn lemma_run_keeps_wf(session: SessionModel, inputs: Seq<Input>)
    requires
        session.wf(),
    ensures
        session.run(inputs).wf(),
    decreases inputs.len(),
{
    if inputs.len() > 0 {
        lemma_run_keeps_wf(session, inputs.drop_last());
        lemma_step_keeps_wf(session.run(inputs.drop_last()), inputs.last());
    }
}

/// A frame damps the zoom velocity, and only a scroll or a reset changes it
/// otherwise: without them the velocity shrinks toward zero frame by frame.
pub proof fn lemma_velocity_decays(session: SessionModel, input: Input)
    ensures
        input matches Input::Frame(cursor, size) ==> session.step(input).view.zoom_velocity
            == damped(session.view.zoom_velocity),
        input matches Input::Event(event, cursor) ==> event !is Scroll && event != Event::Key(
            Key::R,
            Action::Press,
        ) ==> session.step(input).view.zoom_velocity == session.view.zoom_velocity,
{
}

/// Once the zoom factor is at its upper limit and the velocity is not
/// negative, it holds there through every run of inputs in which nothing
/// resets the view and nothing scrolls back; and likewise at the lower limit.
pub proof fn lemma_zoom_holds_through_run(session: SessionModel, inputs: Seq<Input>)
    requires
        session.wf(),
    ensures
        session.view.zoom == ZOOM_MAX && session.view.zoom_velocity >= 0 && (forall|i: int|
            0 <= i < inputs.len() ==> (#[trigger] inputs[i]).never_pushes(-1)) ==> session.run(
            inputs,
        ).view.zoom == ZOOM_MAX && session.run(inputs).view.zoom_velocity >= 0,
        session.view.zoom == ZOOM_MIN && session.view.zoom_velocity <= 0 && (forall|i: int|
            0 <= i < inputs.len() ==> (#[trigger] inputs[i]).never_pushes(1)) ==> session.run(
            inputs,
        ).view.zoom == ZOOM_MIN && session.run(inputs).view.zoom_velocity <= 0,
    decreases inputs.len(),
{
    if inputs.len() > 0 {
        let before = inputs.drop_last();
        let last = inputs.last();
        lemma_zoom_holds_through_run(session, before);
        lemma_run_keeps_wf(session, before);
        let reached = session.run(before);
        assert(forall|i: int| 0 <= i < before.len() ==> before[i] == inputs[i]);
        lemma_damped(reached.view.zoom_velocity);
        match last {
            Input::Event(Event::Scroll(delta), _) => {
                lemma_quotient_toward_zero_bounds(delta as int, 100);
            },
            _ => {},
        }
    }
}

/// A press of R puts the view back to what it was at launch, whatever it was
/// before, and a second press right after it changes nothing more.
pub proof fn lemma_reset(session: SessionModel, first: Point, second: Point)
    ensures
        session.on_event(Event::Key(Key::R, Action::Press), first).view == ViewModel::initial(),
        session.on_event(Event::Key(Key::R, Action::Press), first).drag_anchor
            == session.drag_anchor,
        session.on_event(Event::Key(Key::R, Action::Press), first).on_event(
            Event::Key(Key::R, Action::Press),
            second,
        ) == session.on_event(Event::Key(Key::R, Action::Press), first),
{
}

/// A press of the left button followed by its release leaves the view as it
/// was and no drag on. If a frame falls between the two and the cursor has
/// not moved, the origin is still where it was.
pub proof fn lemma_click_without_motion(session: SessionModel, cursor: Point, size: WindowSize)
    requires
        session.wf(),
    ensures
        ({
            let pressed = session.on_event(Event::Button(Button::Left, Action::Press), cursor);
            let released = pressed.on_event(Event::Button(Button::Left, Action::Release), cursor);
            &&& released.view == session.view
            &&& released.drag_anchor is None
            &&& pressed.drag(cursor, size).view == session.view
            &&& pressed.frame(cursor, size).view.origin_x == session.view.origin_x
            &&& pressed.frame(cursor, size).view.origin_y == session.view.origin_y
        }),
{
}

/// While a drag is on, a frame moves the origin by exactly what the cursor
/// moved since the last frame, and a cursor on an edge is sent to the
/// opposite edge. If the next frame finds the cursor where it was sent, the
/// origin does not move again: the jump across the window is not counted.
pub proof fn lemma_wrap_is_not_panned(
    session: SessionModel,
    anchor: Point,
    cursor: Point,
    size: WindowSize,
)
    requires
        session.wf(),
        size.wf(),
        session.drag_anchor == Some(anchor),
    ensures
        ({
            let first = session.frame(cursor, size);
            let second = first.frame(size.wrapped(cursor), size);
            &&& session.warp(cursor, size) == size.wrap_target(cursor)
            &&& first.drag_anchor == Some(size.wrapped(cursor))
            &&& first.view.origin_x == saturate(
                session.view.origin_x + (cursor.x - anchor.x),
            )
            &&& first.view.origin_y == saturate(
                session.view.origin_y + (cursor.y - anchor.y),
            )
            &&& second.view.origin_x == first.view.origin_x
            &&& second.view.origin_y == first.view.origin_y
            &&& cursor.x == 0 ==> session.warp(cursor, size) == Some(
                Point { x: (size.spec_width() - 1) as i32, y: cursor.y },
            )
        }),
{
    lemma_operations_keep_wf(session.view, 0, cursor.x - anchor.x, cursor.y - anchor.y);
}

} // verus!
