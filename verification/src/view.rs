//! The view: pan origin, zoom and zoom velocity, and the visible rectangle
//! that they select.
//!
//! Zoom and zoom velocity are fixed-point scalars (see [`crate::fixed`]); the
//! origin is a whole number of display pixels. The visible rectangle is given
//! by exact fractions, so nothing is rounded before the caller builds its
//! projection from it.

use crate::fixed::{
    clamp, divide_toward_zero, lemma_quotient_toward_zero_bounds, magnitude,
    quotient_toward_zero, saturate, saturating_sum, ONE,
};
use crate::geometry::WindowSize;
use vstd::prelude::*;

verus! {

/// The smallest zoom factor, `0.01`.
pub const ZOOM_MIN: i64 = 10_000_000;

/// The largest zoom factor, `100`.
pub const ZOOM_MAX: i64 = 100_000_000_000;

/// Each frame keeps `DAMPING_NUMERATOR / DAMPING_DENOMINATOR` of the zoom
/// velocity, that is `0.95` of it.
pub const DAMPING_NUMERATOR: i64 = 19;

pub const DAMPING_DENOMINATOR: i64 = 20;

/// A scroll delta adds `1 / SCROLL_DIVISOR` of itself to the zoom velocity,
/// that is `0.01` of it.
pub const SCROLL_DIVISOR: i64 = 100;

/// What is left of a zoom velocity after one frame of damping.
pub open spec fn damped(velocity: int) -> int {
    quotient_toward_zero(velocity * DAMPING_NUMERATOR, DAMPING_DENOMINATOR as int)
}

/// What a scroll delta adds to the zoom velocity.
pub open spec fn scroll_impulse(delta: int) -> int {
    quotient_toward_zero(delta, SCROLL_DIVISOR as int)
}

/// The mathematical content of a [`ViewState`].
pub struct ViewModel {
    /// Horizontal pan offset in display pixels.
    pub origin_x: int,
    /// Vertical pan offset in display pixels, growing downward.
    pub origin_y: int,
    /// Zoom factor, fixed-point.
    pub zoom: int,
    /// Change of the zoom factor per frame, fixed-point.
    pub zoom_velocity: int,
}

impl ViewModel {
    /// The zoom factor lies between `ZOOM_MIN` and `ZOOM_MAX`, and the other
    /// components are representable.
    pub open spec fn wf(self) -> bool {
        &&& ZOOM_MIN <= self.zoom <= ZOOM_MAX
        &&& i64::MIN <= self.zoom_velocity <= i64::MAX
        &&& i64::MIN <= self.origin_x <= i64::MAX
        &&& i64::MIN <= self.origin_y <= i64::MAX
    }

    /// The view at launch: no pan, zoom factor one, at rest.
    pub open spec fn initial() -> ViewModel {
        ViewModel { origin_x: 0, origin_y: 0, zoom: ONE as int, zoom_velocity: 0 }
    }

    /// The view after a reset: the view at launch, whatever it was before.
    pub open spec fn reset(self) -> ViewModel {
        ViewModel::initial()
    }

    /// The view after a scroll of `delta`.
    pub open spec fn scroll(self, delta: int) -> ViewModel {
        ViewModel {
            zoom_velocity: saturate(self.zoom_velocity + scroll_impulse(delta)),
            ..self
        }
    }

    /// The view after the cursor has dragged it by `(dx, dy)` pixels.
    pub open spec fn pan(self, dx: int, dy: int) -> ViewModel {
        ViewModel {
            origin_x: saturate(self.origin_x + dx),
            origin_y: saturate(self.origin_y + dy),
            ..self
        }
    }

    /// The view after one frame of zoom integration: the velocity is added to
    /// the zoom factor, which stays within its limits, and then damped.
    pub open spec fn integrate(self) -> ViewModel {
        ViewModel {
            zoom: clamp(self.zoom + self.zoom_velocity, ZOOM_MIN as int, ZOOM_MAX as int),
            zoom_velocity: damped(self.zoom_velocity),
            ..self
        }
    }

    /// The view after `frames` frames of zoom integration.
    pub open spec fn integrate_n(self, frames: nat) -> ViewModel
        decreases frames,
    {
        if frames == 0 {
            self
        } else {
            self.integrate().integrate_n((frames - 1) as nat)
        }
    }

    /// The rectangle of the image that a window of `width` by `height`
    /// pixels shows.
    ///
    /// With `cx = width / 2`, `cy = height / 2`, zoom factor `z` and origin
    /// `(ox, oy)`, the rectangle is
    /// `left = cx - cx / z - ox / z`, `right = cx + cx / z - ox / z`,
    /// `bottom = cy - cy / z + oy / z`, `top = cy + cy / z + oy / z`.
    /// Brought over the common denominator `2 * zoom`, where `zoom` is the raw
    /// value `z * ONE`, the four sides are the numerators given here.
    pub open spec fn bounds(self, width: int, height: int) -> BoundsModel {
        BoundsModel {
            left: width * self.zoom - (width + 2 * self.origin_x) * ONE,
            right: width * self.zoom + (width - 2 * self.origin_x) * ONE,
            bottom: height * self.zoom - (height - 2 * self.origin_y) * ONE,
            top: height * self.zoom + (height + 2 * self.origin_y) * ONE,
            denominator: 2 * self.zoom,
        }
    }
}

/// The mathematical content of a [`ViewBounds`]: four numerators over one
/// denominator.
pub struct BoundsModel {
    pub left: int,
    pub right: int,
    pub bottom: int,
    pub top: int,
    pub denominator: int,
}

/// The visible rectangle of the image, in image pixels with `y` growing
/// upward. Each side is the fraction of its field over `denominator`, which is
/// positive.
#[derive(Clone, Copy, Debug, PartialEq, Eq)]
pub struct ViewBounds {
    pub left: i128,
    pub right: i128,
    pub bottom: i128,
    pub top: i128,
    pub denominator: i128,
}

impl View for ViewBounds {
    type V = BoundsModel;

    open spec fn view(&self) -> BoundsModel {
        BoundsModel {
            left: self.left as int,
            right: self.right as int,
            bottom: self.bottom as int,
            top: self.top as int,
            denominator: self.denominator as int,
        }
    }
}

/// The pan origin in display pixels; `y` grows downward.
#[derive(Clone, Copy, Debug, PartialEq, Eq, Structural)]
pub struct Origin {
    pub x: i64,
    pub y: i64,
}

/// Pan origin, zoom factor and zoom velocity of the view.
#[derive(Clone, Copy, Debug, PartialEq, Eq)]
pub struct ViewState {
    origin_x: i64,
    origin_y: i64,
    zoom: i64,
    zoom_velocity: i64,
}

impl View for ViewState {
    type V = ViewModel;

    closed spec fn view(&self) -> ViewModel {
        ViewModel {
            origin_x: self.origin_x as int,
            origin_y: self.origin_y as int,
            zoom: self.zoom as int,
            zoom_velocity: self.zoom_velocity as int,
        }
    }
}

/// What is left of a zoom velocity after one frame of damping.
fn damp(velocity: i64) -> (rest: i64)
    ensures
        rest == damped(velocity as int),
    no_unwind
{
    let numerator: i128 = DAMPING_NUMERATOR as i128;
    let denominator: i128 = DAMPING_DENOMINATOR as i128;
    assert(numerator == 19 && denominator == 20);
    let wide: i128 = velocity as i128 * numerator;
    divide_toward_zero(wide, denominator) as i64
}

impl ViewState {
    #[verifier::type_invariant]
    spec fn inv(self) -> bool {
        ZOOM_MIN <= self.zoom <= ZOOM_MAX
    }

    /// The view at launch.
    pub fn new() -> (state: ViewState)
        ensures
            state@ == ViewModel::initial(),
            state@.wf(),
        no_unwind
    {
        ViewState { origin_x: 0, origin_y: 0, zoom: ONE, zoom_velocity: 0 }
    }

    /// Puts the view back to what it was at launch.
    pub fn reset(&mut self)
        ensures
            final(self)@ == old(self)@.reset(),
            final(self)@ == ViewModel::initial(),
            final(self)@.wf(),
        no_unwind
    {
        *self = ViewState::new();
    }

    /// Takes in a scroll of `delta`, a fixed-point number of scroll steps: a
    /// hundredth of it, rounded toward zero, is added to the zoom velocity,
    /// which stops at the ends of the representable range.
    pub fn scroll(&mut self, delta: i64)
        ensures
            final(self)@ == old(self)@.scroll(delta as int),
            final(self)@.wf(),
        no_unwind
    {
        proof {
            use_type_invariant(&*self);
        }
        let impulse: i128 = divide_toward_zero(delta as i128, SCROLL_DIVISOR as i128);
        self.zoom_velocity = saturating_sum(self.zoom_velocity, impulse as i64);
    }

    /// Moves the origin by `(dx, dy)` pixels. Each coordinate stops at the
    /// ends of the representable range.
    pub fn pan(&mut self, dx: i64, dy: i64)
        ensures
            final(self)@ == old(self)@.pan(dx as int, dy as int),
            final(self)@.wf(),
        no_unwind
    {
        proof {
            use_type_invariant(&*self);
        }
        self.origin_x = saturating_sum(self.origin_x, dx);
        self.origin_y = saturating_sum(self.origin_y, dy);
    }

    /// One frame of zoom integration: the velocity is added to the zoom
    /// factor, which stays within its limits, and then damped.
    pub fn integrate(&mut self)
        ensures
            final(self)@ == old(self)@.integrate(),
            final(self)@.wf(),
        no_unwind
    {
        proof {
            use_type_invariant(&*self);
        }
        let velocity: i64 = self.zoom_velocity;
        let zoom: i64 = self.zoom;
        let next: i64 = if velocity > ZOOM_MAX - zoom {
            ZOOM_MAX
        } else if velocity < ZOOM_MIN - zoom {
            ZOOM_MIN
        } else {
            zoom + velocity
        };
        self.zoom = next;
        self.zoom_velocity = damp(velocity);
    }

    /// The visible rectangle in a window of the given size, as exact
    /// fractions over a positive denominator.
    pub fn bounds(&self, size: WindowSize) -> (bounds: ViewBounds)
        ensures
            bounds@ == self@.bounds(size.spec_width() as int, size.spec_height() as int),
            bounds@.denominator > 0,
        no_unwind
    {
        proof {
            use_type_invariant(self);
        }
        let width: i128 = size.width() as i128;
        let height: i128 = size.height() as i128;
        let zoom: i128 = self.zoom as i128;
        let one: i128 = ONE as i128;
        let ox: i128 = 2 * (self.origin_x as i128);
        let oy: i128 = 2 * (self.origin_y as i128);
        assert(0 < width * zoom <= 0x7fff_ffff * 100_000_000_000) by (nonlinear_arith)
            requires
                0 < width <= 0x7fff_ffff,
                0 < zoom <= 100_000_000_000,
        ;
        assert(0 < height * zoom <= 0x7fff_ffff * 100_000_000_000) by (nonlinear_arith)
            requires
                0 < height <= 0x7fff_ffff,
                0 < zoom <= 100_000_000_000,
        ;
        ViewBounds {
            left: width * zoom - (width + ox) * one,
            right: width * zoom + (width - ox) * one,
            bottom: height * zoom - (height - oy) * one,
            top: height * zoom + (height + oy) * one,
            denominator: 2 * zoom,
        }
    }

    /// The pan origin.
    pub fn origin(&self) -> (origin: Origin)
        ensures
            origin.x == self@.origin_x,
            origin.y == self@.origin_y,
        no_unwind
    {
        Origin { x: self.origin_x, y: self.origin_y }
    }

    /// The zoom factor, fixed-point.
    pub fn zoom(&self) -> (zoom: i64)
        ensures
            zoom == self@.zoom,
            ZOOM_MIN <= zoom <= ZOOM_MAX,
            self@.wf(),
        no_unwind
    {
        proof {
            use_type_invariant(self);
        }
        self.zoom
    }

    /// The zoom velocity, fixed-point.
    pub fn zoom_velocity(&self) -> (velocity: i64)
        ensures
            velocity == self@.zoom_velocity,
        no_unwind
    {
        self.zoom_velocity
    }
}

/// Every operation on a view keeps the zoom factor within its limits and the
/// other components representable.
pub proof fn lemma_operations_keep_wf(view: ViewModel, delta: int, dx: int, dy: int)
    requires
        view.wf(),
    ensures
        ViewModel::initial().wf(),
        view.scroll(delta).wf(),
        view.pan(dx, dy).wf(),
        view.integrate().wf(),
{
    lemma_damped(view.zoom_velocity);
}

/// Damping shrinks a velocity toward zero and never past it: the rest has the
/// sign of the velocity, its magnitude is `0.95` of the magnitude of the
/// velocity, rounded down to a whole raw unit, and so it is smaller than
/// before unless the velocity was zero already.
pub proof fn lemma_damped(velocity: int)
    ensures
        velocity >= 0 ==> damped(velocity) >= 0,
        velocity <= 0 ==> damped(velocity) <= 0,
        DAMPING_DENOMINATOR * magnitude(damped(velocity)) <= DAMPING_NUMERATOR * magnitude(
            velocity,
        ),
        DAMPING_NUMERATOR * magnitude(velocity) < DAMPING_DENOMINATOR * magnitude(
            damped(velocity),
        ) + DAMPING_DENOMINATOR,
        velocity % (DAMPING_DENOMINATOR as int) == 0 ==> DAMPING_DENOMINATOR * damped(velocity)
            == DAMPING_NUMERATOR * velocity,
        velocity != 0 ==> magnitude(damped(velocity)) < magnitude(velocity),
        velocity == 0 ==> damped(velocity) == 0,
{
    lemma_quotient_toward_zero_bounds(velocity * 19, 20);
    if velocity % 20 == 0 {
        assert((velocity * 19) % 20 == 0) by (nonlinear_arith)
            requires
                velocity % 20 == 0,
        ;
    }
}

/// At zoom factor one and with no pan, the visible rectangle is the window
/// itself: left and bottom are `0`, right is the width and top the height.
pub proof fn lemma_initial_bounds_are_window(width: int, height: int)
    ensures
        ({
            let bounds = ViewModel::initial().bounds(width, height);
            &&& bounds.denominator > 0
            &&& bounds.left == 0
            &&& bounds.bottom == 0
            &&& bounds.right == width * bounds.denominator
            &&& bounds.top == height * bounds.denominator
        }),
{
    let one = ONE as int;
    assert(width * one + (width - 2 * 0) * one == width * (2 * one)) by (nonlinear_arith);
    assert(height * one + (height + 2 * 0) * one == height * (2 * one)) by (nonlinear_arith);
    assert(width * one - (width + 2 * 0) * one == 0) by (nonlinear_arith);
    assert(height * one - (height - 2 * 0) * one == 0) by (nonlinear_arith);
}

/// Zooming scales the visible rectangle about the middle of the window and
/// panning moves it: its width is the window width over the zoom factor, its
/// height the window height over the zoom factor, and its middle lies at
/// `(width / 2 - origin_x / z, height / 2 + origin_y / z)`.
pub proof fn lemma_bounds_extent(view: ViewModel, width: int, height: int)
    requires
        view.wf(),
        width > 0,
        height > 0,
    ensures
        ({
            let bounds = view.bounds(width, height);
            &&& bounds.denominator > 0
            &&& bounds.left < bounds.right
            &&& bounds.bottom < bounds.top
            &&& bounds.right - bounds.left == 2 * width * ONE
            &&& bounds.top - bounds.bottom == 2 * height * ONE
            &&& bounds.left + bounds.right == 2 * (width * view.zoom - 2 * view.origin_x * ONE)
            &&& bounds.bottom + bounds.top == 2 * (height * view.zoom + 2 * view.origin_y * ONE)
        }),
{
}

/// A zoom factor at its upper limit stays there for as long as the velocity
/// is not negative, and one at its lower limit for as long as the velocity is
/// not positive; the velocity keeps its sign all the while.
pub proof fn lemma_zoom_holds_at_limit(view: ViewModel, frames: nat)
    requires
        view.wf(),
    ensures
        view.zoom == ZOOM_MAX && view.zoom_velocity >= 0 ==> view.integrate_n(frames).zoom
            == ZOOM_MAX && view.integrate_n(frames).zoom_velocity >= 0,
        view.zoom == ZOOM_MIN && view.zoom_velocity <= 0 ==> view.integrate_n(frames).zoom
            == ZOOM_MIN && view.integrate_n(frames).zoom_velocity <= 0,
    decreases frames,
{
    if frames > 0 {
        lemma_damped(view.zoom_velocity);
        lemma_zoom_holds_at_limit(view.integrate(), (frames - 1) as nat);
    }
}

/// A velocity that carries the zoom factor to or past a limit leaves it
/// exactly at that limit, and from then on it holds there.
pub proof fn lemma_zoom_saturates(view: ViewModel, frames: nat)
    requires
        view.wf(),
        frames > 0,
    ensures
        view.zoom + view.zoom_velocity >= ZOOM_MAX ==> view.integrate_n(frames).zoom
            == ZOOM_MAX,
        view.zoom + view.zoom_velocity <= ZOOM_MIN ==> view.integrate_n(frames).zoom
            == ZOOM_MIN,
{
    lemma_damped(view.zoom_velocity);
    lemma_zoom_holds_at_limit(view.integrate(), (frames - 1) as nat);
}

/// However many frames pass, the view stays well-formed, the origin stays
/// where it is, and the velocity never grows in magnitude nor changes sign.
pub proof fn lemma_integrate_n(view: ViewModel, frames: nat)
    requires
        view.wf(),
    ensures
        view.integrate_n(frames).wf(),
        view.integrate_n(frames).origin_x == view.origin_x,
        view.integrate_n(frames).origin_y == view.origin_y,
        magnitude(view.integrate_n(frames).zoom_velocity) <= magnitude(view.zoom_velocity),
        view.zoom_velocity >= 0 ==> view.integrate_n(frames).zoom_velocity >= 0,
        view.zoom_velocity <= 0 ==> view.integrate_n(frames).zoom_velocity <= 0,
    decreases frames,
{
    if frames > 0 {
        lemma_damped(view.zoom_velocity);
        lemma_integrate_n(view.integrate(), (frames - 1) as nat);
    }
}

/// Resetting twice is the same as resetting once, whatever came before.
pub proof fn lemma_reset_idempotent(view: ViewModel)
    ensures
        view.reset().reset() == view.reset(),
        view.reset() == ViewModel::initial(),
{
}

} // verus!
