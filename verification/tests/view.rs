use screen_zoom::fixed::{saturating_sum, ONE};
use screen_zoom::geometry::WindowSize;
use screen_zoom::view::{
    Origin, ViewState, DAMPING_DENOMINATOR, DAMPING_NUMERATOR, SCROLL_DIVISOR, ZOOM_MAX, ZOOM_MIN,
};

fn as_real(raw: i64) -> f64 {
    raw as f64 / ONE as f64
}

fn full_hd() -> WindowSize {
    WindowSize::new(1920, 1080).unwrap()
}

#[test]
fn constants_stand_for_their_decimal_values() {
    assert_eq!(as_real(ONE), 1.0);
    assert_eq!(as_real(ZOOM_MIN), 0.01);
    assert_eq!(as_real(ZOOM_MAX), 100.0);
    assert_eq!(DAMPING_NUMERATOR as f64 / DAMPING_DENOMINATOR as f64, 0.95);
    assert_eq!(1.0 / SCROLL_DIVISOR as f64, 0.01);
}

#[test]
fn saturating_sum_is_exact_inside_the_range() {
    assert_eq!(saturating_sum(2, 3), 5);
    assert_eq!(saturating_sum(-2, 3), 1);
    assert_eq!(saturating_sum(i64::MAX, 0), i64::MAX);
    assert_eq!(saturating_sum(i64::MIN, i64::MAX), -1);
}

#[test]
fn saturating_sum_stops_at_the_ends() {
    assert_eq!(saturating_sum(i64::MAX, 1), i64::MAX);
    assert_eq!(saturating_sum(i64::MAX, i64::MAX), i64::MAX);
    assert_eq!(saturating_sum(i64::MIN, -1), i64::MIN);
    assert_eq!(saturating_sum(i64::MIN, i64::MIN), i64::MIN);
}

#[test]
fn view_starts_unpanned_at_zoom_one() {
    let view = ViewState::new();
    assert_eq!(view.origin(), Origin { x: 0, y: 0 });
    assert_eq!(view.zoom(), ONE);
    assert_eq!(view.zoom_velocity(), 0);
}

#[test]
fn scroll_adds_a_hundredth_of_the_delta() {
    let mut view = ViewState::new();
    view.scroll(10 * ONE);
    assert_eq!(view.zoom_velocity(), ONE / 10);
    view.scroll(10 * ONE);
    assert_eq!(view.zoom_velocity(), ONE / 5);
    view.scroll(-30 * ONE);
    assert_eq!(view.zoom_velocity(), -ONE / 10);
    assert_eq!(view.zoom(), ONE);
}

#[test]
fn scroll_rounds_toward_zero() {
    let mut view = ViewState::new();
    view.scroll(250);
    assert_eq!(view.zoom_velocity(), 2);
    view.scroll(-499);
    assert_eq!(view.zoom_velocity(), -2);
    view.scroll(99);
    assert_eq!(view.zoom_velocity(), -2);
    view.scroll(-99);
    assert_eq!(view.zoom_velocity(), -2);
}

#[test]
fn scroll_saturates_the_velocity() {
    let mut view = ViewState::new();
    for _ in 0..200 {
        view.scroll(i64::MAX);
    }
    assert_eq!(view.zoom_velocity(), i64::MAX);
    for _ in 0..400 {
        view.scroll(i64::MIN);
    }
    assert_eq!(view.zoom_velocity(), i64::MIN);
}

#[test]
fn integrate_adds_then_damps() {
    let mut view = ViewState::new();
    view.scroll(100 * ONE);
    view.integrate();
    assert_eq!(view.zoom(), 2 * ONE);
    assert_eq!(view.zoom_velocity(), ONE / 100 * 95);
    view.integrate();
    assert_eq!(view.zoom(), 2 * ONE + ONE / 100 * 95);
    assert_eq!(view.zoom_velocity(), 902_500_000);
}

#[test]
fn damping_rounds_toward_zero() {
    for (before, after) in [(100i64, 95i64), (20, 19), (19, 18), (2, 1), (1, 0), (0, 0)] {
        let mut view = ViewState::new();
        view.scroll(before * SCROLL_DIVISOR);
        assert_eq!(view.zoom_velocity(), before);
        view.integrate();
        assert_eq!(view.zoom_velocity(), after);

        let mut view = ViewState::new();
        view.scroll(-before * SCROLL_DIVISOR);
        view.integrate();
        assert_eq!(view.zoom_velocity(), -after);
    }
}

#[test]
fn damping_of_extreme_velocities() {
    let mut view = ViewState::new();
    for _ in 0..200 {
        view.scroll(i64::MAX);
    }
    view.integrate();
    assert_eq!(view.zoom(), ZOOM_MAX);
    assert_eq!(view.zoom_velocity(), (i64::MAX as i128 * 19 / 20) as i64);
    let mut view = ViewState::new();
    for _ in 0..200 {
        view.scroll(i64::MIN);
    }
    view.integrate();
    assert_eq!(view.zoom(), ZOOM_MIN);
    assert_eq!(view.zoom_velocity(), (i64::MIN as i128 * 19 / 20) as i64);
}

#[test]
fn velocity_decays_to_rest() {
    let mut view = ViewState::new();
    view.scroll(ONE);
    let mut last = view.zoom_velocity();
    let mut frames = 0;
    while view.zoom_velocity() != 0 {
        view.integrate();
        assert!(view.zoom_velocity() < last);
        assert!(view.zoom_velocity() >= 0);
        assert!(20 * view.zoom_velocity() <= 19 * last);
        assert!(19 * last < 20 * view.zoom_velocity() + 20);
        last = view.zoom_velocity();
        frames += 1;
        assert!(frames < 1000);
    }
    let rest = view.zoom();
    view.integrate();
    assert_eq!(view.zoom(), rest);
}

#[test]
fn zoom_stays_within_its_limits() {
    let deltas = [1000i64, -3000, 17, 250_000, -250_000, i64::MAX, i64::MIN, 0, 5, -5];
    let mut view = ViewState::new();
    for round in 0..50 {
        for delta in deltas {
            view.scroll(delta.saturating_mul(ONE / (round + 1)));
            for _ in 0..(round % 7) {
                view.integrate();
                assert!(ZOOM_MIN <= view.zoom() && view.zoom() <= ZOOM_MAX);
            }
        }
    }
}

#[test]
fn zoom_saturates_at_the_upper_limit_and_holds() {
    let mut view = ViewState::new();
    view.scroll(100_000 * ONE);
    view.integrate();
    assert_eq!(view.zoom(), ZOOM_MAX);
    for _ in 0..2000 {
        view.integrate();
        assert_eq!(view.zoom(), ZOOM_MAX);
        assert!(view.zoom_velocity() >= 0);
    }
    assert_eq!(view.zoom_velocity(), 0);
}

#[test]
fn zoom_saturates_at_the_lower_limit_and_holds() {
    let mut view = ViewState::new();
    view.scroll(-100_000 * ONE);
    view.integrate();
    assert_eq!(view.zoom(), ZOOM_MIN);
    for _ in 0..2000 {
        view.integrate();
        assert_eq!(view.zoom(), ZOOM_MIN);
        assert!(view.zoom_velocity() <= 0);
    }
    assert_eq!(view.zoom_velocity(), 0);
}

#[test]
fn zoom_reaches_a_limit_exactly() {
    let mut view = ViewState::new();
    view.scroll(99 * 100 * ONE);
    view.integrate();
    assert_eq!(view.zoom(), ZOOM_MAX);
    let mut view = ViewState::new();
    view.scroll(-99 * ONE);
    view.integrate();
    assert_eq!(view.zoom(), ZOOM_MIN);
}

#[test]
fn pan_moves_the_origin() {
    let mut view = ViewState::new();
    view.pan(100, 50);
    assert_eq!(view.origin(), Origin { x: 100, y: 50 });
    view.pan(-130, -20);
    assert_eq!(view.origin(), Origin { x: -30, y: 30 });
    view.pan(0, 0);
    assert_eq!(view.origin(), Origin { x: -30, y: 30 });
    assert_eq!(view.zoom(), ONE);
    assert_eq!(view.zoom_velocity(), 0);
}

#[test]
fn pan_saturates_the_origin() {
    let mut view = ViewState::new();
    view.pan(i64::MAX, i64::MIN);
    view.pan(1, -1);
    assert_eq!(view.origin(), Origin { x: i64::MAX, y: i64::MIN });
    view.pan(-1, 1);
    assert_eq!(view.origin(), Origin { x: i64::MAX - 1, y: i64::MIN + 1 });
}

#[test]
fn reset_restores_the_launch_view() {
    let mut view = ViewState::new();
    view.pan(12, -7);
    view.scroll(300 * ONE);
    view.integrate();
    view.reset();
    assert_eq!(view, ViewState::new());
}

#[test]
fn reset_twice_is_reset_once() {
    let mut once = ViewState::new();
    once.pan(1, 2);
    once.scroll(-ONE);
    let mut twice = once;
    once.reset();
    twice.reset();
    twice.reset();
    assert_eq!(once, twice);
}

#[test]
fn bounds_at_launch_are_the_window() {
    let bounds = ViewState::new().bounds(full_hd());
    assert!(bounds.denominator > 0);
    assert_eq!(bounds.left, 0);
    assert_eq!(bounds.bottom, 0);
    assert_eq!(bounds.right, 1920 * bounds.denominator);
    assert_eq!(bounds.top, 1080 * bounds.denominator);
}

#[test]
fn bounds_follow_the_projection_formula() {
    let mut view = ViewState::new();
    view.scroll(100 * ONE);
    view.integrate();
    view.pan(100, 50);
    assert_eq!(view.zoom(), 2 * ONE);
    let bounds = view.bounds(full_hd());
    assert_eq!(bounds.denominator, 4 * ONE as i128);
    assert_eq!(bounds.left, 430 * bounds.denominator);
    assert_eq!(bounds.right, 1390 * bounds.denominator);
    assert_eq!(bounds.bottom, 295 * bounds.denominator);
    assert_eq!(bounds.top, 835 * bounds.denominator);
}

#[test]
fn bounds_agree_with_floating_point() {
    let mut view = ViewState::new();
    view.scroll(37 * ONE);
    for _ in 0..9 {
        view.integrate();
    }
    view.pan(-321, 123);
    let z = as_real(view.zoom());
    let (ox, oy) = (-321.0, 123.0);
    let (cx, cy) = (1920.0 / 2.0, 1080.0 / 2.0);
    let bounds = view.bounds(full_hd());
    let side = |numerator: i128| numerator as f64 / bounds.denominator as f64;
    assert!((side(bounds.left) - (cx - cx / z - ox / z)).abs() < 1e-9);
    assert!((side(bounds.right) - (cx + cx / z - ox / z)).abs() < 1e-9);
    assert!((side(bounds.bottom) - (cy - cy / z + oy / z)).abs() < 1e-9);
    assert!((side(bounds.top) - (cy + cy / z + oy / z)).abs() < 1e-9);
}

#[test]
fn bounds_at_the_extremes() {
    let size = WindowSize::new(i32::MAX, i32::MAX).unwrap();
    let mut view = ViewState::new();
    view.pan(i64::MAX, i64::MIN);
    view.scroll(i64::MAX);
    view.integrate();
    let bounds = view.bounds(size);
    assert_eq!(bounds.denominator, 2 * ZOOM_MAX as i128);
    assert_eq!(bounds.right - bounds.left, 2 * i32::MAX as i128 * ONE as i128);
    assert_eq!(bounds.top - bounds.bottom, 2 * i32::MAX as i128 * ONE as i128);
    view.scroll(i64::MIN);
    view.scroll(i64::MIN);
    view.integrate();
    let bounds = view.bounds(size);
    assert_eq!(bounds.denominator, 2 * ZOOM_MIN as i128);
    assert!(bounds.left < bounds.right && bounds.bottom < bounds.top);
}
