use anathema_frame::{BorderLayout, Constraints, Error, Plan, Size};
use std::cell::Cell;

fn plain_border() -> BorderLayout {
    BorderLayout {
        min_width: None,
        min_height: None,
        width: None,
        height: None,
        border_size: Size::new(2, 2),
    }
}

#[test]
fn tight_width_clamps_to_max() {
    let mut c = Constraints { min_width: 1, min_height: 2, max_width: 10, max_height: 20 };
    c.make_width_tight(15);
    assert_eq!(c, Constraints { min_width: 10, min_height: 2, max_width: 10, max_height: 20 });
    c.make_width_tight(4);
    assert_eq!(c, Constraints { min_width: 4, min_height: 2, max_width: 4, max_height: 20 });
}

#[test]
fn tight_height_clamps_to_max() {
    let mut c = Constraints { min_width: 1, min_height: 2, max_width: 10, max_height: 20 };
    c.make_height_tight(25);
    assert_eq!(c, Constraints { min_width: 1, min_height: 20, max_width: 10, max_height: 20 });
    c.make_height_tight(0);
    assert_eq!(c, Constraints { min_width: 1, min_height: 0, max_width: 10, max_height: 0 });
}

#[test]
fn tightening_is_idempotent_and_commutes() {
    let start = Constraints { min_width: 3, min_height: 1, max_width: 9, max_height: 7 };
    let mut once = start;
    once.make_width_tight(5);
    let mut twice = once;
    twice.make_width_tight(5);
    assert_eq!(once, twice);

    let mut width_first = start;
    width_first.make_width_tight(5);
    width_first.make_height_tight(6);
    let mut height_first = start;
    height_first.make_height_tight(6);
    height_first.make_width_tight(5);
    assert_eq!(width_first, height_first);
    assert_eq!(width_first, Constraints { min_width: 5, min_height: 6, max_width: 5, max_height: 6 });
}

#[test]
fn zero_constants() {
    assert_eq!(Size::zero(), Size { width: 0, height: 0 });
    assert_eq!(
        Constraints::zero(),
        Constraints { min_width: 0, min_height: 0, max_width: 0, max_height: 0 }
    );
    assert!(Constraints::zero().is_zero_window());
    assert!(!Constraints::new(0, 1).is_zero_window());
    assert!(!Constraints { min_width: 1, min_height: 0, max_width: 0, max_height: 0 }
        .is_zero_window());
    assert_eq!(Size::new(1, 2).grow(Size::new(3, 4)), Size::new(4, 6));
}

#[test]
fn border_adds_frame_to_child() {
    let mut border = plain_border();
    let seen = Cell::new(None);
    let size = border.layout(Constraints::new(10, 10), |c| {
        seen.set(Some(c));
        Ok(Size::new(5, 5))
    });
    assert_eq!(size, Ok(Size::new(7, 7)));
    assert_eq!(seen.get(), Some(Constraints { min_width: 0, min_height: 0, max_width: 8, max_height: 8 }));
}

#[test]
fn border_without_space_fails_before_child() {
    let mut border = plain_border();
    let called = Cell::new(false);
    let size = border.layout(Constraints::new(1, 1), |_| {
        called.set(true);
        Ok(Size::new(5, 5))
    });
    assert_eq!(size, Err(Error::InsufficientSpace));
    assert!(!called.get());
    assert_eq!(border.plan(Constraints::new(1, 1)), Plan::Fail(Error::InsufficientSpace));
}

#[test]
fn zero_constraints_skip_child() {
    let mut border = plain_border();
    let called = Cell::new(false);
    let size = border.layout(Constraints::zero(), |_| {
        called.set(true);
        Ok(Size::new(5, 5))
    });
    assert_eq!(size, Ok(Size::zero()));
    assert!(!called.get());
    assert_eq!(border.plan(Constraints::zero()), Plan::Empty);
    assert_eq!(border.complete(Constraints::zero(), Err(Error::InsufficientSpace)), Ok(Size::zero()));
}

#[test]
fn fixed_zero_size_is_a_zero_window() {
    let border = BorderLayout { width: Some(0), height: Some(0), ..plain_border() };
    assert_eq!(border.adjust(Constraints::new(10, 10)), Constraints::zero());
    assert_eq!(border.plan(Constraints::new(10, 10)), Plan::Empty);
}

#[test]
fn zero_incoming_with_minimum_is_not_a_zero_window() {
    let border = BorderLayout { min_width: Some(1), ..plain_border() };
    assert_eq!(border.plan(Constraints::zero()), Plan::Fail(Error::InsufficientSpace));
}

#[test]
fn frame_wider_than_max_fails() {
    let border = plain_border();
    assert_eq!(border.child_constraints(Constraints::new(1, 10)), Err(Error::InsufficientSpace));
    assert_eq!(border.child_constraints(Constraints::new(10, 1)), Err(Error::InsufficientSpace));
}

#[test]
fn frame_that_leaves_nothing_fails() {
    let border = plain_border();
    assert_eq!(border.child_constraints(Constraints::new(2, 10)), Err(Error::InsufficientSpace));
    assert_eq!(border.child_constraints(Constraints::new(10, 2)), Err(Error::InsufficientSpace));
    assert_eq!(
        border.child_constraints(Constraints::new(3, 3)),
        Ok(Constraints { min_width: 0, min_height: 0, max_width: 1, max_height: 1 })
    );
    let frameless = BorderLayout { border_size: Size::zero(), ..plain_border() };
    assert_eq!(frameless.plan(Constraints::new(0, 5)), Plan::Fail(Error::InsufficientSpace));
}

#[test]
fn child_minimum_is_clamped_to_what_is_left() {
    let border = plain_border();
    let window = Constraints { min_width: 9, min_height: 3, max_width: 10, max_height: 10 };
    assert_eq!(
        border.child_constraints(window),
        Ok(Constraints { min_width: 8, min_height: 3, max_width: 8, max_height: 8 })
    );
}

#[test]
fn adjust_raises_minimums_then_tightens() {
    let border = BorderLayout {
        min_width: Some(4),
        min_height: Some(1),
        width: None,
        height: Some(30),
        border_size: Size::new(2, 2),
    };
    let incoming = Constraints { min_width: 2, min_height: 3, max_width: 10, max_height: 20 };
    assert_eq!(
        border.adjust(incoming),
        Constraints { min_width: 4, min_height: 20, max_width: 10, max_height: 20 }
    );
    let fixed = BorderLayout { width: Some(6), min_width: Some(8), ..plain_border() };
    assert_eq!(
        fixed.adjust(Constraints::new(10, 10)),
        Constraints { min_width: 6, min_height: 0, max_width: 6, max_height: 10 }
    );
}

#[test]
fn result_is_raised_to_minimums() {
    let mut border = BorderLayout { min_width: Some(12), ..plain_border() };
    let incoming = Constraints { min_width: 0, min_height: 9, max_width: 20, max_height: 20 };
    assert_eq!(border.layout(incoming, |_| Ok(Size::new(5, 5))), Ok(Size::new(12, 9)));
    assert_eq!(border.frame(Size::new(5, 5)), Size::new(12, 7));
    assert_eq!(BorderLayout::settle(Size::new(12, 7), incoming), Size::new(12, 9));
    let mut fixed = BorderLayout { width: Some(10), ..plain_border() };
    assert_eq!(fixed.layout(Constraints::new(20, 20), |_| Ok(Size::new(3, 3))), Ok(Size::new(5, 5)));
}

#[test]
fn incoming_minimums_win_last() {
    let mut fixed = BorderLayout { width: Some(3), border_size: Size::new(1, 1), ..plain_border() };
    let incoming = Constraints { min_width: 5, min_height: 0, max_width: 10, max_height: 10 };
    assert_eq!(
        fixed.adjust(incoming),
        Constraints { min_width: 3, min_height: 0, max_width: 3, max_height: 10 }
    );
    assert_eq!(fixed.complete(incoming, Ok(Size::new(2, 1))), Ok(Size::new(5, 2)));
    assert_eq!(fixed.layout(incoming, |_| Ok(Size::new(2, 1))), Ok(Size::new(5, 2)));
}

#[test]
fn child_that_is_not_laid_out_may_answer_anything() {
    let border = plain_border();
    let huge = Ok(Size::new(usize::MAX, usize::MAX));
    assert_eq!(border.complete(Constraints::zero(), huge), Ok(Size::zero()));
    assert_eq!(border.complete(Constraints::new(1, 1), huge), Err(Error::InsufficientSpace));
}

#[test]
fn child_failure_is_passed_on() {
    let mut border = plain_border();
    let size = border.layout(Constraints::new(10, 10), |_| Err(Error::InsufficientSpace));
    assert_eq!(size, Err(Error::InsufficientSpace));
    assert_eq!(
        border.complete(Constraints::new(10, 10), Err(Error::InsufficientSpace)),
        Err(Error::InsufficientSpace)
    );
}

#[test]
fn child_is_laid_out_once() {
    let mut border = plain_border();
    let calls = Cell::new(0);
    let _ = border.layout(Constraints::new(10, 10), |_| {
        calls.set(calls.get() + 1);
        Ok(Size::new(1, 1))
    });
    assert_eq!(calls.get(), 1);
}

#[test]
fn layout_twice_gives_the_same_size() {
    let mut border = BorderLayout { min_height: Some(4), ..plain_border() };
    let before = border;
    let first = border.layout(Constraints::new(10, 10), |_| Ok(Size::new(5, 1)));
    let second = border.layout(Constraints::new(10, 10), |_| Ok(Size::new(5, 1)));
    assert_eq!(first, Ok(Size::new(7, 4)));
    assert_eq!(first, second);
    assert_eq!(border, before);
    assert_eq!(border.complete(Constraints::new(10, 10), Ok(Size::new(5, 1))), first);
}
