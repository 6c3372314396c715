use mylauncher::app::{startup_plan, App, StartupPlan};
use mylauncher::geom::{Point, Rect, UiMetrics};

fn metrics() -> UiMetrics {
    UiMetrics { margin_x: 12, margin_y: 8, padding_y: 6, ui_font_size: 24 }
}

#[test]
fn status_bar_sits_one_margin_in() {
    let app = App::new(Rect::new(0, 0, 640, 480), metrics());
    assert_eq!(app.status_bar_point(), Point::new(628, 8));
    assert_eq!(app.bounding_box(), Rect::new(0, 0, 640, 480));
}

#[test]
fn tabs_fill_below_header() {
    let r = App::tab_rect(Rect::new(0, 0, 640, 480), metrics(), 24);
    assert_eq!(r, Rect::new(0, 36, 640, 444));
    assert_eq!(r.y + r.h as i32, 480);
    let r = App::tab_rect(Rect::new(10, 20, 300, 200), UiMetrics { margin_y: 5, ..metrics() }, 11);
    assert_eq!(r, Rect::new(10, 38, 300, 182));
}

#[test]
fn full_redraw_happens_once_per_request() {
    let mut app = App::new(Rect::new(0, 0, 640, 480), metrics());
    assert!(app.needs_full_redraw());
    app.full_redraw_done();
    assert!(!app.needs_full_redraw());
    app.set_should_draw();
    assert!(app.needs_full_redraw());
    app.full_redraw_done();
    assert!(!app.needs_full_redraw());
}

#[test]
fn startup_plan_follows_the_state_file() {
    assert_eq!(startup_plan(false, false), StartupPlan::StartFresh);
    assert_eq!(startup_plan(false, true), StartupPlan::StartFresh);
    assert_eq!(startup_plan(true, true), StartupPlan::Restore);
    assert_eq!(startup_plan(true, false), StartupPlan::DeleteAndStartFresh);
}

#[test]
fn app_fits_matches_the_overflow_conditions() {
    assert!(App::new_fits(Rect::new(0, 0, 640, 480), metrics()));
    assert!(!App::new_fits(Rect::new(0, i32::MAX, 640, 480), metrics()));
    assert!(App::tab_rect_fits(Rect::new(0, 0, 640, 480), metrics(), 24));
    // The header is taller than the view.
    assert!(!App::tab_rect_fits(Rect::new(0, 0, 640, 30), metrics(), 24));
    // A negative margin wraps to a huge height.
    assert!(!App::tab_rect_fits(Rect::new(0, 0, 640, 480), UiMetrics { margin_y: -1, ..metrics() }, 24));
}
