use mylauncher::style::{Alignment, FontSize, LabelStyle, StylesheetColor};
use mylauncher::battery_indicator::{BatteryIndicator, BatteryState, BATTERY_UPDATE_INTERVAL_MS};
use mylauncher::geom::{Point, Rect};

fn reading(charging: bool, percentage: i32) -> BatteryState {
    BatteryState { charging, percentage }
}

#[test]
fn new_with_label_shows_percentage() {
    let ind = BatteryIndicator::new(Point::new(620, 8), reading(false, 76), true, 1000);
    assert_eq!(ind.label_text(), Some("76%"));
    assert_eq!(ind.label_position(), Some(Point::new(620, 8)));
    assert_eq!(ind.icon_point(), Point::new(620, 8));
    assert_eq!(ind.icon_state(), None);
    assert_eq!(ind.last_state(), reading(false, 76));
}

#[test]
fn new_without_label() {
    let ind = BatteryIndicator::new(Point::new(620, 8), reading(true, 76), false, 0);
    assert_eq!(ind.label_text(), None);
    assert_eq!(ind.label_position(), None);
}

#[test]
fn charging_label_is_empty() {
    let ind = BatteryIndicator::new(Point::new(620, 8), reading(true, 76), true, 0);
    assert_eq!(ind.label_text(), Some(""));
}

#[test]
fn update_waits_for_the_interval() {
    let mut ind = BatteryIndicator::new(Point::new(620, 8), reading(false, 76), true, 1000);
    assert!(!ind.begin_update(1000));
    assert!(!ind.begin_update(1000 + BATTERY_UPDATE_INTERVAL_MS - 1));
    assert!(ind.begin_update(1000 + BATTERY_UPDATE_INTERVAL_MS));
    assert!(!ind.begin_update(1000 + BATTERY_UPDATE_INTERVAL_MS + 1));
    // A clock reading earlier than the last update counts as no time elapsed.
    assert!(!ind.begin_update(0));
}

#[test]
fn unchanged_reading_changes_nothing() {
    let mut ind = BatteryIndicator::new(Point::new(620, 8), reading(false, 76), true, 0);
    assert!(!ind.finish_update(reading(false, 76)));
    assert_eq!(ind.label_text(), Some("76%"));
}

#[test]
fn changed_reading_updates_label() {
    let mut ind = BatteryIndicator::new(Point::new(620, 8), reading(false, 76), true, 0);
    assert!(ind.finish_update(reading(false, 75)));
    assert_eq!(ind.label_text(), Some("75%"));
    assert_eq!(ind.reading(), reading(false, 75));
    assert!(ind.finish_update(reading(true, 75)));
    assert_eq!(ind.label_text(), Some(""));
}

#[test]
fn readings_are_compared_with_the_first_one() {
    let mut ind = BatteryIndicator::new(Point::new(620, 8), reading(false, 76), true, 0);
    assert!(ind.finish_update(reading(false, 75)));
    // The reference reading stays the first one.
    assert!(ind.finish_update(reading(false, 75)));
    assert_eq!(ind.last_state(), reading(false, 76));
    assert!(!ind.finish_update(reading(false, 76)));
    assert_eq!(ind.reading(), reading(false, 76));
}

#[test]
fn layout_leaves_room_for_label() {
    let mut ind = BatteryIndicator::new(Point::new(620, 8), reading(false, 76), true, 0);
    ind.layout(30, 12);
    assert_eq!(ind.icon_point(), Point::new(578, 8));
    assert_eq!(ind.icon_state(), Some(reading(false, 76)));
    let icon_box = Rect::new(550, 8, 28, 20);
    assert_eq!(ind.bounding_box(icon_box, 30, 12), Rect::new(550, 8, 70, 20));
}

#[test]
fn empty_label_takes_no_room() {
    let mut ind = BatteryIndicator::new(Point::new(620, 8), reading(true, 76), true, 0);
    ind.layout(0, 12);
    assert_eq!(ind.icon_point(), Point::new(620, 8));
    let icon_box = Rect::new(592, 8, 28, 20);
    assert_eq!(ind.bounding_box(icon_box, 0, 12), icon_box);
}

#[test]
fn without_label_width_is_ignored() {
    let mut ind = BatteryIndicator::new(Point::new(620, 8), reading(false, 40), false, 0);
    ind.layout(30, 12);
    assert_eq!(ind.icon_point(), Point::new(620, 8));
    let icon_box = Rect::new(592, 8, 28, 20);
    assert_eq!(ind.bounding_box(icon_box, 30, 12), icon_box);
}

#[test]
fn set_position_moves_label_and_icon() {
    let mut ind = BatteryIndicator::new(Point::new(620, 8), reading(false, 76), true, 0);
    assert!(ind.finish_update(reading(false, 50)));
    ind.set_position(Point::new(500, 20), 30, 12);
    assert_eq!(ind.point(), Point::new(500, 20));
    assert_eq!(ind.label_position(), Some(Point::new(500, 20)));
    assert_eq!(ind.icon_point(), Point::new(458, 20));
    assert_eq!(ind.icon_state(), Some(reading(false, 50)));
}

#[test]
fn battery_indicator_fits_matches_the_overflow_conditions() {
    let ind = BatteryIndicator::new(Point::new(620, 8), reading(false, 76), true, 0);
    assert!(ind.layout_fits_at(Point::new(620, 8), 30, 12));
    assert!(!ind.layout_fits_at(Point::new(i32::MIN, 8), 30, 12));
    assert!(!ind.layout_fits_at(Point::new(620, 8), i32::MAX as u32, 12));
    assert!(ind.bounding_box_fits(Rect::new(0, 0, 28, 20), 30, 12));
    assert!(!ind.bounding_box_fits(Rect::new(0, 0, u32::MAX, 20), 30, 12));
    let bare = BatteryIndicator::new(Point::new(i32::MIN, 8), reading(false, 76), false, 0);
    assert!(bare.layout_fits_at(Point::new(i32::MIN, 8), 30, 12));
}

#[test]
fn label_is_right_aligned_in_status_bar_style() {
    let ind = BatteryIndicator::new(Point::new(620, 8), reading(false, 76), true, 0);
    assert_eq!(
        ind.label_style(),
        Some(LabelStyle {
            alignment: Alignment::Right,
            font_size: Some(FontSize::StatusBar),
            color: Some(StylesheetColor::StatusBar),
            stroke_color: Some(StylesheetColor::StatusBarStroke),
        })
    );
    let bare = BatteryIndicator::new(Point::new(620, 8), reading(false, 76), false, 0);
    assert_eq!(bare.label_style(), None);
}

#[test]
fn changed_reading_requests_redraw() {
    let mut ind = BatteryIndicator::new(Point::new(620, 8), reading(false, 76), true, 0);
    assert!(ind.should_draw());
    ind.finish_draw();
    assert!(!ind.should_draw());
    assert!(!ind.finish_update(reading(false, 76)));
    assert!(!ind.should_draw());
    assert!(ind.finish_update(reading(false, 70)));
    assert!(ind.should_draw());
    ind.finish_draw();
    ind.set_should_draw();
    assert!(ind.should_draw());
}
