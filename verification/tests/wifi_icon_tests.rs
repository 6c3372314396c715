use mylauncher::geom::{Point, Rect, Size};
use mylauncher::wifi_icon::{WifiDrawing, WifiIcon, WifiIconVariant};

fn image_variant() -> WifiIconVariant {
    WifiIconVariant::Image { connected: Size::new(20, 16), disconnected: Size::new(18, 15) }
}

#[test]
fn variant_needs_both_images() {
    assert_eq!(
        WifiIconVariant::from_loaded(Some(Size::new(20, 16)), Some(Size::new(18, 15))),
        image_variant()
    );
    assert_eq!(WifiIconVariant::from_loaded(None, Some(Size::new(18, 15))), WifiIconVariant::Vector);
    assert_eq!(WifiIconVariant::from_loaded(Some(Size::new(20, 16)), None), WifiIconVariant::Vector);
    assert_eq!(WifiIconVariant::from_loaded(None, None), WifiIconVariant::Vector);
}

#[test]
fn new_icon_is_disconnected_and_due() {
    let icon = WifiIcon::new(Point::new(600, 4), WifiIconVariant::Vector);
    assert!(!icon.connected());
    assert!(icon.should_draw());
    assert_eq!(icon.point(), Point::new(600, 4));
}

#[test]
fn set_connected_marks_dirty_only_on_change() {
    let mut icon = WifiIcon::new(Point::new(600, 4), WifiIconVariant::Vector);
    icon.finish_draw();
    icon.set_connected(false);
    assert!(!icon.should_draw());
    assert_eq!(icon.draw_request(), None);
    icon.set_connected(true);
    assert!(icon.connected());
    assert!(icon.should_draw());
    icon.finish_draw();
    icon.set_connected(true);
    assert!(!icon.should_draw());
}

#[test]
fn image_is_drawn_left_of_point() {
    let mut icon = WifiIcon::new(Point::new(600, 4), image_variant());
    assert_eq!(
        icon.draw_request(),
        Some(WifiDrawing::Image { connected: false, at: Point::new(582, 4) })
    );
    icon.set_connected(true);
    assert_eq!(
        icon.draw_request(),
        Some(WifiDrawing::Image { connected: true, at: Point::new(580, 4) })
    );
    icon.finish_draw();
    assert_eq!(icon.draw_request(), None);
}

#[test]
fn vector_drawing_is_anchored_at_point() {
    let mut icon = WifiIcon::new(Point::new(600, 4), WifiIconVariant::Vector);
    assert_eq!(
        icon.draw_request(),
        Some(WifiDrawing::Vector { connected: false, anchor: Point::new(600, 4) })
    );
    icon.set_connected(true);
    assert_eq!(
        icon.draw_request(),
        Some(WifiDrawing::Vector { connected: true, anchor: Point::new(600, 4) })
    );
}

#[test]
fn bounding_box_ends_at_point() {
    let mut icon = WifiIcon::new(Point::new(600, 4), image_variant());
    assert_eq!(icon.bounding_box(Size::new(9, 16)), Rect::new(582, 4, 18, 15));
    icon.set_connected(true);
    assert_eq!(icon.bounding_box(Size::new(9, 16)), Rect::new(580, 4, 20, 16));
    let vector = WifiIcon::new(Point::new(600, 4), WifiIconVariant::Vector);
    assert_eq!(vector.bounding_box(Size::new(9, 16)), Rect::new(591, 4, 9, 16));
    assert_eq!(vector.icon_size(Size::new(9, 16)), Size::new(9, 16));
}

#[test]
fn set_position_moves_and_redraws() {
    let mut icon = WifiIcon::new(Point::new(600, 4), image_variant());
    icon.finish_draw();
    icon.set_position(Point::new(500, 10));
    assert!(icon.should_draw());
    assert_eq!(icon.bounding_box(Size::new(9, 16)), Rect::new(482, 10, 18, 15));
    icon.finish_draw();
    icon.set_should_draw();
    assert!(icon.should_draw());
}

#[test]
fn wifi_icon_fits_matches_the_overflow_conditions() {
    let icon = WifiIcon::new(Point::new(i32::MIN, 0), image_variant());
    assert!(!icon.draw_fits());
    assert!(!icon.bounding_box_fits(Size::new(9, 16)));
    let vector = WifiIcon::new(Point::new(i32::MIN, 0), WifiIconVariant::Vector);
    assert!(vector.draw_fits());
    assert!(!vector.bounding_box_fits(Size::new(9, 16)));
    assert!(vector.bounding_box_fits(Size::new(0, 16)));
}

#[test]
fn clean_icon_asks_for_nothing_even_at_the_edge() {
    let mut icon = WifiIcon::new(Point::new(i32::MIN, 0), image_variant());
    icon.finish_draw();
    assert_eq!(icon.draw_request(), None);
    icon.finish_draw();
    assert_eq!(icon.draw_request(), None);
}
