use mylauncher::style::{Alignment, LabelStyle};
use mylauncher::geom::{Point, Rect, UiMetrics};
use mylauncher::ingame_menu::{IngameMenu, IngameMenuState, KeyOutcome, MenuAction, MenuEntry};
use mylauncher::input::{Key, KeyEvent};

fn metrics() -> UiMetrics {
    UiMetrics { margin_x: 12, margin_y: 8, padding_y: 6, ui_font_size: 24 }
}

fn menu(has_retroarch: bool) -> IngameMenu {
    IngameMenu::new(
        Rect::new(0, 0, 640, 480),
        IngameMenuState::default(),
        metrics(),
        "Super Game".to_string(),
        20,
        440,
        has_retroarch,
    )
}

#[test]
fn entries_are_continue_then_quit() {
    assert_eq!(MenuEntry::entries(), vec![MenuEntry::Continue, MenuEntry::Quit]);
    assert_eq!(MenuEntry::Continue.locale_key(), "ingame-menu-continue");
    assert_eq!(MenuEntry::Quit.locale_key(), "ingame-menu-quit");
}

#[test]
fn layout_of_a_vga_screen() {
    let m = menu(true);
    assert_eq!(m.name(), "Super Game");
    assert_eq!(m.name_point(), Point::new(12, 8));
    assert_eq!(m.status_bar_point(), Point::new(632, 8));
    assert_eq!(m.menu_rect(), Rect::new(12, 36, 616, 404));
    assert_eq!(m.menu_row_height(), 30);
    assert_eq!(m.entries(), &vec![MenuEntry::Continue, MenuEntry::Quit]);
    assert!(m.has_retroarch());
    assert_eq!(m.bounding_box(), Rect::new(0, 0, 640, 480));
}

#[test]
fn taller_status_bar_pushes_list_down() {
    let m = IngameMenu::new(
        Rect::new(0, 0, 640, 480),
        IngameMenuState::default(),
        metrics(),
        String::new(),
        40,
        440,
        false,
    );
    assert_eq!(m.menu_rect(), Rect::new(12, 52, 616, 388));
}

#[test]
fn odd_negative_margin_halves_toward_zero() {
    let metrics = UiMetrics { margin_x: 2, margin_y: -3, padding_y: 2, ui_font_size: 10 };
    let m = IngameMenu::new(
        Rect::new(5, 100, 50, 50),
        IngameMenuState::default(),
        metrics,
        String::new(),
        4,
        200,
        false,
    );
    // 100 - 3 + 10 + (-3 / 2 = -1)
    assert_eq!(m.menu_rect().y, 106);
    assert_eq!(m.menu_rect().h, 94);
    assert_eq!(m.status_bar_point(), Point::new(53, 97));
    assert_eq!(m.menu_rect().w, 46);
    assert_eq!(m.menu_row_height(), 12);
}

#[test]
fn hints_above_the_list_wrap_the_height() {
    let m = IngameMenu::new(
        Rect::new(0, 0, 640, 480),
        IngameMenuState::default(),
        metrics(),
        String::new(),
        20,
        35,
        false,
    );
    assert_eq!(m.menu_rect().h, (35i32 - 36) as u32);
}

#[test]
fn menu_and_b_exit() {
    let m = menu(false);
    for k in [Key::Menu, Key::B] {
        assert_eq!(m.handle_key_event(KeyEvent::Pressed(k), 1), KeyOutcome::Handled(vec![MenuAction::Exit]));
    }
}

#[test]
fn a_selects_entry() {
    let with = menu(true);
    let without = menu(false);
    assert_eq!(with.handle_key_event(KeyEvent::Pressed(Key::A), 0), KeyOutcome::Handled(vec![MenuAction::Exit]));
    assert_eq!(
        with.handle_key_event(KeyEvent::Pressed(Key::A), 1),
        KeyOutcome::Handled(vec![MenuAction::RetroArchQuit, MenuAction::Exit])
    );
    assert_eq!(
        without.handle_key_event(KeyEvent::Pressed(Key::A), 1),
        KeyOutcome::Handled(vec![MenuAction::KillRetroArch, MenuAction::Exit])
    );
    assert_eq!(without.select_entry(0), vec![MenuAction::Exit]);
}

#[test]
fn left_and_right_are_swallowed() {
    let m = menu(false);
    for e in [
        KeyEvent::Pressed(Key::Left),
        KeyEvent::Pressed(Key::Right),
        KeyEvent::Autorepeat(Key::Left),
        KeyEvent::Autorepeat(Key::Right),
    ] {
        assert_eq!(m.handle_key_event(e, 0), KeyOutcome::Handled(vec![]));
    }
}

#[test]
fn other_events_go_to_the_list() {
    let m = menu(false);
    for e in [
        KeyEvent::Pressed(Key::Up),
        KeyEvent::Pressed(Key::Down),
        KeyEvent::Autorepeat(Key::Down),
        KeyEvent::Released(Key::A),
        KeyEvent::Released(Key::Menu),
        KeyEvent::Released(Key::Left),
        KeyEvent::Autorepeat(Key::A),
        KeyEvent::Pressed(Key::Start),
    ] {
        assert_eq!(m.handle_key_event(e, 5), KeyOutcome::Delegate);
    }
}

#[test]
fn set_position_moves_only_the_corner() {
    let mut m = menu(false);
    m.set_position(Point::new(30, 40));
    assert_eq!(m.bounding_box(), Rect::new(30, 40, 640, 480));
    assert_eq!(m.menu_rect(), Rect::new(12, 36, 616, 404));
    assert_eq!(m.name_point(), Point::new(12, 8));
}

#[test]
fn ingame_menu_fits_matches_the_overflow_conditions() {
    assert!(IngameMenu::fits(Rect::new(0, 0, 640, 480), metrics(), 20, 440));
    // Margins wider than half the screen leave no width for the list.
    assert!(!IngameMenu::fits(Rect::new(0, 0, 20, 480), metrics(), 20, 440));
    // The name's x overflows.
    assert!(!IngameMenu::fits(Rect::new(i32::MAX, 0, 640, 480), metrics(), 20, 440));
    // The list's height overflows.
    assert!(!IngameMenu::fits(Rect::new(0, 0, 640, 480), metrics(), 20, i32::MIN));
    // The row height overflows.
    let m = UiMetrics { ui_font_size: u32::MAX, ..metrics() };
    assert!(!IngameMenu::fits(Rect::new(0, 0, 640, 480), m, 20, 440));
}

#[test]
fn name_is_left_aligned_and_rows_follow_entries() {
    let mut m = menu(false);
    assert_eq!(m.name_style(), LabelStyle { alignment: Alignment::Left, font_size: None, color: None, stroke_color: None });
    assert_eq!(m.list_labels(), &vec!["ingame-menu-continue", "ingame-menu-quit"]);
    m.set_position(Point::new(3, 4));
    assert_eq!(m.list_labels(), &vec!["ingame-menu-continue", "ingame-menu-quit"]);
    assert_eq!(m.entries(), &vec![MenuEntry::Continue, MenuEntry::Quit]);
}

#[test]
fn button_hints_continue_select_back() {
    let m = menu(true);
    let left: Vec<_> = m.hints_left().iter().map(|h| (h.key, h.label, h.alignment)).collect();
    let right: Vec<_> = m.hints_right().iter().map(|h| (h.key, h.label, h.alignment)).collect();
    assert_eq!(left, vec![(Key::Menu, "ingame-menu-continue", Alignment::Left)]);
    assert_eq!(
        right,
        vec![(Key::A, "button-select", Alignment::Right), (Key::B, "button-back", Alignment::Right)]
    );
}
