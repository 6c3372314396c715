use vstd::prelude::*;

use crate::geom::{half, Point, Rect, UiMetrics};
use crate::input::{Key, KeyEvent};
use crate::style::{plain_label_style, Alignment, LabelStyle};

verus! {

/// What the in-game menu keeps between runs: nothing yet.
#[derive(Clone, Copy, Debug, PartialEq, Eq, Structural)]
pub struct IngameMenuState {}

impl Default for IngameMenuState {
    fn default() -> (s: IngameMenuState)
        ensures
            s == (IngameMenuState {}),
    {
        IngameMenuState {}
    }
}

/// An entry of the in-game menu.
#[derive(Clone, Copy, Debug, PartialEq, Eq, PartialOrd, Ord, Structural)]
pub enum MenuEntry {
    Continue,
    Quit,
}

/// The entries of the menu, top to bottom.
pub open spec fn spec_entries() -> Seq<MenuEntry> {
    seq![MenuEntry::Continue, MenuEntry::Quit]
}

/// The key under which an entry's label is translated.
pub open spec fn spec_locale_key(entry: MenuEntry) -> Seq<char> {
    match entry {
        MenuEntry::Continue => "ingame-menu-continue"@,
        MenuEntry::Quit => "ingame-menu-quit"@,
    }
}

/// A button hint: the button, the key under which its label is translated,
/// and how it is aligned.
pub struct ButtonHint {
    pub key: Key,
    pub label: &'static str,
    pub alignment: Alignment,
}

/// A button hint, its label taken as characters.
pub struct ButtonHintView {
    pub key: Key,
    pub label: Seq<char>,
    pub alignment: Alignment,
}

impl View for ButtonHint {
    type V = ButtonHintView;

    open spec fn view(&self) -> ButtonHintView {
        ButtonHintView { key: self.key, label: self.label@, alignment: self.alignment }
    }
}

/// The hints at the left of the bottom edge: Menu, to continue the game.
pub open spec fn spec_left_hints() -> Seq<ButtonHintView> {
    seq![ButtonHintView { key: Key::Menu, label: "ingame-menu-continue"@, alignment: Alignment::Left }]
}

/// The hints at the right of the bottom edge: A to select, B to go back.
pub open spec fn spec_right_hints() -> Seq<ButtonHintView> {
    seq![
        ButtonHintView { key: Key::A, label: "button-select"@, alignment: Alignment::Right },
        ButtonHintView { key: Key::B, label: "button-back"@, alignment: Alignment::Right },
    ]
}

fn left_hints() -> (v: Vec<ButtonHint>)
    ensures
        v@.map_values(|h: ButtonHint| h@) == spec_left_hints(),
{
    let v = vec![ButtonHint { key: Key::Menu, label: "ingame-menu-continue", alignment: Alignment::Left }];
    assert(v@.map_values(|h: ButtonHint| h@) =~= spec_left_hints());
    v
}

fn right_hints() -> (v: Vec<ButtonHint>)
    ensures
        v@.map_values(|h: ButtonHint| h@) == spec_right_hints(),
{
    let v = vec![
        ButtonHint { key: Key::A, label: "button-select", alignment: Alignment::Right },
        ButtonHint { key: Key::B, label: "button-back", alignment: Alignment::Right },
    ];
    assert(v@.map_values(|h: ButtonHint| h@) =~= spec_right_hints());
    v
}

impl MenuEntry {
    /// The entries of the menu, top to bottom.
    pub fn entries() -> (v: Vec<MenuEntry>)
        ensures
            v@ == spec_entries(),
    {
        vec![MenuEntry::Continue, MenuEntry::Quit]
    }

    /// The key under which the entry's label is translated.
    pub fn locale_key(&self) -> (k: &'static str)
        ensures
            k@ == spec_locale_key(*self),
    {
        match self {
            MenuEntry::Continue => "ingame-menu-continue",
            MenuEntry::Quit => "ingame-menu-quit",
        }
    }
}

/// Something the menu asks the frontend to do.
#[derive(Clone, Copy, Debug, PartialEq, Eq, Structural)]
pub enum MenuAction {
    /// Close the menu and return to the game.
    Exit,
    /// Ask RetroArch, over its command interface, to quit.
    RetroArchQuit,
    /// Kill the RetroArch process and wait for it to end.
    KillRetroArch,
}

/// What the menu does with a key event.
#[derive(Clone, Debug, PartialEq, Eq)]
pub enum KeyOutcome {
    /// The menu handled the event; these actions are to be performed in order.
    Handled(Vec<MenuAction>),
    /// The event goes to the list of entries.
    Delegate,
}

/// The actions that choosing `entry` asks for.
pub open spec fn select_actions(entry: MenuEntry, has_retroarch: bool) -> Seq<MenuAction> {
    match entry {
        MenuEntry::Continue => seq![MenuAction::Exit],
        MenuEntry::Quit => if has_retroarch {
            seq![MenuAction::RetroArchQuit, MenuAction::Exit]
        } else {
            seq![MenuAction::KillRetroArch, MenuAction::Exit]
        },
    }
}

/// What a key event does to a menu that looks like `menu`, with the list's
/// cursor at `selected`: the actions to perform, or `None` when the event
/// goes to the list of entries.
pub open spec fn key_outcome_spec(menu: IngameMenuView, event: KeyEvent, selected: usize) -> Option<Seq<MenuAction>> {
    match event {
        KeyEvent::Pressed(Key::Menu) | KeyEvent::Pressed(Key::B) => Some(seq![MenuAction::Exit]),
        KeyEvent::Pressed(Key::A) => Some(select_actions(menu.entries[selected as int], menu.has_retroarch)),
        KeyEvent::Pressed(Key::Left) | KeyEvent::Pressed(Key::Right)
        | KeyEvent::Autorepeat(Key::Left) | KeyEvent::Autorepeat(Key::Right) => Some(Seq::empty()),
        _ => None,
    }
}

impl View for KeyOutcome {
    type V = Option<Seq<MenuAction>>;

    open spec fn view(&self) -> Option<Seq<MenuAction>> {
        match self {
            KeyOutcome::Handled(actions) => Some(actions@),
            KeyOutcome::Delegate => None,
        }
    }
}

/// Whether an outcome closes the menu: it is handled and its actions
/// include the exit.
pub open spec fn closes_menu(outcome: Option<Seq<MenuAction>>) -> bool {
    match outcome {
        Some(actions) => actions.contains(MenuAction::Exit),
        None => false,
    }
}

/// Where the parts of the menu are placed.
pub struct IngameMenuView {
    pub rect: Rect,
    pub name: Seq<char>,
    pub name_style: LabelStyle,
    pub name_point: Point,
    pub status_bar_point: Point,
    pub menu_rect: Rect,
    pub menu_row_height: u32,
    pub entries: Seq<MenuEntry>,
    /// The labels of the list's rows, as locale keys, top to bottom.
    pub list_labels: Seq<Seq<char>>,
    pub hints_left: Seq<ButtonHintView>,
    pub hints_right: Seq<ButtonHintView>,
    pub has_retroarch: bool,
}

/// The in-game menu: the game's name, the status bar, the list of entries
/// and the button hints.
pub struct IngameMenu {
    rect: Rect,
    name: String,
    name_style: LabelStyle,
    name_point: Point,
    status_bar_point: Point,
    menu_rect: Rect,
    menu_row_height: u32,
    entries: Vec<MenuEntry>,
    list_labels: Vec<&'static str>,
    hints_left: Vec<ButtonHint>,
    hints_right: Vec<ButtonHint>,
    has_retroarch: bool,
}

impl View for IngameMenu {
    type V = IngameMenuView;

    closed spec fn view(&self) -> IngameMenuView {
        IngameMenuView {
            rect: self.rect,
            name: self.name@,
            name_style: self.name_style,
            name_point: self.name_point,
            status_bar_point: self.status_bar_point,
            menu_rect: self.menu_rect,
            menu_row_height: self.menu_row_height,
            entries: self.entries@,
            list_labels: self.list_labels@.map_values(|k: &'static str| k@),
            hints_left: self.hints_left@.map_values(|h: ButtonHint| h@),
            hints_right: self.hints_right@.map_values(|h: ButtonHint| h@),
            has_retroarch: self.has_retroarch,
        }
    }
}

/// The menu after moving its top-left corner to `point`.
pub open spec fn spec_moved(menu: IngameMenuView, point: Point) -> IngameMenuView {
    IngameMenuView { rect: Rect { x: point.x, y: point.y, ..menu.rect }, ..menu }
}

/// The list holds one row per entry, labelled with the entry's key, and
/// the entries are Continue then Quit.
pub open spec fn menu_wf(menu: IngameMenuView) -> bool {
    &&& menu.entries == spec_entries()
    &&& menu.list_labels.len() == menu.entries.len()
    &&& forall|i: int| 0 <= i < menu.entries.len() ==> #[trigger] menu.list_labels[i] == spec_locale_key(menu.entries[i])
}

fn list_labels(entries: &Vec<MenuEntry>) -> (v: Vec<&'static str>)
    ensures
        v@.len() == entries@.len(),
        forall|i: int| 0 <= i < entries@.len() ==> #[trigger] v@[i]@ == spec_locale_key(entries@[i]),
{
    let mut v: Vec<&'static str> = Vec::new();
    for i in 0..entries.len()
        invariant
            v@.len() == i,
            forall|j: int| 0 <= j < i ==> #[trigger] v@[j]@ == spec_locale_key(entries@[j]),
    {
        v.push(entries[i].locale_key());
    }
    v
}

/// The larger of two sizes.
pub open spec fn max_u32(a: u32, b: u32) -> u32 {
    if a >= b { a } else { b }
}

/// The top of the list of entries: below the margin, the taller of the UI
/// font and the status bar, and half a margin more.
pub open spec fn content_top(rect: Rect, m: UiMetrics, status_bar_height: u32) -> int {
    rect.y + m.margin_y + (max_u32(m.ui_font_size, status_bar_height) as i32) + half(m.margin_y as int)
}

/// The inputs on which laying the menu out stays within the integer types.
pub open spec fn menu_layout_fits(rect: Rect, m: UiMetrics, status_bar_height: u32, hints_top: i32) -> bool {
    &&& i32::MIN <= rect.x + m.margin_x <= i32::MAX
    &&& i32::MIN <= rect.y + m.margin_y <= i32::MAX
    &&& i32::MIN <= (rect.w as i32) - m.margin_y <= i32::MAX
    &&& i32::MIN <= rect.y + m.margin_y + (max_u32(m.ui_font_size, status_bar_height) as i32) <= i32::MAX
    &&& i32::MIN <= content_top(rect, m, status_bar_height) <= i32::MAX
    &&& i32::MIN <= hints_top - content_top(rect, m, status_bar_height) <= i32::MAX
    &&& (m.margin_x as u32) * 2 <= rect.w
    &&& m.ui_font_size + (m.padding_y as u32) <= u32::MAX
}

fn in_i32(v: i64) -> (b: bool)
    ensures
        b == (i32::MIN <= v <= i32::MAX),
{
    i32::MIN as i64 <= v && v <= i32::MAX as i64
}

impl IngameMenu {
    /// Whether laying a menu out with these inputs stays within the integer
    /// types, which `new` needs.
    pub fn fits(rect: Rect, metrics: UiMetrics, status_bar_height: u32, hints_top: i32) -> (b: bool)
        ensures
            b == menu_layout_fits(rect, metrics, status_bar_height, hints_top),
    {
        let y = rect.y as i64;
        let my = metrics.margin_y as i64;
        let tallest: u32 = if metrics.ui_font_size >= status_bar_height {
            metrics.ui_font_size
        } else {
            status_bar_height
        };
        let upper = y + my + (tallest as i32) as i64;
        let top = upper + (metrics.margin_y / 2) as i64;
        in_i32(rect.x as i64 + metrics.margin_x as i64)
            && in_i32(y + my)
            && in_i32((rect.w as i32) as i64 - my)
            && in_i32(upper)
            && in_i32(top)
            && in_i32(hints_top as i64 - top)
            && (metrics.margin_x as u32) as u64 * 2 <= rect.w as u64
            && metrics.ui_font_size as u64 + (metrics.padding_y as u32) as u64 <= u32::MAX as u64
    }

    /// Lays the menu out in `rect`. `status_bar_height` is the height of the
    /// status bar and `hints_top` the top of the button hints, both as they
    /// measure with the current stylesheet; `has_retroarch` tells whether the
    /// game runs in RetroArch.
    pub fn new(
        rect: Rect,
        _state: IngameMenuState,
        metrics: UiMetrics,
        game_name: String,
        status_bar_height: u32,
        hints_top: i32,
        has_retroarch: bool,
    ) -> (menu: IngameMenu)
        requires
            menu_layout_fits(rect, metrics, status_bar_height, hints_top),
        ensures
            menu@.rect == rect,
            menu@.name == game_name@,
            menu@.name_style == plain_label_style(Alignment::Left),
            menu@.name_point.x == rect.x + metrics.margin_x,
            menu@.name_point.y == rect.y + metrics.margin_y,
            menu@.status_bar_point.x == (rect.w as i32) - metrics.margin_y,
            menu@.status_bar_point.y == rect.y + metrics.margin_y,
            menu@.menu_rect.x == rect.x + metrics.margin_x,
            menu@.menu_rect.y == content_top(rect, metrics, status_bar_height),
            menu@.menu_rect.w == rect.w - (metrics.margin_x as u32) * 2,
            menu@.menu_rect.h == ((hints_top - content_top(rect, metrics, status_bar_height)) as i32) as u32,
            menu@.menu_row_height == metrics.ui_font_size + (metrics.padding_y as u32),
            menu@.entries == spec_entries(),
            menu_wf(menu@),
            menu@.hints_left == spec_left_hints(),
            menu@.hints_right == spec_right_hints(),
            menu@.has_retroarch == has_retroarch,
    {
        let x = rect.x;
        let y = rect.y;
        let w = rect.w;
        let name_point = Point::new(x + metrics.margin_x, y + metrics.margin_y);
        let status_bar_point = Point::new(w as i32 - metrics.margin_y, y + metrics.margin_y);
        let tallest: u32 = if metrics.ui_font_size >= status_bar_height {
            metrics.ui_font_size
        } else {
            status_bar_height
        };
        let content_top: i32 = y + metrics.margin_y + tallest as i32 + metrics.margin_y / 2;
        let content_height: u32 = (hints_top - content_top) as u32;
        let entries = MenuEntry::entries();
        let menu_rect = Rect::new(
            x + metrics.margin_x,
            content_top,
            w - metrics.margin_x as u32 * 2,
            content_height,
        );
        let menu_row_height: u32 = metrics.ui_font_size + metrics.padding_y as u32;
        let list_labels = list_labels(&entries);
        let menu = IngameMenu {
            rect,
            name: game_name,
            name_style: LabelStyle::plain(Alignment::Left),
            name_point,
            status_bar_point,
            menu_rect,
            menu_row_height,
            entries,
            list_labels,
            hints_left: left_hints(),
            hints_right: right_hints(),
            has_retroarch,
        };
        assert(menu@.list_labels.len() == menu@.entries.len());
        menu
    }

    /// The actions that choosing the entry at `selected` asks for: always
    /// closing the menu last, and before that, for `Quit`, ending RetroArch
    /// through its command interface when the game runs in it, or killing
    /// the emulator process otherwise.
    pub fn select_entry(&self, selected: usize) -> (actions: Vec<MenuAction>)
        requires
            selected < self@.entries.len(),
        ensures
            actions@ == select_actions(self@.entries[selected as int], self@.has_retroarch),
    {
        match self.entries[selected] {
            MenuEntry::Continue => vec![MenuAction::Exit],
            MenuEntry::Quit => {
                if self.has_retroarch {
                    vec![MenuAction::RetroArchQuit, MenuAction::Exit]
                } else {
                    vec![MenuAction::KillRetroArch, MenuAction::Exit]
                }
            },
        }
    }

    /// Decides what a key event does: Menu and B close the menu, A chooses
    /// the entry at `selected`, Left and Right (pressed or repeating) are
    /// swallowed, and every other event goes to the list of entries.
    pub fn handle_key_event(&self, event: KeyEvent, selected: usize) -> (outcome: KeyOutcome)
        requires
            event == KeyEvent::Pressed(Key::A) ==> selected < self@.entries.len(),
        ensures
            outcome@ == key_outcome_spec(self@, event, selected),
            outcome@ is None <==> !(event == KeyEvent::Pressed(Key::Menu) || event == KeyEvent::Pressed(Key::B)
                || event == KeyEvent::Pressed(Key::A) || event == KeyEvent::Pressed(Key::Left)
                || event == KeyEvent::Pressed(Key::Right) || event == KeyEvent::Autorepeat(Key::Left)
                || event == KeyEvent::Autorepeat(Key::Right)),
            closes_menu(outcome@) ==> event == KeyEvent::Pressed(Key::Menu)
                || event == KeyEvent::Pressed(Key::B) || event == KeyEvent::Pressed(Key::A),
    {
        match event {
            KeyEvent::Pressed(Key::Menu) | KeyEvent::Pressed(Key::B) => {
                KeyOutcome::Handled(vec![MenuAction::Exit])
            },
            KeyEvent::Pressed(Key::A) => KeyOutcome::Handled(self.select_entry(selected)),
            KeyEvent::Pressed(Key::Left) | KeyEvent::Pressed(Key::Right)
            | KeyEvent::Autorepeat(Key::Left) | KeyEvent::Autorepeat(Key::Right) => {
                KeyOutcome::Handled(Vec::new())
            },
            _ => KeyOutcome::Delegate,
        }
    }

    /// Moves the menu's top-left corner to `point`; its size and the places
    /// of its parts stay as they were.
    pub fn set_position(&mut self, point: Point)
        ensures
            final(self)@ == spec_moved(old(self)@, point),
    {
        self.rect.x = point.x;
        self.rect.y = point.y;
    }

    /// The area the menu covers.
    pub fn bounding_box(&self) -> (r: Rect)
        ensures
            r == self@.rect,
    {
        self.rect
    }

    pub fn name(&self) -> (s: &str)
        ensures
            s@ == self@.name,
    {
        self.name.as_str()
    }

    pub fn name_point(&self) -> (p: Point)
        ensures
            p == self@.name_point,
    {
        self.name_point
    }

    pub fn status_bar_point(&self) -> (p: Point)
        ensures
            p == self@.status_bar_point,
    {
        self.status_bar_point
    }

    pub fn menu_rect(&self) -> (r: Rect)
        ensures
            r == self@.menu_rect,
    {
        self.menu_rect
    }

    pub fn menu_row_height(&self) -> (h: u32)
        ensures
            h == self@.menu_row_height,
    {
        self.menu_row_height
    }

    pub fn entries(&self) -> (v: &Vec<MenuEntry>)
        ensures
            v@ == self@.entries,
    {
        &self.entries
    }

    pub fn name_style(&self) -> (s: LabelStyle)
        ensures
            s == self@.name_style,
    {
        self.name_style
    }

    /// The labels of the list's rows, as locale keys, top to bottom.
    pub fn list_labels(&self) -> (v: &Vec<&'static str>)
        ensures
            v@.map_values(|k: &'static str| k@) == self@.list_labels,
    {
        &self.list_labels
    }

    pub fn hints_left(&self) -> (v: &Vec<ButtonHint>)
        ensures
            v@.map_values(|h: ButtonHint| h@) == self@.hints_left,
    {
        &self.hints_left
    }

    pub fn hints_right(&self) -> (v: &Vec<ButtonHint>)
        ensures
            v@.map_values(|h: ButtonHint| h@) == self@.hints_right,
    {
        &self.hints_right
    }

    pub fn has_retroarch(&self) -> (b: bool)
        ensures
            b == self@.has_retroarch,
    {
        self.has_retroarch
    }
}

/// Choosing an entry always closes the menu, and does so last: Continue does
/// nothing else, Quit first ends RetroArch one way or the other.
pub proof fn lemma_select_exits_last(entry: MenuEntry, has_retroarch: bool)
    ensures
        select_actions(entry, has_retroarch).len() >= 1,
        select_actions(entry, has_retroarch).last() == MenuAction::Exit,
        forall|i: int| 0 <= i < select_actions(entry, has_retroarch).len() - 1
            ==> select_actions(entry, has_retroarch)[i] != MenuAction::Exit,
        entry == MenuEntry::Continue ==> select_actions(entry, has_retroarch).len() == 1,
{
}

/// Quitting ends RetroArch the one way the game allows: through its command
/// interface when the game runs in it, by killing the process otherwise,
/// never both; continuing ends nothing.
pub proof fn lemma_quit_ends_retroarch_one_way(entry: MenuEntry, has_retroarch: bool)
    ensures
        entry == MenuEntry::Quit && has_retroarch ==> select_actions(entry, has_retroarch).contains(MenuAction::RetroArchQuit)
            && !select_actions(entry, has_retroarch).contains(MenuAction::KillRetroArch),
        entry == MenuEntry::Quit && !has_retroarch ==> select_actions(entry, has_retroarch).contains(MenuAction::KillRetroArch)
            && !select_actions(entry, has_retroarch).contains(MenuAction::RetroArchQuit),
        entry == MenuEntry::Continue ==> select_actions(entry, has_retroarch) == seq![MenuAction::Exit],
{
    let a = select_actions(entry, has_retroarch);
    if entry == MenuEntry::Quit {
        assert(a[0] != MenuAction::Exit);
        if has_retroarch {
            assert(a[0] == MenuAction::RetroArchQuit);
            assert(forall|i: int| 0 <= i < a.len() ==> a[i] != MenuAction::KillRetroArch);
        } else {
            assert(a[0] == MenuAction::KillRetroArch);
            assert(forall|i: int| 0 <= i < a.len() ==> a[i] != MenuAction::RetroArchQuit);
        }
    }
}

/// Menu and B close the menu whatever entry the cursor is on.
pub proof fn lemma_menu_and_b_close(menu: IngameMenuView, key: Key, selected: usize)
    requires
        key == Key::Menu || key == Key::B,
    ensures
        key_outcome_spec(menu, KeyEvent::Pressed(key), selected) == Some(seq![MenuAction::Exit]),
{
}

/// Released keys never act on the menu itself: they go to the list.
pub proof fn lemma_released_keys_delegate(menu: IngameMenuView, key: Key, selected: usize)
    ensures
        key_outcome_spec(menu, KeyEvent::Released(key), selected) is None,
{
}

/// The list of entries fills the space between the header and the button
/// hints: its bottom edge is the hints' top edge, whenever the hints stand
/// below the top of the list.
pub proof fn lemma_menu_list_reaches_hints(rect: Rect, m: UiMetrics, status_bar_height: u32, hints_top: i32)
    requires
        menu_layout_fits(rect, m, status_bar_height, hints_top),
        hints_top >= content_top(rect, m, status_bar_height),
    ensures
        (content_top(rect, m, status_bar_height) as i32)
            + (((hints_top - content_top(rect, m, status_bar_height)) as i32) as u32) == hints_top,
{
}

/// Moving the menu puts its bounding box's corner at the point and keeps
/// its size; the parts inside keep their places.
pub proof fn lemma_set_position_keeps_size(menu: IngameMenuView, point: Point)
    ensures
        spec_moved(menu, point).rect == (Rect { x: point.x, y: point.y, w: menu.rect.w, h: menu.rect.h }),
        spec_moved(menu, point).menu_rect == menu.menu_rect,
        spec_moved(menu, point).name_point == menu.name_point,
        spec_moved(menu, point).status_bar_point == menu.status_bar_point,
{
}

/// The list keeps one row per entry, labelled with that entry, and the
/// entries stay Continue then Quit: laying the menu out establishes it, and
/// moving the menu, its only change, keeps it.
pub proof fn lemma_entries_and_rows_stay(menu: IngameMenuView, point: Point)
    requires
        menu_wf(menu),
    ensures
        menu_wf(spec_moved(menu, point)),
        spec_moved(menu, point).entries == spec_entries(),
        spec_moved(menu, point).list_labels == seq!["ingame-menu-continue"@, "ingame-menu-quit"@],
{
    let m = spec_moved(menu, point);
    assert(m.list_labels[0] == spec_locale_key(m.entries[0]));
    assert(m.list_labels[1] == spec_locale_key(m.entries[1]));
    assert(m.list_labels =~= seq!["ingame-menu-continue"@, "ingame-menu-quit"@]);
}

/// The keys the menu acts on are exactly Menu, B and A pressed, and Left
/// and Right pressed or repeating; every other event goes to the list.
pub proof fn lemma_only_menu_keys_are_handled(menu: IngameMenuView, event: KeyEvent, selected: usize)
    ensures
        key_outcome_spec(menu, event, selected) is Some <==> (event == KeyEvent::Pressed(Key::Menu)
            || event == KeyEvent::Pressed(Key::B) || event == KeyEvent::Pressed(Key::A)
            || event == KeyEvent::Pressed(Key::Left) || event == KeyEvent::Pressed(Key::Right)
            || event == KeyEvent::Autorepeat(Key::Left) || event == KeyEvent::Autorepeat(Key::Right)),
{
}

/// Only Left and Right are swallowed: they are handled with no action, and
/// any other key the menu does not act on, pressed or repeating, goes to
/// the list.
pub proof fn lemma_only_left_right_swallowed(menu: IngameMenuView, key: Key, selected: usize)
    ensures
        (key == Key::Left || key == Key::Right) ==> key_outcome_spec(menu, KeyEvent::Pressed(key), selected)
            == Some(Seq::<MenuAction>::empty()) && key_outcome_spec(menu, KeyEvent::Autorepeat(key), selected)
            == Some(Seq::<MenuAction>::empty()),
        key != Key::Menu && key != Key::B && key != Key::A && key != Key::Left && key != Key::Right
            ==> key_outcome_spec(menu, KeyEvent::Pressed(key), selected) is None,
        key != Key::Left && key != Key::Right ==> key_outcome_spec(menu, KeyEvent::Autorepeat(key), selected) is None,
{
}

/// The menu closes only on Menu or B pressed, or on A choosing an entry:
/// any outcome that holds the exit comes from one of those presses, and
/// A closes the menu only through `select_actions`.
pub proof fn lemma_menu_closes_only_on_menu_b_or_a(menu: IngameMenuView, event: KeyEvent, selected: usize)
    ensures
        closes_menu(key_outcome_spec(menu, event, selected))
            ==> event == KeyEvent::Pressed(Key::Menu) || event == KeyEvent::Pressed(Key::B)
                || event == KeyEvent::Pressed(Key::A),
        event == KeyEvent::Pressed(Key::A) ==> key_outcome_spec(menu, event, selected)
            == Some(select_actions(menu.entries[selected as int], menu.has_retroarch)),
{
}

} // verus!
