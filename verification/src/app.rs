use vstd::prelude::*;

use crate::geom::{half, Point, Rect, UiMetrics};

verus! {

/// What to do with a saved state file at start-up.
#[derive(Clone, Copy, Debug, PartialEq, Eq, Structural)]
pub enum StartupPlan {
    /// Build the view from the saved state.
    Restore,
    /// The file does not parse: delete it and build a fresh view.
    DeleteAndStartFresh,
    /// There is no file: build a fresh view.
    StartFresh,
}

/// What to do at start-up, given whether the state file exists and, when
/// it does, whether its contents parse.
pub open spec fn spec_startup_plan(exists: bool, parses: bool) -> StartupPlan {
    if !exists {
        StartupPlan::StartFresh
    } else if parses {
        StartupPlan::Restore
    } else {
        StartupPlan::DeleteAndStartFresh
    }
}

/// Decides what to do with the saved state file at start-up.
pub fn startup_plan(exists: bool, parses: bool) -> (plan: StartupPlan)
    ensures
        plan == spec_startup_plan(exists, parses),
        plan == StartupPlan::Restore <==> exists && parses,
        plan == StartupPlan::DeleteAndStartFresh <==> exists && !parses,
        plan == StartupPlan::StartFresh <==> !exists,
{
    if exists {
        if parses {
            StartupPlan::Restore
        } else {
            StartupPlan::DeleteAndStartFresh
        }
    } else {
        StartupPlan::StartFresh
    }
}

/// The vertical space above the tabs: the font size and one and a half
/// margins.
pub open spec fn header_height(m: UiMetrics, font_size: u32) -> int {
    (font_size as i32) + m.margin_y + half(m.margin_y as int)
}

/// The inputs on which computing the area of the tabs stays within the
/// integer types.
pub open spec fn tab_rect_fits(rect: Rect, m: UiMetrics, font_size: u32) -> bool {
    &&& i32::MIN <= rect.y + (font_size as i32) <= i32::MAX
    &&& i32::MIN <= rect.y + (font_size as i32) + m.margin_y <= i32::MAX
    &&& i32::MIN <= rect.y + header_height(m, font_size) <= i32::MAX
    &&& rect.h >= font_size
    &&& rect.h - font_size >= (m.margin_y as u32)
    &&& rect.h - font_size - (m.margin_y as u32) >= (m.margin_y as u32) / 2
}

/// The area of the tabs below the header, `font_size` being the larger of
/// the tab and status-bar font sizes.
pub open spec fn spec_tab_rect(rect: Rect, m: UiMetrics, font_size: u32) -> Rect {
    Rect {
        x: rect.x,
        y: (rect.y + header_height(m, font_size)) as i32,
        w: rect.w,
        h: (rect.h - font_size - (m.margin_y as u32) - (m.margin_y as u32) / 2) as u32,
    }
}

/// The state of the launcher's top-level view.
pub struct AppView {
    pub rect: Rect,
    pub status_bar_point: Point,
    pub dirty: bool,
}

/// The view once its background has been restored.
pub open spec fn spec_drawn(app: AppView) -> AppView {
    AppView { dirty: false, ..app }
}

/// The view once asked to be drawn again in full.
pub open spec fn spec_redraw_requested(app: AppView) -> AppView {
    AppView { dirty: true, ..app }
}

/// The launcher's top-level view: the status bar and, below it, the games.
pub struct App {
    rect: Rect,
    status_bar_point: Point,
    dirty: bool,
}

impl View for App {
    type V = AppView;

    closed spec fn view(&self) -> AppView {
        AppView { rect: self.rect, status_bar_point: self.status_bar_point, dirty: self.dirty }
    }
}

fn in_i32(v: i64) -> (b: bool)
    ensures
        b == (i32::MIN <= v <= i32::MAX),
{
    i32::MIN as i64 <= v && v <= i32::MAX as i64
}

impl App {
    /// Whether placing the status bar of a view covering `rect` stays within
    /// `i32`, which `new` needs.
    pub fn new_fits(rect: Rect, metrics: UiMetrics) -> (b: bool)
        ensures
            b == (i32::MIN <= (rect.w as i32) - metrics.margin_x <= i32::MAX
                && i32::MIN <= rect.y + metrics.margin_y <= i32::MAX),
    {
        in_i32((rect.w as i32) as i64 - metrics.margin_x as i64) && in_i32(rect.y as i64 + metrics.margin_y as i64)
    }

    /// Whether computing the area of the tabs stays within the integer
    /// types, which `tab_rect` needs.
    pub fn tab_rect_fits(rect: Rect, metrics: UiMetrics, font_size: u32) -> (b: bool)
        ensures
            b == tab_rect_fits(rect, metrics, font_size),
    {
        let a = rect.y as i64 + (font_size as i32) as i64;
        let b = a + metrics.margin_y as i64;
        let c = b + (metrics.margin_y / 2) as i64;
        let m = metrics.margin_y as u32;
        in_i32(a) && in_i32(b) && in_i32(c) && rect.h >= font_size && rect.h - font_size >= m
            && rect.h - font_size - m >= m / 2
    }

    /// A view covering `rect`, with the status bar's right edge one margin
    /// in from the right of the screen and one margin below the top; it is
    /// due to be drawn in full.
    pub fn new(rect: Rect, metrics: UiMetrics) -> (app: App)
        requires
            i32::MIN <= (rect.w as i32) - metrics.margin_x <= i32::MAX,
            i32::MIN <= rect.y + metrics.margin_y <= i32::MAX,
        ensures
            app@.rect == rect,
            app@.status_bar_point.x == (rect.w as i32) - metrics.margin_x,
            app@.status_bar_point.y == rect.y + metrics.margin_y,
            app@.dirty,
    {
        let status_bar_point = Point::new(rect.w as i32 - metrics.margin_x, rect.y + metrics.margin_y);
        App { rect, status_bar_point, dirty: true }
    }

    /// The area of the tabs in a view covering `rect`: below the status
    /// bar, `font_size` being the larger of the tab and status-bar font sizes.
    pub fn tab_rect(rect: Rect, metrics: UiMetrics, font_size: u32) -> (r: Rect)
        requires
            tab_rect_fits(rect, metrics, font_size),
        ensures
            r == spec_tab_rect(rect, metrics, font_size),
    {
        let top: i32 = rect.y + font_size as i32 + metrics.margin_y + metrics.margin_y / 2;
        let margin: u32 = metrics.margin_y as u32;
        let h: u32 = rect.h - font_size - margin - margin / 2;
        Rect::new(rect.x, top, rect.w, h)
    }

    /// Whether the whole background is to be restored before drawing,
    /// which is so from each request to redraw until it has been done.
    pub fn needs_full_redraw(&self) -> (full: bool)
        ensures
            full == self@.dirty,
    {
        self.dirty
    }

    /// Records that the whole background has been restored.
    pub fn full_redraw_done(&mut self)
        ensures
            final(self)@ == spec_drawn(old(self)@),
    {
        self.dirty = false;
    }

    /// Asks for the whole view to be drawn again.
    pub fn set_should_draw(&mut self)
        ensures
            final(self)@ == spec_redraw_requested(old(self)@),
    {
        self.dirty = true;
    }

    /// The area the view covers.
    pub fn bounding_box(&self) -> (r: Rect)
        ensures
            r == self@.rect,
    {
        self.rect
    }

    pub fn status_bar_point(&self) -> (p: Point)
        ensures
            p == self@.status_bar_point,
    {
        self.status_bar_point
    }
}

/// The tabs span the full width of the view and end where it ends: their
/// area is the view's minus the header, when the font size fits in `i32`
/// and the margin is not negative.
pub proof fn lemma_tab_rect_keeps_bottom_edge(rect: Rect, m: UiMetrics, font_size: u32)
    requires
        tab_rect_fits(rect, m, font_size),
        font_size <= i32::MAX,
        m.margin_y >= 0,
    ensures
        spec_tab_rect(rect, m, font_size).x == rect.x,
        spec_tab_rect(rect, m, font_size).w == rect.w,
        spec_tab_rect(rect, m, font_size).y + spec_tab_rect(rect, m, font_size).h == rect.y + rect.h,
{
}

/// After a request to redraw, the next draw restores the whole background
/// and the one after it does not: a full redraw happens once per request.
pub proof fn lemma_full_redraw_once_per_request(app: AppView)
    ensures
        spec_redraw_requested(app).dirty,
        !spec_drawn(spec_redraw_requested(app)).dirty,
        spec_drawn(spec_redraw_requested(app)) == spec_drawn(app),
{
}

} // verus!
