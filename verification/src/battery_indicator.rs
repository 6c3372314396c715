use vstd::prelude::*;

use crate::geom::{Point, Rect};
use crate::style::{battery_label_style, LabelStyle};
use crate::text::{battery_percentage_text, format_battery_percentage};

verus! {

/// How long the indicator waits between two readings of the battery, in
/// milliseconds.
pub const BATTERY_UPDATE_INTERVAL_MS: u64 = 5000;

/// A reading of the battery.
#[derive(Clone, Copy, Debug, PartialEq, Eq, Structural)]
pub struct BatteryState {
    pub charging: bool,
    pub percentage: i32,
}

/// The text label next to the battery icon.
pub struct BatteryLabelView {
    pub text: Seq<char>,
    pub position: Point,
    pub style: LabelStyle,
}

/// The state of a battery indicator.
pub struct BatteryIndicatorView {
    /// Where the indicator's right edge stands.
    pub point: Point,
    /// The reading the indicator compares new readings with.
    pub last_state: BatteryState,
    /// The latest reading of the battery.
    pub reading: BatteryState,
    /// When the battery was last read, in milliseconds of a monotonic clock.
    pub last_updated_ms: u64,
    /// The percentage label, when the indicator shows one.
    pub label: Option<BatteryLabelView>,
    /// Where the battery icon's right edge stands.
    pub icon_point: Point,
    /// The reading the icon shows, once it has been laid out.
    pub icon_state: Option<BatteryState>,
    /// Whether the label and the icon are due to be drawn.
    pub dirty: bool,
}

struct BatteryLabel {
    text: String,
    position: Point,
    style: LabelStyle,
}

/// The battery indicator of the status bar: when asked for, the percentage,
/// right-aligned at the indicator's point, and the battery icon to its left.
pub struct BatteryIndicator {
    point: Point,
    last_state: BatteryState,
    reading: BatteryState,
    last_updated_ms: u64,
    label: Option<BatteryLabel>,
    icon_point: Point,
    icon_state: Option<BatteryState>,
    dirty: bool,
}

impl View for BatteryIndicator {
    type V = BatteryIndicatorView;

    closed spec fn view(&self) -> BatteryIndicatorView {
        BatteryIndicatorView {
            point: self.point,
            last_state: self.last_state,
            reading: self.reading,
            last_updated_ms: self.last_updated_ms,
            label: match self.label {
                Some(l) => Some(BatteryLabelView { text: l.text@, position: l.position, style: l.style }),
                None => None,
            },
            icon_point: self.icon_point,
            icon_state: self.icon_state,
            dirty: self.dirty,
        }
    }
}

/// The time elapsed from `since` to `now`, zero when `now` comes first.
pub open spec fn elapsed_ms(since: u64, now: u64) -> int {
    if now >= since { now - since } else { 0 }
}

/// The space the label takes to the left of the icon: its width and a
/// margin when it has a positive width, nothing otherwise.
pub open spec fn label_gap(has_label: bool, label_width: u32, margin_x: i32) -> int {
    let w: i32 = if has_label { label_width as i32 } else { 0 };
    if w > 0 { w + margin_x } else { 0 }
}

/// The inputs on which laying the indicator out stays within `i32`.
pub open spec fn layout_fits(ind: BatteryIndicatorView, label_width: u32, margin_x: i32) -> bool {
    let w: i32 = if ind.label is Some { label_width as i32 } else { 0 };
    &&& w > 0 ==> i32::MIN <= w + margin_x <= i32::MAX
    &&& i32::MIN <= ind.point.x - label_gap(ind.label is Some, label_width, margin_x) <= i32::MAX
}

/// The indicator after laying it out with a label `label_width` wide: the
/// icon moves left by the label's gap and shows the latest reading.
pub open spec fn spec_layout(ind: BatteryIndicatorView, label_width: u32, margin_x: i32) -> BatteryIndicatorView {
    BatteryIndicatorView {
        icon_point: Point {
            x: (ind.point.x - label_gap(ind.label is Some, label_width, margin_x)) as i32,
            y: ind.point.y,
        },
        icon_state: Some(ind.reading),
        ..ind
    }
}

/// The area the indicator covers: the icon's area, widened by the label's gap.
pub open spec fn spec_bounding_box(ind: BatteryIndicatorView, icon_box: Rect, label_width: u32, margin_x: i32) -> Rect {
    Rect {
        w: (icon_box.w + (label_gap(ind.label is Some, label_width, margin_x) as i32 as u32)) as u32,
        ..icon_box
    }
}

impl BatteryIndicator {
    /// An indicator whose right edge stands at `point`, showing `reading`;
    /// `now_ms` is the current time on a monotonic clock.
    pub fn new(point: Point, reading: BatteryState, show_percentage: bool, now_ms: u64) -> (ind: BatteryIndicator)
        ensures
            ind@.point == point,
            ind@.last_state == reading,
            ind@.reading == reading,
            ind@.last_updated_ms == now_ms,
            show_percentage <==> ind@.label is Some,
            ind@.label matches Some(l) ==> l.text == battery_percentage_text(reading.charging, reading.percentage as int)
                && l.position == point && l.style == battery_label_style(),
            ind@.icon_point == point,
            ind@.icon_state is None,
            ind@.dirty,
    {
        let label = if show_percentage {
            Some(BatteryLabel {
                text: format_battery_percentage(reading.charging, reading.percentage),
                position: point,
                style: LabelStyle::battery(),
            })
        } else {
            None
        };
        BatteryIndicator {
            point,
            last_state: reading,
            reading,
            last_updated_ms: now_ms,
            label,
            icon_point: point,
            icon_state: None,
            dirty: true,
        }
    }

    /// Decides whether the battery is due to be read at `now_ms`: when at
    /// least the update interval has passed since the last reading. If so,
    /// `now_ms` becomes the time of the last reading.
    pub fn begin_update(&mut self, now_ms: u64) -> (due: bool)
        ensures
            due <==> elapsed_ms(old(self)@.last_updated_ms, now_ms) >= BATTERY_UPDATE_INTERVAL_MS,
            old(self)@.last_updated_ms <= now_ms ==> (due <==> now_ms - old(self)@.last_updated_ms >= BATTERY_UPDATE_INTERVAL_MS),
            now_ms < old(self)@.last_updated_ms ==> !due,
            final(self)@.last_updated_ms == (if due { now_ms } else { old(self)@.last_updated_ms }),
            due ==> final(self)@ == (BatteryIndicatorView { last_updated_ms: now_ms, ..old(self)@ }),
            !due ==> final(self)@ == old(self)@,
    {
        let elapsed: u64 = if now_ms >= self.last_updated_ms { now_ms - self.last_updated_ms } else { 0 };
        if elapsed < BATTERY_UPDATE_INTERVAL_MS {
            return false;
        }
        self.last_updated_ms = now_ms;
        true
    }

    /// Takes a new reading of the battery. Returns whether it differs from
    /// the reading the indicator was created with; then the label shows the
    /// new reading, the indicator is marked for redrawing and is to be laid
    /// out again.
    pub fn finish_update(&mut self, reading: BatteryState) -> (changed: bool)
        ensures
            changed <==> reading != old(self)@.last_state,
            final(self)@.reading == reading,
            final(self)@.last_state == old(self)@.last_state,
            changed ==> final(self)@.dirty,
            changed && old(self)@.label is Some ==> (final(self)@.label matches Some(l)
                && l.text == battery_percentage_text(reading.charging, reading.percentage as int)),
            !changed ==> final(self)@ == (BatteryIndicatorView { reading, ..old(self)@ }),
            changed ==> final(self)@ == (BatteryIndicatorView {
                reading,
                label: match old(self)@.label {
                    Some(l) => Some(BatteryLabelView {
                        text: battery_percentage_text(reading.charging, reading.percentage as int),
                        ..l
                    }),
                    None => None,
                },
                dirty: true,
                ..old(self)@
            }),
    {
        self.reading = reading;
        if reading.charging == self.last_state.charging && reading.percentage == self.last_state.percentage {
            return false;
        }
        match &mut self.label {
            Some(label) => {
                label.text = format_battery_percentage(reading.charging, reading.percentage);
            },
            None => {},
        }
        self.dirty = true;
        true
    }

    /// Whether laying the indicator out at `point` with a label
    /// `label_width` wide stays within `i32`, which `layout` and
    /// `set_position` need.
    pub fn layout_fits_at(&self, point: Point, label_width: u32, margin_x: i32) -> (b: bool)
        ensures
            b == layout_fits(BatteryIndicatorView { point, ..self@ }, label_width, margin_x),
    {
        let w: i32 = if self.label.is_some() { label_width as i32 } else { 0 };
        if w > 0 {
            let gap = w as i64 + margin_x as i64;
            if gap < i32::MIN as i64 || gap > i32::MAX as i64 {
                return false;
            }
            let x = point.x as i64 - gap;
            i32::MIN as i64 <= x && x <= i32::MAX as i64
        } else {
            true
        }
    }

    /// Whether measuring the indicator around `icon_box` stays within the
    /// integer types, which `bounding_box` needs.
    pub fn bounding_box_fits(&self, icon_box: Rect, label_width: u32, margin_x: i32) -> (b: bool)
        ensures
            b == (layout_fits(self@, label_width, margin_x)
                && icon_box.w + (label_gap(self@.label is Some, label_width, margin_x) as i32 as u32) <= u32::MAX),
    {
        if !self.layout_fits_at(self.point, label_width, margin_x) {
            return false;
        }
        let w: i32 = if self.label.is_some() { label_width as i32 } else { 0 };
        let gap: i32 = if w > 0 { w + margin_x } else { 0 };
        icon_box.w as u64 + (gap as u32) as u64 <= u32::MAX as u64
    }

    /// Puts the icon to the left of the label, `label_width` being the
    /// width of the label as it measures now, and has the icon show the
    /// latest reading.
    pub fn layout(&mut self, label_width: u32, margin_x: i32)
        requires
            layout_fits(old(self)@, label_width, margin_x),
        ensures
            final(self)@ == spec_layout(old(self)@, label_width, margin_x),
            final(self)@.icon_state == Some(old(self)@.reading),
            final(self)@.icon_point.y == old(self)@.point.y,
            final(self)@.icon_point.x == old(self)@.point.x - label_gap(old(self)@.label is Some, label_width, margin_x),
            final(self)@.reading == old(self)@.reading,
            final(self)@.point == old(self)@.point,
    {
        let w: i32 = if self.label.is_some() { label_width as i32 } else { 0 };
        let gap: i32 = if w > 0 { w + margin_x } else { 0 };
        self.icon_state = Some(self.reading);
        self.icon_point = Point::new(self.point.x - gap, self.point.y);
    }

    /// The area the indicator covers: the icon's area, `icon_box`, widened
    /// by the space the label takes.
    pub fn bounding_box(&self, icon_box: Rect, label_width: u32, margin_x: i32) -> (r: Rect)
        requires
            layout_fits(self@, label_width, margin_x),
            icon_box.w + (label_gap(self@.label is Some, label_width, margin_x) as i32 as u32) <= u32::MAX,
        ensures
            r == spec_bounding_box(self@, icon_box, label_width, margin_x),
            r.x == icon_box.x,
            r.y == icon_box.y,
            r.h == icon_box.h,
            r.w == icon_box.w + (label_gap(self@.label is Some, label_width, margin_x) as i32 as u32),
    {
        let w: i32 = if self.label.is_some() { label_width as i32 } else { 0 };
        let gap: i32 = if w > 0 { w + margin_x } else { 0 };
        Rect::new(icon_box.x, icon_box.y, icon_box.w + gap as u32, icon_box.h)
    }

    /// Moves the indicator's right edge, and the label, to `point`, then
    /// lays it out again.
    pub fn set_position(&mut self, point: Point, label_width: u32, margin_x: i32)
        requires
            layout_fits(BatteryIndicatorView { point, ..old(self)@ }, label_width, margin_x),
        ensures
            final(self)@ == (BatteryIndicatorView {
                point,
                label: match old(self)@.label {
                    Some(l) => Some(BatteryLabelView { position: point, ..l }),
                    None => None,
                },
                icon_point: Point { x: (point.x - label_gap(old(self)@.label is Some, label_width, margin_x)) as i32, y: point.y },
                icon_state: Some(old(self)@.reading),
                ..old(self)@
            }),
    {
        self.point = point;
        match &mut self.label {
            Some(label) => {
                label.position = point;
            },
            None => {},
        }
        self.layout(label_width, margin_x);
    }

    /// Whether the label and the icon are due to be drawn.
    pub fn should_draw(&self) -> (b: bool)
        ensures
            b == self@.dirty,
    {
        self.dirty
    }

    /// Asks for the label and the icon to be drawn again.
    pub fn set_should_draw(&mut self)
        ensures
            final(self)@ == (BatteryIndicatorView { dirty: true, ..old(self)@ }),
    {
        self.dirty = true;
    }

    /// Records that the label and the icon have been drawn.
    pub fn finish_draw(&mut self)
        ensures
            final(self)@ == (BatteryIndicatorView { dirty: false, ..old(self)@ }),
    {
        self.dirty = false;
    }

    /// The style the label is drawn in, when the indicator shows one.
    pub fn label_style(&self) -> (s: Option<LabelStyle>)
        ensures
            s matches Some(t) ==> self@.label matches Some(l) && t == l.style,
            s is None ==> self@.label is None,
    {
        match &self.label {
            Some(label) => Some(label.style),
            None => None,
        }
    }

    pub fn point(&self) -> (p: Point)
        ensures
            p == self@.point,
    {
        self.point
    }

    pub fn reading(&self) -> (r: BatteryState)
        ensures
            r == self@.reading,
    {
        self.reading
    }

    pub fn last_state(&self) -> (r: BatteryState)
        ensures
            r == self@.last_state,
    {
        self.last_state
    }

    /// The label's text, when the indicator shows one.
    pub fn label_text(&self) -> (t: Option<&str>)
        ensures
            t matches Some(s) ==> self@.label matches Some(l) && s@ == l.text,
            t is None ==> self@.label is None,
    {
        match &self.label {
            Some(label) => Some(label.text.as_str()),
            None => None,
        }
    }

    /// Where the label stands, when the indicator shows one.
    pub fn label_position(&self) -> (p: Option<Point>)
        ensures
            p matches Some(q) ==> self@.label matches Some(l) && q == l.position,
            p is None ==> self@.label is None,
    {
        match &self.label {
            Some(label) => Some(label.position),
            None => None,
        }
    }

    pub fn icon_point(&self) -> (p: Point)
        ensures
            p == self@.icon_point,
    {
        self.icon_point
    }

    pub fn icon_state(&self) -> (s: Option<BatteryState>)
        ensures
            s == self@.icon_state,
    {
        self.icon_state
    }
}

/// Laying out and measuring agree: with a non-negative margin, the
/// indicator's area is the icon's widened by exactly the distance the
/// layout put between the icon and the indicator's right edge.
pub proof fn lemma_bounding_box_spans_layout(ind: BatteryIndicatorView, icon_box: Rect, label_width: u32, margin_x: i32)
    requires
        layout_fits(ind, label_width, margin_x),
        margin_x >= 0,
        icon_box.w + (label_gap(ind.label is Some, label_width, margin_x) as i32 as u32) <= u32::MAX,
    ensures
        spec_bounding_box(spec_layout(ind, label_width, margin_x), icon_box, label_width, margin_x).w
            == icon_box.w + (ind.point.x - spec_layout(ind, label_width, margin_x).icon_point.x),
{
}

/// Without a label the icon stands at the indicator's right edge and the
/// indicator covers just the icon.
pub proof fn lemma_no_label_no_gap(ind: BatteryIndicatorView, icon_box: Rect, label_width: u32, margin_x: i32)
    requires
        ind.label is None,
    ensures
        spec_layout(ind, label_width, margin_x).icon_point == ind.point,
        spec_bounding_box(ind, icon_box, label_width, margin_x) == icon_box,
{
}

/// Readings are rate-limited: once the battery has been read at `first`,
/// it is not due again before the update interval has passed.
pub proof fn lemma_readings_are_spaced(ind: BatteryIndicatorView, first: u64, second: u64)
    requires
        elapsed_ms(ind.last_updated_ms, first) >= BATTERY_UPDATE_INTERVAL_MS,
        first <= second < first + BATTERY_UPDATE_INTERVAL_MS,
    ensures
        elapsed_ms((BatteryIndicatorView { last_updated_ms: first, ..ind }).last_updated_ms, second)
            < BATTERY_UPDATE_INTERVAL_MS,
{
}

/// The time elapsed is the difference of the clock readings when the clock
/// has not gone back, and nothing otherwise.
pub proof fn lemma_elapsed_is_clock_difference(since: u64, now: u64)
    ensures
        now >= since ==> elapsed_ms(since, now) == now - since,
        now < since ==> elapsed_ms(since, now) == 0,
        elapsed_ms(since, now) >= 0,
{
}

/// A reading is due exactly when the update interval has passed since the
/// last one: an indicator last read at `t` is due at every `now` at least
/// the interval after `t`, and at no earlier time.
pub proof fn lemma_reading_due_after_interval(ind: BatteryIndicatorView, now: u64)
    ensures
        now >= ind.last_updated_ms + BATTERY_UPDATE_INTERVAL_MS
            ==> elapsed_ms(ind.last_updated_ms, now) >= BATTERY_UPDATE_INTERVAL_MS,
        now < ind.last_updated_ms + BATTERY_UPDATE_INTERVAL_MS
            ==> elapsed_ms(ind.last_updated_ms, now) < BATTERY_UPDATE_INTERVAL_MS,
{
}

/// Laying the indicator out makes the icon show the latest reading of the
/// battery, whatever reading the indicator compares with, and puts the
/// icon's right edge the label's gap to the left of the indicator's.
pub proof fn lemma_layout_shows_latest_reading(ind: BatteryIndicatorView, label_width: u32, margin_x: i32)
    requires
        layout_fits(ind, label_width, margin_x),
    ensures
        spec_layout(ind, label_width, margin_x).icon_state == Some(ind.reading),
        spec_layout(ind, label_width, margin_x).reading == ind.reading,
        spec_layout(ind, label_width, margin_x).last_state == ind.last_state,
        spec_layout(ind, label_width, margin_x).icon_point.x + label_gap(ind.label is Some, label_width, margin_x)
            == ind.point.x,
        spec_layout(ind, label_width, margin_x).icon_point.y == ind.point.y,
{
}

} // verus!
