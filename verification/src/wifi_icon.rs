use vstd::prelude::*;

use crate::geom::{Point, Rect, Size};

verus! {

/// How the WiFi icon is drawn: from a pair of theme images, of which only
/// the sizes matter here, or as vector arcs.
#[derive(Clone, Copy, Debug, PartialEq, Eq, Structural)]
pub enum WifiIconVariant {
    Image { connected: Size, disconnected: Size },
    Vector,
}

/// What drawing the icon amounts to.
#[derive(Clone, Copy, Debug, PartialEq, Eq, Structural)]
pub enum WifiDrawing {
    /// Draw the connected or the disconnected image with its top-left corner at `at`.
    Image { connected: bool, at: Point },
    /// Draw the arcs and the dot around `anchor`: in the status-bar text
    /// colour when connected, in the disabled colour with a slash otherwise.
    Vector { connected: bool, anchor: Point },
}

/// The state of a WiFi icon.
pub struct WifiIconView {
    pub variant: WifiIconVariant,
    pub point: Point,
    pub connected: bool,
    pub dirty: bool,
}

/// The WiFi icon of the status bar. Its right edge stands at `point`.
pub struct WifiIcon {
    variant: WifiIconVariant,
    point: Point,
    connected: bool,
    dirty: bool,
}

impl View for WifiIcon {
    type V = WifiIconView;

    closed spec fn view(&self) -> WifiIconView {
        WifiIconView {
            variant: self.variant,
            point: self.point,
            connected: self.connected,
            dirty: self.dirty,
        }
    }
}

/// The variant that loading the theme images gives: images when both
/// loaded, vector drawing when either failed.
pub open spec fn spec_variant(connected: Option<Size>, disconnected: Option<Size>) -> WifiIconVariant {
    match (connected, disconnected) {
        (Some(c), Some(d)) => WifiIconVariant::Image { connected: c, disconnected: d },
        _ => WifiIconVariant::Vector,
    }
}

/// The size the icon takes; `vector_size` is the size of the vector drawing.
pub open spec fn spec_icon_size(icon: WifiIconView, vector_size: Size) -> Size {
    match icon.variant {
        WifiIconVariant::Image { connected, disconnected } => if icon.connected {
            connected
        } else {
            disconnected
        },
        WifiIconVariant::Vector => vector_size,
    }
}

/// The area the icon covers: its size, to the left of `point`.
pub open spec fn spec_bounding_box(icon: WifiIconView, vector_size: Size) -> Rect {
    let size = spec_icon_size(icon, vector_size);
    Rect { x: (icon.point.x - (size.w as i32)) as i32, y: icon.point.y, w: size.w, h: size.h }
}

/// What drawing the icon would do now, or `None` when it is up to date.
pub open spec fn spec_draw_request(icon: WifiIconView) -> Option<WifiDrawing> {
    if !icon.dirty {
        None
    } else {
        match icon.variant {
            WifiIconVariant::Image { connected, disconnected } => {
                let w = if icon.connected { connected.w } else { disconnected.w };
                Some(WifiDrawing::Image {
                    connected: icon.connected,
                    at: Point { x: (icon.point.x - (w as i32)) as i32, y: icon.point.y },
                })
            },
            WifiIconVariant::Vector => Some(WifiDrawing::Vector { connected: icon.connected, anchor: icon.point }),
        }
    }
}

/// The inputs on which placing the image stays within `i32`.
pub open spec fn draw_fits(icon: WifiIconView) -> bool {
    match icon.variant {
        WifiIconVariant::Image { .. } => {
            let w = spec_icon_size(icon, Size { w: 0, h: 0 }).w;
            i32::MIN <= icon.point.x - (w as i32) <= i32::MAX
        },
        WifiIconVariant::Vector => true,
    }
}

/// The icon once drawn.
pub open spec fn spec_drawn(icon: WifiIconView) -> WifiIconView {
    WifiIconView { dirty: false, ..icon }
}

/// The state after telling the icon whether WiFi is connected: it is marked
/// for redrawing only when the state changes.
pub open spec fn spec_with_connected(icon: WifiIconView, connected: bool) -> WifiIconView {
    if icon.connected != connected {
        WifiIconView { connected, dirty: true, ..icon }
    } else {
        icon
    }
}

impl WifiIconVariant {
    /// The variant to use given the outcome of loading the connected and the
    /// disconnected theme image (their sizes, or `None` when loading failed).
    pub fn from_loaded(connected: Option<Size>, disconnected: Option<Size>) -> (v: WifiIconVariant)
        ensures
            v == spec_variant(connected, disconnected),
    {
        match (connected, disconnected) {
            (Some(c), Some(d)) => WifiIconVariant::Image { connected: c, disconnected: d },
            _ => WifiIconVariant::Vector,
        }
    }
}

impl WifiIcon {
    /// A disconnected icon at `point`, due to be drawn.
    pub fn new(point: Point, variant: WifiIconVariant) -> (icon: WifiIcon)
        ensures
            icon@.variant == variant,
            icon@.point == point,
            !icon@.connected,
            icon@.dirty,
    {
        WifiIcon { variant, point, connected: false, dirty: true }
    }

    /// Records whether WiFi is connected.
    pub fn set_connected(&mut self, connected: bool)
        ensures
            final(self)@ == spec_with_connected(old(self)@, connected),
            final(self)@.connected == connected,
            final(self)@.dirty == (old(self)@.dirty || old(self)@.connected != connected),
            final(self)@.variant == old(self)@.variant,
            final(self)@.point == old(self)@.point,
    {
        if self.connected != connected {
            self.connected = connected;
            self.dirty = true;
        }
    }

    /// The size of the icon as drawn now; `vector_size` is the size of the
    /// vector drawing under the current stylesheet.
    pub fn icon_size(&self, vector_size: Size) -> (s: Size)
        ensures
            s == spec_icon_size(self@, vector_size),
            self@.variant matches WifiIconVariant::Image { connected, disconnected }
                ==> s == (if self@.connected { connected } else { disconnected }),
            self@.variant is Vector ==> s == vector_size,
    {
        match self.variant {
            WifiIconVariant::Image { connected, disconnected } => {
                if self.connected {
                    connected
                } else {
                    disconnected
                }
            },
            WifiIconVariant::Vector => vector_size,
        }
    }

    /// Whether placing the image stays within `i32`, which `draw_request` needs.
    pub fn draw_fits(&self) -> (b: bool)
        ensures
            b == draw_fits(self@),
    {
        match self.variant {
            WifiIconVariant::Image { .. } => {
                let w = self.icon_size(Size::new(0, 0)).w;
                let x = self.point.x as i64 - (w as i32) as i64;
                i32::MIN as i64 <= x && x <= i32::MAX as i64
            },
            WifiIconVariant::Vector => true,
        }
    }

    /// Whether measuring the icon stays within `i32`, which `bounding_box` needs.
    pub fn bounding_box_fits(&self, vector_size: Size) -> (b: bool)
        ensures
            b == (i32::MIN <= self@.point.x - (spec_icon_size(self@, vector_size).w as i32) <= i32::MAX),
    {
        let w = self.icon_size(vector_size).w;
        let x = self.point.x as i64 - (w as i32) as i64;
        i32::MIN as i64 <= x && x <= i32::MAX as i64
    }

    /// What to draw, or `None` when the icon is up to date.
    pub fn draw_request(&self) -> (d: Option<WifiDrawing>)
        requires
            self@.dirty ==> draw_fits(self@),
        ensures
            d == spec_draw_request(self@),
    {
        if !self.dirty {
            return None;
        }
        match self.variant {
            WifiIconVariant::Image { connected, disconnected } => {
                let w: u32 = if self.connected { connected.w } else { disconnected.w };
                Some(WifiDrawing::Image {
                    connected: self.connected,
                    at: Point::new(self.point.x - w as i32, self.point.y),
                })
            },
            WifiIconVariant::Vector => Some(WifiDrawing::Vector { connected: self.connected, anchor: self.point }),
        }
    }

    /// Records that the icon has been drawn.
    pub fn finish_draw(&mut self)
        ensures
            final(self)@ == spec_drawn(old(self)@),
            !final(self)@.dirty,
            final(self)@.connected == old(self)@.connected,
            final(self)@.point == old(self)@.point,
            final(self)@.variant == old(self)@.variant,
    {
        self.dirty = false;
    }

    pub fn should_draw(&self) -> (b: bool)
        ensures
            b == self@.dirty,
    {
        self.dirty
    }

    pub fn set_should_draw(&mut self)
        ensures
            final(self)@ == (WifiIconView { dirty: true, ..old(self)@ }),
    {
        self.dirty = true;
    }

    /// The area the icon covers: its size, with its right edge at `point`.
    pub fn bounding_box(&self, vector_size: Size) -> (r: Rect)
        requires
            i32::MIN <= self@.point.x - (spec_icon_size(self@, vector_size).w as i32) <= i32::MAX,
        ensures
            r == spec_bounding_box(self@, vector_size),
    {
        let size = self.icon_size(vector_size);
        let left: i32 = self.point.x - size.w as i32;
        Rect::new(left, self.point.y, size.w, size.h)
    }

    /// Moves the icon's right edge to `point` and marks it for redrawing.
    pub fn set_position(&mut self, point: Point)
        ensures
            final(self)@ == (WifiIconView { point, dirty: true, ..old(self)@ }),
    {
        self.point = point;
        self.dirty = true;
    }

    pub fn point(&self) -> (p: Point)
        ensures
            p == self@.point,
    {
        self.point
    }

    pub fn connected(&self) -> (b: bool)
        ensures
            b == self@.connected,
    {
        self.connected
    }

    pub fn variant(&self) -> (v: WifiIconVariant)
        ensures
            v == self@.variant,
    {
        self.variant
    }
}

/// Telling the icon the same connection state twice does no more than
/// telling it once.
pub proof fn lemma_set_connected_idempotent(icon: WifiIconView, connected: bool)
    ensures
        spec_with_connected(spec_with_connected(icon, connected), connected)
            == spec_with_connected(icon, connected),
{
}

/// A change of the connection state is always drawn, and an icon that has
/// been drawn is not drawn again until something changes.
pub proof fn lemma_changes_are_drawn(icon: WifiIconView, connected: bool)
    ensures
        icon.connected != connected ==> spec_draw_request(spec_with_connected(icon, connected)) is Some,
        spec_draw_request(WifiIconView { dirty: false, ..icon }) is None,
        !icon.dirty && icon.connected == connected ==> spec_draw_request(spec_with_connected(icon, connected)) is None,
{
}

/// The icon is right-aligned: its bounding box ends at its point.
pub proof fn lemma_bounding_box_ends_at_point(icon: WifiIconView, vector_size: Size)
    requires
        spec_icon_size(icon, vector_size).w <= i32::MAX,
        i32::MIN <= icon.point.x - spec_icon_size(icon, vector_size).w,
    ensures
        spec_bounding_box(icon, vector_size).x + spec_bounding_box(icon, vector_size).w == icon.point.x,
        spec_bounding_box(icon, vector_size).y == icon.point.y,
{
}

/// A theme image is drawn at the top-left corner of the icon's bounding box.
pub proof fn lemma_image_drawn_in_bounding_box(icon: WifiIconView, vector_size: Size)
    requires
        icon.variant is Image,
        icon.dirty,
    ensures
        spec_draw_request(icon) == Some(WifiDrawing::Image {
            connected: icon.connected,
            at: Point { x: spec_bounding_box(icon, vector_size).x, y: spec_bounding_box(icon, vector_size).y },
        }),
{
}

/// Drawing twice in a row draws once: after the icon has been drawn, asking
/// again finds nothing to draw and leaves the icon as it is.
pub proof fn lemma_second_draw_draws_nothing(icon: WifiIconView)
    ensures
        spec_draw_request(spec_drawn(icon)) is None,
        !spec_drawn(icon).dirty,
        spec_drawn(spec_drawn(icon)) == spec_drawn(icon),
{
}

/// Whether a drawing is requested, and it shows the icon in the given
/// connection state.
pub open spec fn shows_connection(d: Option<WifiDrawing>, connected: bool) -> bool {
    match d {
        Some(WifiDrawing::Image { connected: c, .. }) => c == connected,
        Some(WifiDrawing::Vector { connected: c, .. }) => c == connected,
        None => false,
    }
}

/// Telling the icon a connection state makes that its state: the icon then
/// reports it and, when it differs from the previous one, redraws showing
/// it; the variant and the point stay.
pub proof fn lemma_set_connected_records_state(icon: WifiIconView, connected: bool)
    ensures
        spec_with_connected(icon, connected).connected == connected,
        spec_with_connected(icon, connected).dirty == (icon.dirty || icon.connected != connected),
        spec_with_connected(icon, connected).variant == icon.variant,
        spec_with_connected(icon, connected).point == icon.point,
        icon.connected != connected && icon.variant is Vector ==> spec_draw_request(spec_with_connected(icon, connected))
            == Some(WifiDrawing::Vector { connected, anchor: icon.point }),
        icon.connected != connected ==> shows_connection(spec_draw_request(spec_with_connected(icon, connected)), connected),
{
}

} // verus!
