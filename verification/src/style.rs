use vstd::prelude::*;

verus! {

/// How a label stands relative to its point.
#[derive(Clone, Copy, Debug, PartialEq, Eq, Structural)]
pub enum Alignment {
    Left,
    Center,
    Right,
}

/// A colour of the stylesheet, named by its role.
#[derive(Clone, Copy, Debug, PartialEq, Eq, Structural)]
pub enum StylesheetColor {
    /// The colour of status-bar text.
    StatusBar,
    /// The outline colour of status-bar text.
    StatusBarStroke,
}

/// A font size of the stylesheet, named by its role.
#[derive(Clone, Copy, Debug, PartialEq, Eq, Structural)]
pub enum FontSize {
    /// The size of the UI font.
    Ui,
    /// The size of status-bar text.
    StatusBar,
}

/// How a label is drawn. `None` stands for the label's defaults.
#[derive(Clone, Copy, Debug, PartialEq, Eq, Structural)]
pub struct LabelStyle {
    pub alignment: Alignment,
    pub font_size: Option<FontSize>,
    pub color: Option<StylesheetColor>,
    pub stroke_color: Option<StylesheetColor>,
}

/// The style of the battery percentage: right-aligned, in the status-bar
/// font size, colour and outline colour.
pub open spec fn battery_label_style() -> LabelStyle {
    LabelStyle {
        alignment: Alignment::Right,
        font_size: Some(FontSize::StatusBar),
        color: Some(StylesheetColor::StatusBar),
        stroke_color: Some(StylesheetColor::StatusBarStroke),
    }
}

/// A label with its defaults and the given alignment.
pub open spec fn plain_label_style(alignment: Alignment) -> LabelStyle {
    LabelStyle { alignment, font_size: None, color: None, stroke_color: None }
}

impl LabelStyle {
    /// The style of the battery percentage.
    pub fn battery() -> (s: LabelStyle)
        ensures
            s == battery_label_style(),
    {
        LabelStyle {
            alignment: Alignment::Right,
            font_size: Some(FontSize::StatusBar),
            color: Some(StylesheetColor::StatusBar),
            stroke_color: Some(StylesheetColor::StatusBarStroke),
        }
    }

    /// A label with its defaults and the given alignment.
    pub fn plain(alignment: Alignment) -> (s: LabelStyle)
        ensures
            s == plain_label_style(alignment),
    {
        LabelStyle { alignment, font_size: None, color: None, stroke_color: None }
    }
}

} // verus!
