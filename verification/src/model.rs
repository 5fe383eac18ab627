//! The widget description model: a serializable, recursive tree of
//! `Widget` records.  A tree of these records is the sole input to the
//! construction engine; every field but the type tag is optional.

use vstd::prelude::*;

verus! {

/// A decimal number carried as a count of millionths, so that range
/// attributes such as `minimum` or `step` can be stored and compared
/// exactly.  The boundary that talks to the toolkit converts between
/// this representation and the toolkit's own floating-point values.
#[derive(Clone, Copy, Debug, PartialEq, Eq, Structural)]
pub struct Decimal {
    /// The value in millionths: `micros == 1_500_000` stands for 1.5.
    pub micros: i64,
}

impl Decimal {
    /// The decimal for a whole number of units.
    pub fn from_units(units: i32) -> (r: Decimal)
        ensures
            r.micros == units * 1_000_000,
    {
        Decimal { micros: (units as i64) * 1_000_000 }
    }
}

/// One node of the description tree.  `widget` holds the type tag that
/// the factory resolves against its registry; all other fields are
/// optional attributes, applied only when the resolved kind supports
/// them.  `children` carries the subtrees in document order, which is
/// also construction order.
#[derive(Debug)]
pub struct Widget {
    /// Required type tag; an unrecognized tag makes the node and its
    /// whole subtree a no-op.
    pub widget: String,
    /// Label text.
    pub label: Option<String>,
    /// Identifier for later lookup-by-id.
    pub id: Option<String>,
    /// Size share along the primary axis when the parent is a
    /// directional flexible container.
    pub fixed: Option<i32>,
    /// Background color as a hex string such as `#ff8800`.
    pub color: Option<String>,
    /// Label color as a hex string.
    pub labelcolor: Option<String>,
    /// Subtrees, in document order; absent for leaf nodes.
    pub children: Option<Vec<Widget>>,
    /// Hide the widget when true.
    pub hide: Option<bool>,
    /// Disable the widget when true.
    pub deactivate: Option<bool>,
    /// Show the widget when true.
    pub visible: Option<bool>,
    /// Make this widget the resize anchor of its container.
    pub resizable: Option<bool>,
    /// Selection color as a hex string.
    pub selectioncolor: Option<String>,
    /// Tooltip text.
    pub tooltip: Option<String>,
    /// Path of the image file.
    pub image: Option<String>,
    /// Path of the image file shown while deactivated.
    pub deimage: Option<String>,
    /// Label font index into the toolkit's font table.
    pub labelfont: Option<u32>,
    /// Label size in points.
    pub labelsize: Option<i32>,
    /// Alignment bit mask, transmitted as a raw integer.
    pub align: Option<i32>,
    /// Event-firing condition bit mask, transmitted as a raw integer.
    pub when: Option<i32>,
    /// Named frame style, resolved through the frame-style registry.
    pub frame: Option<String>,
    /// Named frame style shown while pressed; buttons only.
    pub downframe: Option<String>,
    /// Shortcut key code, string-encoded; buttons only.
    pub shortcut: Option<String>,
    /// Gap between the children of a flexible container.
    pub pad: Option<i32>,
    /// Lower bound of a range control.
    pub minimum: Option<Decimal>,
    /// Upper bound of a range control.
    pub maximum: Option<Decimal>,
    /// Step of a range control, over a fixed denominator of one.
    pub step: Option<Decimal>,
    /// Displayed slider-thumb size of a range control.
    pub slidersize: Option<Decimal>,
    /// Text font index into the toolkit's font table.
    pub textfont: Option<i32>,
    /// Text size in points.
    pub textsize: Option<i32>,
    /// Text color as a hex string.
    pub textcolor: Option<String>,
    /// Absolute horizontal position override.
    pub x: Option<i32>,
    /// Absolute vertical position override.
    pub y: Option<i32>,
    /// Absolute width override.
    pub w: Option<i32>,
    /// Absolute height override.
    pub h: Option<i32>,
    /// Margin on every side of a flexible container.
    pub margin: Option<i32>,
    /// Left margin of a flexible container.
    pub left: Option<i32>,
    /// Top margin of a flexible container.
    pub top: Option<i32>,
    /// Right margin of a flexible container.
    pub right: Option<i32>,
    /// Bottom margin of a flexible container.
    pub bottom: Option<i32>,
}

impl Widget {
    /// A node carrying only a type tag, every attribute left unset.
    /// Descriptions built in code start from this and fill in fields.
    pub fn bare(tag: String) -> (r: Widget)
        ensures
            r.widget == tag,
            r.label is None,
            r.id is None,
            r.children is None,
    {
        Widget {
            widget: tag,
            label: None,
            id: None,
            fixed: None,
            color: None,
            labelcolor: None,
            children: None,
            hide: None,
            deactivate: None,
            visible: None,
            resizable: None,
            selectioncolor: None,
            tooltip: None,
            image: None,
            deimage: None,
            labelfont: None,
            labelsize: None,
            align: None,
            when: None,
            frame: None,
            downframe: None,
            shortcut: None,
            pad: None,
            minimum: None,
            maximum: None,
            step: None,
            slidersize: None,
            textfont: None,
            textsize: None,
            textcolor: None,
            x: None,
            y: None,
            w: None,
            h: None,
            margin: None,
            left: None,
            top: None,
            right: None,
            bottom: None,
        }
    }
}

} // verus!
