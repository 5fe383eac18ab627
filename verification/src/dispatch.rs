//! The construction engine: the capability dispatcher and the widget
//! factory.
//!
//! [`transform`] resolves a description node's type tag, plans every
//! attribute that the resolved kind's capabilities support, and
//! recurses into the children in document order.  The result is a
//! [`BuiltWidget`] tree: one record per constructed widget, holding
//! the kind, the attribute operations in application order, and the
//! children.  The toolkit boundary realizes such a tree by creating
//! each widget while its parent's scope is open, applying the listed
//! attributes, and closing a container's scope only after all of its
//! children are attached.
//!
//! Attribute failures are per-attribute and silent: a malformed color
//! or shortcut, an out-of-range font or alignment, or an unknown frame
//! style simply leaves that attribute out of the plan.  An unknown
//! type tag is the only node-level failure and drops the node with its
//! whole subtree.

use crate::frames::frame_of;
use crate::frames::get_frame;
use crate::kinds::caps_of;
use crate::kinds::has_buffer;
use crate::kinds::is_button;
use crate::kinds::is_container;
use crate::kinds::is_flex;
use crate::kinds::is_range;
use crate::kinds::is_text;
use crate::kinds::kind_of;
use crate::kinds::kind_of_tag;
use crate::kinds::WidgetKind;
use crate::model::Decimal;
use crate::model::Widget;
use crate::parse::color_of;
use crate::parse::parse_color;
use crate::parse::parse_shortcut;
use crate::parse::shortcut_of;
use crate::parse::str_eq;
use vstd::prelude::*;

verus! {

/// Number of entries in the toolkit's font table; a font index at or
/// above this bound is never applied.
pub const FONT_COUNT: u32 = 14;

/// Exclusive upper bound of the alignment bit mask: every known
/// alignment flag lies below it, so any larger value holds an unknown
/// bit and is never applied.
pub const ALIGN_LIMIT: i32 = 0x400;

/// Exclusive upper bound of the event-condition bit mask.
pub const WHEN_LIMIT: i32 = 32;

/// One planned attribute operation, in the order the toolkit boundary
/// applies them.  `S` is the carrier of text payloads: owned strings
/// in the executable plan, character sequences in its mathematical
/// view.
#[derive(Debug)]
pub enum Attr<S> {
    /// Create the editable text buffer the kind owns.
    MakeBuffer,
    /// Set the text color to the parsed 24-bit value.
    TextColor(u32),
    /// Set the text font to a validated font-table index.
    TextFont(i32),
    /// Set the text size.
    TextSize(i32),
    /// Record the identifier for later lookup-by-id.
    Id(S),
    /// Set the label text.
    Label(S),
    /// Override the geometry; an absent side keeps the widget's
    /// current value.
    Bounds(Option<i32>, Option<i32>, Option<i32>, Option<i32>),
    /// Pin this child's extent along its flexible parent's axis.
    Fixed(i32),
    /// Set the margin on every side of a flexible container.
    Margin(i32),
    /// Override the four directional margins; an absent side keeps the
    /// container's current value.
    Margins(Option<i32>, Option<i32>, Option<i32>, Option<i32>),
    /// Set the gap between a flexible container's children.
    Pad(i32),
    /// Set the background color.
    Color(u32),
    /// Set the selection color.
    SelectionColor(u32),
    /// Set the label color.
    LabelColor(u32),
    /// Hide the widget.
    Hide,
    /// Disable the widget.
    Deactivate,
    /// Show the widget.
    Show,
    /// Make this container the resizing anchor of its own children.
    ResizableSelf,
    /// Ask the parent to treat this widget as its resize anchor.
    ResizableInParent,
    /// Set the tooltip text.
    Tooltip(S),
    /// Load and set the image from this path.
    Image(S),
    /// Load and set the deactivated image from this path.
    DeImage(S),
    /// Set the label size.
    LabelSize(i32),
    /// Set the validated alignment mask.
    Align(i32),
    /// Set the validated event-condition mask.
    When(i32),
    /// Set the label font to a validated font-table index.
    LabelFont(u32),
    /// Set the frame style to a registry index.
    Frame(u8),
    /// Set the pressed frame style to a registry index.
    DownFrame(u8),
    /// Set the parsed shortcut key code.
    Shortcut(i32),
    /// Set the lower bound of a range control.
    Minimum(Decimal),
    /// Set the upper bound of a range control.
    Maximum(Decimal),
    /// Set the displayed slider-thumb size of a range control.
    SliderSize(Decimal),
    /// Set the step of a range control, over a denominator of one.
    Step(Decimal),
}

/// The mathematical view of a planned attribute.
pub type AttrV = Attr<Seq<char>>;

/// The view of one executable attribute: text payloads become
/// character sequences.
pub open spec fn attr_view(a: Attr<String>) -> AttrV {
    match a {
        Attr::MakeBuffer => Attr::MakeBuffer,
        Attr::TextColor(v) => Attr::TextColor(v),
        Attr::TextFont(v) => Attr::TextFont(v),
        Attr::TextSize(v) => Attr::TextSize(v),
        Attr::Id(s) => Attr::Id(s@),
        Attr::Label(s) => Attr::Label(s@),
        Attr::Bounds(x, y, w, h) => Attr::Bounds(x, y, w, h),
        Attr::Fixed(v) => Attr::Fixed(v),
        Attr::Margin(v) => Attr::Margin(v),
        Attr::Margins(l, t, r, b) => Attr::Margins(l, t, r, b),
        Attr::Pad(v) => Attr::Pad(v),
        Attr::Color(v) => Attr::Color(v),
        Attr::SelectionColor(v) => Attr::SelectionColor(v),
        Attr::LabelColor(v) => Attr::LabelColor(v),
        Attr::Hide => Attr::Hide,
        Attr::Deactivate => Attr::Deactivate,
        Attr::Show => Attr::Show,
        Attr::ResizableSelf => Attr::ResizableSelf,
        Attr::ResizableInParent => Attr::ResizableInParent,
        Attr::Tooltip(s) => Attr::Tooltip(s@),
        Attr::Image(s) => Attr::Image(s@),
        Attr::DeImage(s) => Attr::DeImage(s@),
        Attr::LabelSize(v) => Attr::LabelSize(v),
        Attr::Align(v) => Attr::Align(v),
        Attr::When(v) => Attr::When(v),
        Attr::LabelFont(v) => Attr::LabelFont(v),
        Attr::Frame(v) => Attr::Frame(v),
        Attr::DownFrame(v) => Attr::DownFrame(v),
        Attr::Shortcut(v) => Attr::Shortcut(v),
        Attr::Minimum(v) => Attr::Minimum(v),
        Attr::Maximum(v) => Attr::Maximum(v),
        Attr::SliderSize(v) => Attr::SliderSize(v),
        Attr::Step(v) => Attr::Step(v),
    }
}

/// The views of a sequence of executable attributes.
pub open spec fn attr_views(s: Seq<Attr<String>>) -> Seq<AttrV> {
    Seq::new(s.len(), |i: int| attr_view(s[i]))
}

/// A singleton plan when the condition holds, else nothing.
pub open spec fn one(c: bool, a: AttrV) -> Seq<AttrV> {
    if c {
        seq![a]
    } else {
        Seq::empty()
    }
}

/// Buffer creation: kinds that own a text buffer create it before any
/// text attribute is applied.
#[verifier::opaque]
pub open spec fn buffer_attrs(buffer: bool) -> Seq<AttrV> {
    one(buffer, Attr::MakeBuffer)
}

/// Text styling, for text-capable kinds only.
#[verifier::opaque]
pub open spec fn text_attrs(w: Widget, text: bool) -> Seq<AttrV> {
    if text {
        one(
            w.textcolor is Some && color_of(w.textcolor->0@) is Some,
            Attr::TextColor(color_of(w.textcolor->0@)->0),
        ) + one(
            w.textfont is Some && 0 <= w.textfont->0 < FONT_COUNT,
            Attr::TextFont(w.textfont->0),
        ) + one(w.textsize is Some, Attr::TextSize(w.textsize->0))
    } else {
        Seq::empty()
    }
}

/// Identity and labeling.
#[verifier::opaque]
pub open spec fn identity_attrs(w: Widget) -> Seq<AttrV> {
    one(w.id is Some, Attr::Id(w.id->0@)) + one(w.label is Some, Attr::Label(w.label->0@))
}

/// Absolute geometry: planned as soon as any of the four sides is
/// present; the absent sides keep the widget's current values.
#[verifier::opaque]
pub open spec fn geometry_attrs(w: Widget) -> Seq<AttrV> {
    one(
        w.x is Some || w.y is Some || w.w is Some || w.h is Some,
        Attr::Bounds(w.x, w.y, w.w, w.h),
    )
}

/// Fixed extent, meaningful only under a flexible parent.
#[verifier::opaque]
pub open spec fn flex_child_attrs(w: Widget, parent_flex: bool) -> Seq<AttrV> {
    one(parent_flex && w.fixed is Some, Attr::Fixed(w.fixed->0))
}

/// Margins and child gap, meaningful only when the node itself is a
/// flexible container.
#[verifier::opaque]
pub open spec fn flex_container_attrs(w: Widget, flex: bool) -> Seq<AttrV> {
    if flex {
        one(w.margin is Some, Attr::Margin(w.margin->0)) + one(
            w.left is Some || w.top is Some || w.right is Some || w.bottom is Some,
            Attr::Margins(w.left, w.top, w.right, w.bottom),
        ) + one(w.pad is Some, Attr::Pad(w.pad->0))
    } else {
        Seq::empty()
    }
}

/// The three color attributes; a malformed hex string plans nothing.
#[verifier::opaque]
pub open spec fn color_attrs(w: Widget) -> Seq<AttrV> {
    one(
        w.color is Some && color_of(w.color->0@) is Some,
        Attr::Color(color_of(w.color->0@)->0),
    ) + one(
        w.selectioncolor is Some && color_of(w.selectioncolor->0@) is Some,
        Attr::SelectionColor(color_of(w.selectioncolor->0@)->0),
    ) + one(
        w.labelcolor is Some && color_of(w.labelcolor->0@) is Some,
        Attr::LabelColor(color_of(w.labelcolor->0@)->0),
    )
}

/// Visibility and activation; hidden and disabled are independent.
#[verifier::opaque]
pub open spec fn visibility_attrs(w: Widget) -> Seq<AttrV> {
    one(w.hide == Some(true), Attr::Hide) + one(w.deactivate == Some(true), Attr::Deactivate)
        + one(w.visible == Some(true), Attr::Show)
}

/// Resize anchoring: a container anchors its own children, a leaf
/// asks its parent.
#[verifier::opaque]
pub open spec fn resize_attrs(w: Widget, container: bool) -> Seq<AttrV> {
    one(w.resizable == Some(true) && container, Attr::ResizableSelf) + one(
        w.resizable == Some(true) && !container,
        Attr::ResizableInParent,
    )
}

/// Tooltip and images.
#[verifier::opaque]
pub open spec fn adorn_attrs(w: Widget) -> Seq<AttrV> {
    one(w.tooltip is Some, Attr::Tooltip(w.tooltip->0@)) + one(
        w.image is Some,
        Attr::Image(w.image->0@),
    ) + one(w.deimage is Some, Attr::DeImage(w.deimage->0@))
}

/// Label styling; font and mask values are range-checked and an
/// out-of-range value plans nothing.
#[verifier::opaque]
pub open spec fn label_style_attrs(w: Widget) -> Seq<AttrV> {
    one(w.labelsize is Some, Attr::LabelSize(w.labelsize->0)) + one(
        w.align is Some && 0 <= w.align->0 < ALIGN_LIMIT,
        Attr::Align(w.align->0),
    ) + one(w.when is Some && 0 <= w.when->0 < WHEN_LIMIT, Attr::When(w.when->0)) + one(
        w.labelfont is Some && w.labelfont->0 < FONT_COUNT,
        Attr::LabelFont(w.labelfont->0),
    )
}

/// Frame style, resolved through the registry; an unknown name plans
/// nothing.
#[verifier::opaque]
pub open spec fn frame_attrs(w: Widget) -> Seq<AttrV> {
    one(
        w.frame is Some && frame_of(w.frame->0@) is Some,
        Attr::Frame(frame_of(w.frame->0@)->0),
    )
}

/// Pressed frame style and shortcut key, for button kinds only.
#[verifier::opaque]
pub open spec fn button_attrs(w: Widget, button: bool) -> Seq<AttrV> {
    if button {
        one(
            w.downframe is Some && frame_of(w.downframe->0@) is Some,
            Attr::DownFrame(frame_of(w.downframe->0@)->0),
        ) + one(
            w.shortcut is Some && shortcut_of(w.shortcut->0@) is Some,
            Attr::Shortcut(shortcut_of(w.shortcut->0@)->0),
        )
    } else {
        Seq::empty()
    }
}

/// Numeric range, for range controls only.
#[verifier::opaque]
pub open spec fn range_attrs(w: Widget, range: bool) -> Seq<AttrV> {
    if range {
        one(w.minimum is Some, Attr::Minimum(w.minimum->0)) + one(
            w.maximum is Some,
            Attr::Maximum(w.maximum->0),
        ) + one(w.slidersize is Some, Attr::SliderSize(w.slidersize->0)) + one(
            w.step is Some,
            Attr::Step(w.step->0),
        )
    } else {
        Seq::empty()
    }
}

/// Every attribute the dispatcher applies for a node of kind `k`, in
/// application order: exactly those whose capability the kind
/// possesses and whose value is present and well formed.
#[verifier::opaque]
pub open spec fn planned_attrs(w: Widget, k: WidgetKind, parent_flex: bool) -> Seq<AttrV> {
    buffer_attrs(has_buffer(k)) + text_attrs(w, is_text(k)) + identity_attrs(w) + geometry_attrs(w)
        + flex_child_attrs(w, parent_flex) + flex_container_attrs(w, is_flex(k)) + color_attrs(w)
        + visibility_attrs(w) + resize_attrs(w, is_container(k)) + adorn_attrs(w)
        + label_style_attrs(w) + frame_attrs(w) + button_attrs(w, is_button(k)) + range_attrs(
        w,
        is_range(k),
    )
}

/// One constructed widget: its resolved kind, the attribute operations
/// in application order, and the children in document order.
#[derive(Debug)]
pub struct BuiltWidget {
    /// The kind the node's tag resolved to.
    pub kind: WidgetKind,
    /// The planned attribute operations, in application order.
    pub attrs: Vec<Attr<String>>,
    /// The constructed children, in document order.
    pub children: Vec<BuiltWidget>,
}

/// The mathematical view of a constructed widget.
#[verifier::ext_equal]
pub ghost struct BuiltNode {
    /// The resolved kind.
    pub kind: WidgetKind,
    /// The attribute operations, in application order.
    pub attrs: Seq<AttrV>,
    /// The children, in document order.
    pub children: Seq<BuiltNode>,
}

/// The view of a constructed widget.
pub open spec fn built_view(b: BuiltWidget) -> BuiltNode
    decreases b,
{
    BuiltNode { kind: b.kind, attrs: attr_views(b.attrs@), children: built_views(b.children@) }
}

/// The views of a sequence of constructed widgets.
pub open spec fn built_views(s: Seq<BuiltWidget>) -> Seq<BuiltNode>
    decreases s,
{
    if s.len() == 0 {
        Seq::empty()
    } else {
        seq![built_view(s[0])] + built_views(s.drop_first())
    }
}

/// The views of a sequence of constructed widgets, element by
/// element.
pub broadcast proof fn lemma_built_views_index(s: Seq<BuiltWidget>)
    ensures
        (#[trigger] built_views(s)).len() == s.len(),
        forall|i: int| 0 <= i < s.len() ==> built_views(s)[i] == built_view(s[i]),
    decreases s,
{
    if s.len() > 0 {
        lemma_built_views_index(s.drop_first());
    }
}

/// The view of an optional constructed widget.
pub open spec fn opt_built_view(r: Option<BuiltWidget>) -> Option<BuiltNode> {
    match r {
        Some(b) => Some(built_view(b)),
        None => None,
    }
}

/// What building a node yields: nothing for an unregistered tag; for a
/// registered one, a widget of the resolved kind carrying the planned
/// attributes and the built children of the registered subtrees, in
/// document order.
pub open spec fn spec_build(w: Widget, parent_flex: bool) -> Option<BuiltNode>
    decreases w,
{
    match kind_of(w.widget@) {
        None => None,
        Some(k) => Some(
            BuiltNode {
                kind: k,
                attrs: planned_attrs(w, k, parent_flex),
                children: match w.children {
                    Some(v) => built_children(v@, is_flex(k)),
                    None => Seq::empty(),
                },
            },
        ),
    }
}

/// The built children of a sequence of subtrees: one widget per
/// registered tag, in document order; unregistered subtrees contribute
/// nothing.
pub open spec fn built_children(cs: Seq<Widget>, parent_flex: bool) -> Seq<BuiltNode>
    decreases cs,
{
    if cs.len() == 0 {
        Seq::empty()
    } else {
        match spec_build(cs[0], parent_flex) {
            Some(b) => seq![b] + built_children(cs.drop_first(), parent_flex),
            None => built_children(cs.drop_first(), parent_flex),
        }
    }
}


/// Pushing one attribute extends the views by that attribute's view.
pub broadcast proof fn lemma_attr_views_push(s: Seq<Attr<String>>, a: Attr<String>)
    ensures
        #[trigger] attr_views(s.push(a)) == attr_views(s).push(attr_view(a)),
{
    assert(attr_views(s.push(a)) =~= attr_views(s).push(attr_view(a)));
}

/// Plans the buffer-creation attribute.
fn push_buffer(buffer: bool, attrs: &mut Vec<Attr<String>>)
    ensures
        attr_views(final(attrs)@) == attr_views(old(attrs)@) + buffer_attrs(buffer),
{
    broadcast use lemma_attr_views_push;

    proof {
        reveal(crate::dispatch::buffer_attrs);
    }

    if buffer {
        attrs.push(Attr::MakeBuffer);
    }
    assert(attr_views(attrs@) =~= attr_views(old(attrs)@) + buffer_attrs(buffer));
}

/// Plans the text-styling attributes.
fn push_text(w: &Widget, text: bool, attrs: &mut Vec<Attr<String>>)
    ensures
        attr_views(final(attrs)@) == attr_views(old(attrs)@) + text_attrs(*w, text),
{
    broadcast use lemma_attr_views_push;

    proof {
        reveal(crate::dispatch::text_attrs);
    }

    if !text {
        assert(attr_views(attrs@) =~= attr_views(old(attrs)@) + text_attrs(*w, text));
        return;
    }
    let ghost b0 = attrs@;
    if let Some(c) = &w.textcolor {
        if let Some(v) = parse_color(c.as_str()) {
            attrs.push(Attr::TextColor(v));
        }
    }
    assert(attr_views(attrs@) =~= attr_views(b0) + one(
        w.textcolor is Some && color_of(w.textcolor->0@) is Some,
        Attr::TextColor(color_of(w.textcolor->0@)->0),
    ));
    let ghost b1 = attrs@;
    if let Some(f) = w.textfont {
        if 0 <= f && f < FONT_COUNT as i32 {
            attrs.push(Attr::TextFont(f));
        }
    }
    assert(attr_views(attrs@) =~= attr_views(b1) + one(
        w.textfont is Some && 0 <= w.textfont->0 < FONT_COUNT,
        Attr::TextFont(w.textfont->0),
    ));
    let ghost b2 = attrs@;
    if let Some(v) = w.textsize {
        attrs.push(Attr::TextSize(v));
    }
    assert(attr_views(attrs@) =~= attr_views(b2) + one(w.textsize is Some, Attr::TextSize(w.textsize->0)));
    assert(attr_views(attrs@) =~= attr_views(old(attrs)@) + text_attrs(*w, text));
}

/// Plans the identity and labeling attributes.
fn push_identity(w: &Widget, attrs: &mut Vec<Attr<String>>)
    ensures
        attr_views(final(attrs)@) == attr_views(old(attrs)@) + identity_attrs(*w),
{
    broadcast use lemma_attr_views_push;

    proof {
        reveal(crate::dispatch::identity_attrs);
    }

    let ghost b0 = attrs@;
    if let Some(id) = &w.id {
        attrs.push(Attr::Id(id.clone()));
    }
    assert(attr_views(attrs@) =~= attr_views(b0) + one(w.id is Some, Attr::Id(w.id->0@)));
    let ghost b1 = attrs@;
    if let Some(l) = &w.label {
        attrs.push(Attr::Label(l.clone()));
    }
    assert(attr_views(attrs@) =~= attr_views(b1) + one(w.label is Some, Attr::Label(w.label->0@)));
    assert(attr_views(attrs@) =~= attr_views(old(attrs)@) + identity_attrs(*w));
}

/// Plans the absolute geometry override.
fn push_geometry(w: &Widget, attrs: &mut Vec<Attr<String>>)
    ensures
        attr_views(final(attrs)@) == attr_views(old(attrs)@) + geometry_attrs(*w),
{
    broadcast use lemma_attr_views_push;

    proof {
        reveal(crate::dispatch::geometry_attrs);
    }

    if w.x.is_some() || w.y.is_some() || w.w.is_some() || w.h.is_some() {
        attrs.push(Attr::Bounds(w.x, w.y, w.w, w.h));
    }
    assert(attr_views(attrs@) =~= attr_views(old(attrs)@) + geometry_attrs(*w));
}

/// Plans the fixed extent under a flexible parent.
fn push_flex_child(w: &Widget, parent_flex: bool, attrs: &mut Vec<Attr<String>>)
    ensures
        attr_views(final(attrs)@) == attr_views(old(attrs)@) + flex_child_attrs(*w, parent_flex),
{
    broadcast use lemma_attr_views_push;

    proof {
        reveal(crate::dispatch::flex_child_attrs);
    }

    if parent_flex {
        if let Some(f) = w.fixed {
            attrs.push(Attr::Fixed(f));
        }
    }
    assert(attr_views(attrs@) =~= attr_views(old(attrs)@) + flex_child_attrs(*w, parent_flex));
}

/// Plans the margins and child gap of a flexible container.
fn push_flex_container(w: &Widget, flex: bool, attrs: &mut Vec<Attr<String>>)
    ensures
        attr_views(final(attrs)@) == attr_views(old(attrs)@) + flex_container_attrs(*w, flex),
{
    broadcast use lemma_attr_views_push;

    proof {
        reveal(crate::dispatch::flex_container_attrs);
    }

    if !flex {
        assert(attr_views(attrs@) =~= attr_views(old(attrs)@) + flex_container_attrs(*w, flex));
        return;
    }
    let ghost b0 = attrs@;
    if let Some(m) = w.margin {
        attrs.push(Attr::Margin(m));
    }
    assert(attr_views(attrs@) =~= attr_views(b0) + one(w.margin is Some, Attr::Margin(w.margin->0)));
    let ghost b1 = attrs@;
    if w.left.is_some() || w.top.is_some() || w.right.is_some() || w.bottom.is_some() {
        attrs.push(Attr::Margins(w.left, w.top, w.right, w.bottom));
    }
    assert(attr_views(attrs@) =~= attr_views(b1) + one(
        w.left is Some || w.top is Some || w.right is Some || w.bottom is Some,
        Attr::Margins(w.left, w.top, w.right, w.bottom),
    ));
    let ghost b2 = attrs@;
    if let Some(p) = w.pad {
        attrs.push(Attr::Pad(p));
    }
    assert(attr_views(attrs@) =~= attr_views(b2) + one(w.pad is Some, Attr::Pad(w.pad->0)));
    assert(attr_views(attrs@) =~= attr_views(old(attrs)@) + flex_container_attrs(*w, flex));
}

/// Plans the three color attributes.
fn push_colors(w: &Widget, attrs: &mut Vec<Attr<String>>)
    ensures
        attr_views(final(attrs)@) == attr_views(old(attrs)@) + color_attrs(*w),
{
    broadcast use lemma_attr_views_push;

    proof {
        reveal(crate::dispatch::color_attrs);
    }

    let ghost b0 = attrs@;
    if let Some(c) = &w.color {
        if let Some(v) = parse_color(c.as_str()) {
            attrs.push(Attr::Color(v));
        }
    }
    assert(attr_views(attrs@) =~= attr_views(b0) + one(
        w.color is Some && color_of(w.color->0@) is Some,
        Attr::Color(color_of(w.color->0@)->0),
    ));
    let ghost b1 = attrs@;
    if let Some(c) = &w.selectioncolor {
        if let Some(v) = parse_color(c.as_str()) {
            attrs.push(Attr::SelectionColor(v));
        }
    }
    assert(attr_views(attrs@) =~= attr_views(b1) + one(
        w.selectioncolor is Some && color_of(w.selectioncolor->0@) is Some,
        Attr::SelectionColor(color_of(w.selectioncolor->0@)->0),
    ));
    let ghost b2 = attrs@;
    if let Some(c) = &w.labelcolor {
        if let Some(v) = parse_color(c.as_str()) {
            attrs.push(Attr::LabelColor(v));
        }
    }
    assert(attr_views(attrs@) =~= attr_views(b2) + one(
        w.labelcolor is Some && color_of(w.labelcolor->0@) is Some,
        Attr::LabelColor(color_of(w.labelcolor->0@)->0),
    ));
    assert(attr_views(attrs@) =~= attr_views(old(attrs)@) + color_attrs(*w));
}

/// Plans hiding, disabling and showing.
fn push_visibility(w: &Widget, attrs: &mut Vec<Attr<String>>)
    ensures
        attr_views(final(attrs)@) == attr_views(old(attrs)@) + visibility_attrs(*w),
{
    broadcast use lemma_attr_views_push;

    proof {
        reveal(crate::dispatch::visibility_attrs);
    }

    let ghost b0 = attrs@;
    match w.hide {
        Some(true) => attrs.push(Attr::Hide),
        _ => (),
    }
    assert(attr_views(attrs@) =~= attr_views(b0) + one(w.hide == Some(true), Attr::Hide));
    let ghost b1 = attrs@;
    match w.deactivate {
        Some(true) => attrs.push(Attr::Deactivate),
        _ => (),
    }
    assert(attr_views(attrs@) =~= attr_views(b1) + one(w.deactivate == Some(true), Attr::Deactivate));
    let ghost b2 = attrs@;
    match w.visible {
        Some(true) => attrs.push(Attr::Show),
        _ => (),
    }
    assert(attr_views(attrs@) =~= attr_views(b2) + one(w.visible == Some(true), Attr::Show));
    assert(attr_views(attrs@) =~= attr_views(old(attrs)@) + visibility_attrs(*w));
}

/// Plans the resize anchoring.
fn push_resize(w: &Widget, container: bool, attrs: &mut Vec<Attr<String>>)
    ensures
        attr_views(final(attrs)@) == attr_views(old(attrs)@) + resize_attrs(*w, container),
{
    broadcast use lemma_attr_views_push;

    proof {
        reveal(crate::dispatch::resize_attrs);
    }

    let ghost b0 = attrs@;
    match w.resizable {
        Some(true) => {
            if container {
                attrs.push(Attr::ResizableSelf);
            } else {
                attrs.push(Attr::ResizableInParent);
            }
        },
        _ => (),
    }
    assert(attr_views(attrs@) =~= attr_views(b0) + one(
        w.resizable == Some(true) && container,
        Attr::ResizableSelf,
    ) + one(w.resizable == Some(true) && !container, Attr::ResizableInParent));
    assert(attr_views(attrs@) =~= attr_views(old(attrs)@) + resize_attrs(*w, container));
}

/// Plans the tooltip and the two images.
fn push_adorn(w: &Widget, attrs: &mut Vec<Attr<String>>)
    ensures
        attr_views(final(attrs)@) == attr_views(old(attrs)@) + adorn_attrs(*w),
{
    broadcast use lemma_attr_views_push;

    proof {
        reveal(crate::dispatch::adorn_attrs);
    }

    let ghost b0 = attrs@;
    if let Some(t) = &w.tooltip {
        attrs.push(Attr::Tooltip(t.clone()));
    }
    assert(attr_views(attrs@) =~= attr_views(b0) + one(w.tooltip is Some, Attr::Tooltip(w.tooltip->0@)));
    let ghost b1 = attrs@;
    if let Some(p) = &w.image {
        attrs.push(Attr::Image(p.clone()));
    }
    assert(attr_views(attrs@) =~= attr_views(b1) + one(w.image is Some, Attr::Image(w.image->0@)));
    let ghost b2 = attrs@;
    if let Some(p) = &w.deimage {
        attrs.push(Attr::DeImage(p.clone()));
    }
    assert(attr_views(attrs@) =~= attr_views(b2) + one(w.deimage is Some, Attr::DeImage(w.deimage->0@)));
    assert(attr_views(attrs@) =~= attr_views(old(attrs)@) + adorn_attrs(*w));
}

/// Plans the label styling, with range-checked font and masks.
fn push_label_style(w: &Widget, attrs: &mut Vec<Attr<String>>)
    ensures
        attr_views(final(attrs)@) == attr_views(old(attrs)@) + label_style_attrs(*w),
{
    broadcast use lemma_attr_views_push;

    proof {
        reveal(crate::dispatch::label_style_attrs);
    }

    let ghost b0 = attrs@;
    if let Some(v) = w.labelsize {
        attrs.push(Attr::LabelSize(v));
    }
    assert(attr_views(attrs@) =~= attr_views(b0) + one(w.labelsize is Some, Attr::LabelSize(w.labelsize->0)));
    let ghost b1 = attrs@;
    if let Some(a) = w.align {
        if 0 <= a && a < ALIGN_LIMIT {
            attrs.push(Attr::Align(a));
        }
    }
    assert(attr_views(attrs@) =~= attr_views(b1) + one(
        w.align is Some && 0 <= w.align->0 < ALIGN_LIMIT,
        Attr::Align(w.align->0),
    ));
    let ghost b2 = attrs@;
    if let Some(a) = w.when {
        if 0 <= a && a < WHEN_LIMIT {
            attrs.push(Attr::When(a));
        }
    }
    assert(attr_views(attrs@) =~= attr_views(b2) + one(
        w.when is Some && 0 <= w.when->0 < WHEN_LIMIT,
        Attr::When(w.when->0),
    ));
    let ghost b3 = attrs@;
    if let Some(f) = w.labelfont {
        if f < FONT_COUNT {
            attrs.push(Attr::LabelFont(f));
        }
    }
    assert(attr_views(attrs@) =~= attr_views(b3) + one(
        w.labelfont is Some && w.labelfont->0 < FONT_COUNT,
        Attr::LabelFont(w.labelfont->0),
    ));
    assert(attr_views(attrs@) =~= attr_views(old(attrs)@) + label_style_attrs(*w));
}

/// Plans the frame style through the registry.
fn push_frame(w: &Widget, attrs: &mut Vec<Attr<String>>)
    ensures
        attr_views(final(attrs)@) == attr_views(old(attrs)@) + frame_attrs(*w),
{
    broadcast use lemma_attr_views_push;

    proof {
        reveal(crate::dispatch::frame_attrs);
    }

    if let Some(name) = &w.frame {
        if let Some(idx) = get_frame(name.as_str()) {
            attrs.push(Attr::Frame(idx));
        }
    }
    assert(attr_views(attrs@) =~= attr_views(old(attrs)@) + frame_attrs(*w));
}

/// Plans the pressed frame style and the shortcut key of a button.
fn push_button(w: &Widget, button: bool, attrs: &mut Vec<Attr<String>>)
    ensures
        attr_views(final(attrs)@) == attr_views(old(attrs)@) + button_attrs(*w, button),
{
    broadcast use lemma_attr_views_push;

    proof {
        reveal(crate::dispatch::button_attrs);
    }

    if !button {
        assert(attr_views(attrs@) =~= attr_views(old(attrs)@) + button_attrs(*w, button));
        return;
    }
    let ghost b0 = attrs@;
    if let Some(name) = &w.downframe {
        if let Some(idx) = get_frame(name.as_str()) {
            attrs.push(Attr::DownFrame(idx));
        }
    }
    assert(attr_views(attrs@) =~= attr_views(b0) + one(
        w.downframe is Some && frame_of(w.downframe->0@) is Some,
        Attr::DownFrame(frame_of(w.downframe->0@)->0),
    ));
    let ghost b1 = attrs@;
    if let Some(s) = &w.shortcut {
        if let Some(v) = parse_shortcut(s.as_str()) {
            attrs.push(Attr::Shortcut(v));
        }
    }
    assert(attr_views(attrs@) =~= attr_views(b1) + one(
        w.shortcut is Some && shortcut_of(w.shortcut->0@) is Some,
        Attr::Shortcut(shortcut_of(w.shortcut->0@)->0),
    ));
    assert(attr_views(attrs@) =~= attr_views(old(attrs)@) + button_attrs(*w, button));
}

/// Plans the numeric range of a range control.
fn push_range(w: &Widget, range: bool, attrs: &mut Vec<Attr<String>>)
    ensures
        attr_views(final(attrs)@) == attr_views(old(attrs)@) + range_attrs(*w, range),
{
    broadcast use lemma_attr_views_push;

    proof {
        reveal(crate::dispatch::range_attrs);
    }

    if !range {
        assert(attr_views(attrs@) =~= attr_views(old(attrs)@) + range_attrs(*w, range));
        return;
    }
    let ghost b0 = attrs@;
    if let Some(v) = w.minimum {
        attrs.push(Attr::Minimum(v));
    }
    assert(attr_views(attrs@) =~= attr_views(b0) + one(w.minimum is Some, Attr::Minimum(w.minimum->0)));
    let ghost b1 = attrs@;
    if let Some(v) = w.maximum {
        attrs.push(Attr::Maximum(v));
    }
    assert(attr_views(attrs@) =~= attr_views(b1) + one(w.maximum is Some, Attr::Maximum(w.maximum->0)));
    let ghost b2 = attrs@;
    if let Some(v) = w.slidersize {
        attrs.push(Attr::SliderSize(v));
    }
    assert(attr_views(attrs@) =~= attr_views(b2) + one(w.slidersize is Some, Attr::SliderSize(w.slidersize->0)));
    let ghost b3 = attrs@;
    if let Some(v) = w.step {
        attrs.push(Attr::Step(v));
    }
    assert(attr_views(attrs@) =~= attr_views(b3) + one(w.step is Some, Attr::Step(w.step->0)));
    assert(attr_views(attrs@) =~= attr_views(old(attrs)@) + range_attrs(*w, range));
}

/// Pushing one built widget extends the views by that widget's view.
pub broadcast proof fn lemma_built_views_push(s: Seq<BuiltWidget>, b: BuiltWidget)
    ensures
        #[trigger] built_views(s.push(b)) == built_views(s).push(built_view(b)),
{
    lemma_built_views_index(s.push(b));
    lemma_built_views_index(s);
    assert(s.push(b)[s.len() as int] == b);
    assert(built_views(s.push(b)) =~= built_views(s).push(built_view(b)));
}

/// A singleton for a built widget, nothing for a dropped one.
pub open spec fn opt_seq(o: Option<BuiltNode>) -> Seq<BuiltNode> {
    match o {
        Some(b) => seq![b],
        None => Seq::empty(),
    }
}

/// Building a sequence of subtrees appends what the last one builds.
proof fn lemma_built_children_snoc(cs: Seq<Widget>, parent_flex: bool)
    requires
        cs.len() > 0,
    ensures
        built_children(cs, parent_flex) == built_children(cs.drop_last(), parent_flex) + opt_seq(
            spec_build(cs.last(), parent_flex),
        ),
    decreases cs,
{
    if cs.len() == 1 {
        assert(cs.drop_last() =~= Seq::<Widget>::empty());
        assert(cs.drop_first() =~= Seq::<Widget>::empty());
        assert(built_children(cs, parent_flex) == built_children(cs.drop_last(), parent_flex)
            + opt_seq(spec_build(cs.last(), parent_flex))) by {
            assert(cs[0] == cs.last());
            match spec_build(cs[0], parent_flex) {
                Some(b) => {
                    assert(seq![b] + Seq::<BuiltNode>::empty() =~= Seq::<BuiltNode>::empty()
                        + seq![b]);
                },
                None => {
                    assert(Seq::<BuiltNode>::empty() + Seq::<BuiltNode>::empty()
                        =~= Seq::<BuiltNode>::empty());
                },
            }
        }
    } else {
        let rest = cs.drop_first();
        lemma_built_children_snoc(rest, parent_flex);
        assert(cs.drop_last().drop_first() =~= rest.drop_last());
        assert(cs.drop_last()[0] == cs[0]);
        assert(cs.last() == rest.last());
        match spec_build(cs[0], parent_flex) {
            Some(b) => {
                assert(built_children(cs, parent_flex) == seq![b] + built_children(
                    rest,
                    parent_flex,
                ));
                assert(built_children(cs.drop_last(), parent_flex) == seq![b] + built_children(
                    rest.drop_last(),
                    parent_flex,
                ));
                assert(seq![b] + (built_children(rest.drop_last(), parent_flex) + opt_seq(
                    spec_build(cs.last(), parent_flex),
                )) =~= (seq![b] + built_children(rest.drop_last(), parent_flex)) + opt_seq(
                    spec_build(cs.last(), parent_flex),
                ));
            },
            None => {
                assert(built_children(cs, parent_flex) == built_children(rest, parent_flex));
                assert(built_children(cs.drop_last(), parent_flex) == built_children(
                    rest.drop_last(),
                    parent_flex,
                ));
            },
        }
    }
}

/// Concatenation of attribute plans is associative.
proof fn lemma_assoc(a: Seq<AttrV>, b: Seq<AttrV>, c: Seq<AttrV>)
    ensures
        (a + b) + c == a + (b + c),
{
    assert((a + b) + c =~= a + (b + c));
}

/// Plans every attribute of a node that kind `k`'s capabilities
/// support, in application order.
#[verifier::rlimit(60)]
fn push_attrs(w: &Widget, k: WidgetKind, parent_flex: bool, attrs: &mut Vec<Attr<String>>)
    ensures
        attr_views(final(attrs)@) == attr_views(old(attrs)@) + planned_attrs(*w, k, parent_flex),
{
    let c = caps_of(k);
    let ghost a0 = attr_views(attrs@);
    push_buffer(c.buffer, attrs);
    let ghost p1 = buffer_attrs(has_buffer(k));
    assert(attr_views(attrs@) == a0 + p1);
    push_text(w, c.text, attrs);
    let ghost p2 = p1 + text_attrs(*w, is_text(k));
    proof {
        lemma_assoc(a0, p1, text_attrs(*w, is_text(k)));
    }
    assert(attr_views(attrs@) == a0 + p2);
    push_identity(w, attrs);
    let ghost p3 = p2 + identity_attrs(*w);
    proof {
        lemma_assoc(a0, p2, identity_attrs(*w));
    }
    assert(attr_views(attrs@) == a0 + p3);
    push_geometry(w, attrs);
    let ghost p4 = p3 + geometry_attrs(*w);
    proof {
        lemma_assoc(a0, p3, geometry_attrs(*w));
    }
    assert(attr_views(attrs@) == a0 + p4);
    push_flex_child(w, parent_flex, attrs);
    let ghost p5 = p4 + flex_child_attrs(*w, parent_flex);
    proof {
        lemma_assoc(a0, p4, flex_child_attrs(*w, parent_flex));
    }
    assert(attr_views(attrs@) == a0 + p5);
    push_flex_container(w, c.flex, attrs);
    let ghost p6 = p5 + flex_container_attrs(*w, is_flex(k));
    proof {
        lemma_assoc(a0, p5, flex_container_attrs(*w, is_flex(k)));
    }
    assert(attr_views(attrs@) == a0 + p6);
    push_colors(w, attrs);
    let ghost p7 = p6 + color_attrs(*w);
    proof {
        lemma_assoc(a0, p6, color_attrs(*w));
    }
    assert(attr_views(attrs@) == a0 + p7);
    push_visibility(w, attrs);
    let ghost p8 = p7 + visibility_attrs(*w);
    proof {
        lemma_assoc(a0, p7, visibility_attrs(*w));
    }
    assert(attr_views(attrs@) == a0 + p8);
    push_resize(w, c.container, attrs);
    let ghost p9 = p8 + resize_attrs(*w, is_container(k));
    proof {
        lemma_assoc(a0, p8, resize_attrs(*w, is_container(k)));
    }
    assert(attr_views(attrs@) == a0 + p9);
    push_adorn(w, attrs);
    let ghost p10 = p9 + adorn_attrs(*w);
    proof {
        lemma_assoc(a0, p9, adorn_attrs(*w));
    }
    assert(attr_views(attrs@) == a0 + p10);
    push_label_style(w, attrs);
    let ghost p11 = p10 + label_style_attrs(*w);
    proof {
        lemma_assoc(a0, p10, label_style_attrs(*w));
    }
    assert(attr_views(attrs@) == a0 + p11);
    push_frame(w, attrs);
    let ghost p12 = p11 + frame_attrs(*w);
    proof {
        lemma_assoc(a0, p11, frame_attrs(*w));
    }
    assert(attr_views(attrs@) == a0 + p12);
    push_button(w, c.button, attrs);
    let ghost p13 = p12 + button_attrs(*w, is_button(k));
    proof {
        lemma_assoc(a0, p12, button_attrs(*w, is_button(k)));
    }
    assert(attr_views(attrs@) == a0 + p13);
    push_range(w, c.range, attrs);
    let ghost p14 = p13 + range_attrs(*w, is_range(k));
    proof {
        lemma_assoc(a0, p13, range_attrs(*w, is_range(k)));
    }
    assert(attr_views(attrs@) == a0 + p14);
    proof {
        reveal(crate::dispatch::planned_attrs);
    }
    assert(p14 == planned_attrs(*w, k, parent_flex));
}

/// Applies to an open widget record every attribute of its description
/// node that the record's kind supports, then constructs the node's
/// children in document order: one child per registered tag, subtrees
/// with unregistered tags dropped whole.
#[verifier::loop_isolation(false)]
pub fn handle_w(w: &Widget, widget: &mut BuiltWidget, parent_flex: bool)
    ensures
        final(widget).kind == old(widget).kind,
        attr_views(final(widget).attrs@) == attr_views(old(widget).attrs@) + planned_attrs(
            *w,
            old(widget).kind,
            parent_flex,
        ),
        built_views(final(widget).children@) == built_views(old(widget).children@) + (
        match w.children {
            Some(v) => built_children(v@, crate::kinds::is_flex(old(widget).kind)),
            None => Seq::<BuiltNode>::empty(),
        }),
    decreases *w, 0int,
{
    let k = widget.kind;
    let c = caps_of(k);
    push_attrs(w, k, parent_flex, &mut widget.attrs);
    let ghost c0 = built_views(widget.children@);
    if let Some(cs) = &w.children {
        let n: usize = cs.len();
        let mut i: usize = 0;
        while i < n
            invariant
                i <= n,
                n == cs@.len(),
                widget.kind == k,
                attr_views(widget.attrs@) == attr_views(old(widget).attrs@) + planned_attrs(
                    *w,
                    k,
                    parent_flex,
                ),
                built_views(widget.children@) == c0 + built_children(
                    cs@.subrange(0, i as int),
                    c.flex,
                ),
            decreases n - i,
        {
            let ghost pre = cs@.subrange(0, i as int);
            let ghost post = cs@.subrange(0, i as int + 1);
            proof {
                let cvec = w.children->0;
                assert(decreases_to!(*w => cvec));
                assert(decreases_to!(cvec => cvec@));
                assert(decreases_to!(cvec@ => cvec@[i as int]));
                assert(decreases_to!(*w => cs@[i as int]));
            }
            let r = build_node(&cs[i], c.flex);
            proof {
                assert(post.drop_last() =~= pre);
                assert(post.last() == cs@[i as int]);
                lemma_built_children_snoc(post, c.flex);
            }
            match r {
                Some(b) => {
                    let ghost cprev = widget.children@;
                    widget.children.push(b);
                    proof {
                        lemma_built_views_push(cprev, b);
                        assert(built_views(widget.children@) =~= c0 + built_children(
                            post,
                            c.flex,
                        ));
                    }
                },
                None => {
                    proof {
                        assert(built_views(widget.children@) =~= c0 + built_children(
                            post,
                            c.flex,
                        ));
                    }
                },
            }
            i = i + 1;
        }
        proof {
            assert(cs@.subrange(0, n as int) =~= cs@);
        }
    }
}

/// Builds one description node: resolves its tag against the
/// registry, plans the supported attributes, and constructs the
/// registered children; a node with an unregistered tag yields
/// nothing, its whole subtree dropped.
pub fn build_node(w: &Widget, parent_flex: bool) -> (r: Option<BuiltWidget>)
    ensures
        opt_built_view(r) == spec_build(*w, parent_flex),
    decreases *w, 1int,
{
    match kind_of_tag(w.widget.as_str()) {
        None => None,
        Some(k) => {
            let mut b = BuiltWidget { kind: k, attrs: Vec::new(), children: Vec::new() };
            handle_w(w, &mut b, parent_flex);
            proof {
                assert(attr_views(b.attrs@) =~= planned_attrs(*w, k, parent_flex));
                assert(built_view(b) =~= spec_build(*w, parent_flex)->0);
            }
            Some(b)
        },
    }
}

/// Builds a whole description tree under a non-flexible top-level
/// scope.
pub fn transform(w: &Widget) -> (r: Option<BuiltWidget>)
    ensures
        opt_built_view(r) == spec_build(*w, false),
{
    build_node(w, false)
}


/// True when the widget's own attribute list records this identifier.
pub open spec fn node_has_id(b: BuiltNode, id: Seq<char>) -> bool {
    exists|i: int| 0 <= i < b.attrs.len() && b.attrs[i] == Attr::Id(id)
}

/// The first widget carrying this identifier, in document order: the
/// node itself first, then its subtrees left to right.  Identities
/// change across a rebuild, so lookups are redone by id, never by a
/// prior handle.
pub open spec fn spec_find(b: BuiltNode, id: Seq<char>) -> Option<BuiltNode>
    decreases b,
{
    if node_has_id(b, id) {
        Some(b)
    } else {
        spec_find_in(b.children, id)
    }
}

/// The first widget carrying this identifier within a sequence of
/// built trees, left to right.
pub open spec fn spec_find_in(s: Seq<BuiltNode>, id: Seq<char>) -> Option<BuiltNode>
    decreases s,
{
    if s.len() == 0 {
        None
    } else {
        match spec_find(s[0], id) {
            Some(r) => Some(r),
            None => spec_find_in(s.drop_first(), id),
        }
    }
}

/// Looks a widget up by identifier, in document order.
#[verifier::loop_isolation(false)]
pub fn find_by_id<'a>(b: &'a BuiltWidget, id: &str) -> (r: Option<&'a BuiltWidget>)
    ensures
        match r {
            Some(f) => spec_find(built_view(*b), id@) == Some(built_view(*f)),
            None => spec_find(built_view(*b), id@) is None,
        },
    decreases *b,
{
    broadcast use lemma_built_views_index;

    let ghost bv = built_view(*b);
    let n: usize = b.attrs.len();
    let mut i: usize = 0;
    while i < n
        invariant
            i <= n,
            forall|j: int| 0 <= j < i ==> bv.attrs[j] != Attr::Id(id@),
        decreases n - i,
    {
        match &b.attrs[i] {
            Attr::Id(s) => {
                if str_eq(s.as_str(), id) {
                    proof {
                        assert(bv.attrs[i as int] == Attr::Id(id@));
                        assert(node_has_id(bv, id@));
                    }
                    return Some(b);
                }
            },
            _ => {},
        }
        proof {
            assert(bv.attrs[i as int] == attr_view(b.attrs@[i as int]));
            assert(bv.attrs[i as int] != Attr::Id(id@));
        }
        i = i + 1;
    }
    proof {
        assert(!node_has_id(bv, id@));
    }
    let m: usize = b.children.len();
    let mut j: usize = 0;
    proof {
        assert(bv.children.skip(0) =~= bv.children);
    }
    while j < m
        invariant
            j <= m,
            spec_find_in(bv.children, id@) == spec_find_in(bv.children.skip(j as int), id@),
        decreases m - j,
    {
        proof {
            assert(decreases_to!(*b => b.children));
            assert(decreases_to!(b.children => b.children@));
            assert(decreases_to!(b.children@ => b.children@[j as int]));
            assert(decreases_to!(*b => b.children@[j as int]));
            assert(bv.children == built_views(b.children@));
            lemma_built_views_index(b.children@);
            assert(bv.children.len() == m);
            assert(bv.children.skip(j as int)[0] == bv.children[j as int]);
            assert(bv.children[j as int] == built_view(b.children@[j as int]));
        }
        let r = find_by_id(&b.children[j], id);
        match r {
            Some(f) => {
                proof {
                    assert(spec_find_in(bv.children.skip(j as int), id@) == Some(built_view(*f)));
                }
                return Some(f);
            },
            None => {
                proof {
                    assert(bv.children.skip(j as int).drop_first() =~= bv.children.skip(
                        j as int + 1,
                    ));
                }
            },
        }
        j = j + 1;
    }
    proof {
        lemma_built_views_index(b.children@);
        assert(bv.children.skip(m as int) =~= Seq::<BuiltNode>::empty());
    }
    None
}

/// The first label in an attribute list, if any.
pub open spec fn label_in(attrs: Seq<AttrV>) -> Option<Seq<char>>
    decreases attrs,
{
    if attrs.len() == 0 {
        None
    } else {
        match attrs[0] {
            Attr::Label(s) => Some(s),
            _ => label_in(attrs.drop_first()),
        }
    }
}

/// The label a built widget carries, if any.
#[verifier::loop_isolation(false)]
pub fn label_of<'a>(b: &'a BuiltWidget) -> (r: Option<&'a String>)
    ensures
        match r {
            Some(s) => label_in(built_view(*b).attrs) == Some(s@),
            None => label_in(built_view(*b).attrs) is None,
        },
{
    let ghost av = built_view(*b).attrs;
    let n: usize = b.attrs.len();
    let mut i: usize = 0;
    proof {
        assert(av.skip(0) =~= av);
    }
    while i < n
        invariant
            i <= n,
            label_in(av) == label_in(av.skip(i as int)),
        decreases n - i,
    {
        proof {
            assert(av.skip(i as int)[0] == av[i as int]);
            assert(av[i as int] == attr_view(b.attrs@[i as int]));
        }
        match &b.attrs[i] {
            Attr::Label(s) => {
                return Some(s);
            },
            _ => {
                proof {
                    assert(av.skip(i as int).drop_first() =~= av.skip(i as int + 1));
                }
            },
        }
        i = i + 1;
    }
    proof {
        assert(av.skip(n as int) =~= Seq::<AttrV>::empty());
    }
    None
}

/// Every index a planned attribute carries lies inside its table: no
/// font index reaches the end of the font table, no frame style the
/// end of the style table, no mask an unknown bit.
pub open spec fn attr_in_range(a: AttrV) -> bool {
    match a {
        Attr::LabelFont(f) => f < FONT_COUNT,
        Attr::TextFont(f) => 0 <= f < FONT_COUNT,
        Attr::Frame(x) => x < crate::frames::FRAME_COUNT,
        Attr::DownFrame(x) => x < crate::frames::FRAME_COUNT,
        Attr::Align(v) => 0 <= v < ALIGN_LIMIT,
        Attr::When(v) => 0 <= v < WHEN_LIMIT,
        _ => true,
    }
}

/// Every attribute of a sequence stays inside its table.
pub open spec fn attrs_in_range(s: Seq<AttrV>) -> bool {
    forall|i: int| 0 <= i < s.len() ==> attr_in_range(#[trigger] s[i])
}

/// A singleton plan of an in-range attribute is in range.
proof fn lemma_one_range(c: bool, a: AttrV)
    requires
        c ==> attr_in_range(a),
    ensures
        attrs_in_range(one(c, a)),
{
}

/// In-range plans stay in range under concatenation.
proof fn lemma_concat_range(x: Seq<AttrV>, y: Seq<AttrV>)
    requires
        attrs_in_range(x),
        attrs_in_range(y),
    ensures
        attrs_in_range(x + y),
{
    assert forall|i: int| 0 <= i < (x + y).len() implies attr_in_range(#[trigger] (x + y)[i]) by {
        if i < x.len() {
            assert((x + y)[i] == x[i]);
        } else {
            assert((x + y)[i] == y[i - x.len()]);
        }
    }
}

/// The buffer plan group stays inside its tables.
proof fn lemma_buffer_range(w: Widget, k: WidgetKind, parent_flex: bool)
    ensures
        attrs_in_range(buffer_attrs(has_buffer(k))),
{
    reveal(crate::dispatch::buffer_attrs);
    lemma_one_range(has_buffer(k), Attr::MakeBuffer);
}

/// The text plan group stays inside its tables.
proof fn lemma_text_range(w: Widget, k: WidgetKind, parent_flex: bool)
    ensures
        attrs_in_range(text_attrs(w, is_text(k))),
{
    reveal(crate::dispatch::text_attrs);
    lemma_one_range(w.textcolor is Some && color_of(w.textcolor->0@) is Some, Attr::TextColor(color_of(w.textcolor->0@)->0));
    lemma_one_range(w.textfont is Some && 0 <= w.textfont->0 < FONT_COUNT, Attr::TextFont(w.textfont->0));
    lemma_one_range(w.textsize is Some, Attr::TextSize(w.textsize->0));
    lemma_concat_range(one(w.textcolor is Some && color_of(w.textcolor->0@) is Some, Attr::TextColor(color_of(w.textcolor->0@)->0)), one(w.textfont is Some && 0 <= w.textfont->0 < FONT_COUNT, Attr::TextFont(w.textfont->0)));
    lemma_concat_range((one(w.textcolor is Some && color_of(w.textcolor->0@) is Some, Attr::TextColor(color_of(w.textcolor->0@)->0)) + one(w.textfont is Some && 0 <= w.textfont->0 < FONT_COUNT, Attr::TextFont(w.textfont->0))), one(w.textsize is Some, Attr::TextSize(w.textsize->0)));
}

/// The identity plan group stays inside its tables.
proof fn lemma_identity_range(w: Widget, k: WidgetKind, parent_flex: bool)
    ensures
        attrs_in_range(identity_attrs(w)),
{
    reveal(crate::dispatch::identity_attrs);
    lemma_one_range(w.id is Some, Attr::Id(w.id->0@));
    lemma_one_range(w.label is Some, Attr::Label(w.label->0@));
    lemma_concat_range(one(w.id is Some, Attr::Id(w.id->0@)), one(w.label is Some, Attr::Label(w.label->0@)));
}

/// The geometry plan group stays inside its tables.
proof fn lemma_geometry_range(w: Widget, k: WidgetKind, parent_flex: bool)
    ensures
        attrs_in_range(geometry_attrs(w)),
{
    reveal(crate::dispatch::geometry_attrs);
    lemma_one_range(w.x is Some || w.y is Some || w.w is Some || w.h is Some, Attr::Bounds(w.x, w.y, w.w, w.h));
}

/// The flex child plan group stays inside its tables.
proof fn lemma_flex_child_range(w: Widget, k: WidgetKind, parent_flex: bool)
    ensures
        attrs_in_range(flex_child_attrs(w, parent_flex)),
{
    reveal(crate::dispatch::flex_child_attrs);
    lemma_one_range(parent_flex && w.fixed is Some, Attr::Fixed(w.fixed->0));
}

/// The flex container plan group stays inside its tables.
proof fn lemma_flex_container_range(w: Widget, k: WidgetKind, parent_flex: bool)
    ensures
        attrs_in_range(flex_container_attrs(w, is_flex(k))),
{
    reveal(crate::dispatch::flex_container_attrs);
    lemma_one_range(w.margin is Some, Attr::Margin(w.margin->0));
    lemma_one_range(w.left is Some || w.top is Some || w.right is Some || w.bottom is Some, Attr::Margins(w.left, w.top, w.right, w.bottom));
    lemma_one_range(w.pad is Some, Attr::Pad(w.pad->0));
    lemma_concat_range(one(w.margin is Some, Attr::Margin(w.margin->0)), one(w.left is Some || w.top is Some || w.right is Some || w.bottom is Some, Attr::Margins(w.left, w.top, w.right, w.bottom)));
    lemma_concat_range((one(w.margin is Some, Attr::Margin(w.margin->0)) + one(w.left is Some || w.top is Some || w.right is Some || w.bottom is Some, Attr::Margins(w.left, w.top, w.right, w.bottom))), one(w.pad is Some, Attr::Pad(w.pad->0)));
}

/// The color plan group stays inside its tables.
proof fn lemma_color_range(w: Widget, k: WidgetKind, parent_flex: bool)
    ensures
        attrs_in_range(color_attrs(w)),
{
    reveal(crate::dispatch::color_attrs);
    lemma_one_range(w.color is Some && color_of(w.color->0@) is Some, Attr::Color(color_of(w.color->0@)->0));
    lemma_one_range(w.selectioncolor is Some && color_of(w.selectioncolor->0@) is Some, Attr::SelectionColor(color_of(w.selectioncolor->0@)->0));
    lemma_one_range(w.labelcolor is Some && color_of(w.labelcolor->0@) is Some, Attr::LabelColor(color_of(w.labelcolor->0@)->0));
    lemma_concat_range(one(w.color is Some && color_of(w.color->0@) is Some, Attr::Color(color_of(w.color->0@)->0)), one(w.selectioncolor is Some && color_of(w.selectioncolor->0@) is Some, Attr::SelectionColor(color_of(w.selectioncolor->0@)->0)));
    lemma_concat_range((one(w.color is Some && color_of(w.color->0@) is Some, Attr::Color(color_of(w.color->0@)->0)) + one(w.selectioncolor is Some && color_of(w.selectioncolor->0@) is Some, Attr::SelectionColor(color_of(w.selectioncolor->0@)->0))), one(w.labelcolor is Some && color_of(w.labelcolor->0@) is Some, Attr::LabelColor(color_of(w.labelcolor->0@)->0)));
}

/// The visibility plan group stays inside its tables.
proof fn lemma_visibility_range(w: Widget, k: WidgetKind, parent_flex: bool)
    ensures
        attrs_in_range(visibility_attrs(w)),
{
    reveal(crate::dispatch::visibility_attrs);
    lemma_one_range(w.hide == Some(true), Attr::Hide);
    lemma_one_range(w.deactivate == Some(true), Attr::Deactivate);
    lemma_one_range(w.visible == Some(true), Attr::Show);
    lemma_concat_range(one(w.hide == Some(true), Attr::Hide), one(w.deactivate == Some(true), Attr::Deactivate));
    lemma_concat_range((one(w.hide == Some(true), Attr::Hide) + one(w.deactivate == Some(true), Attr::Deactivate)), one(w.visible == Some(true), Attr::Show));
}

/// The resize plan group stays inside its tables.
proof fn lemma_resize_range(w: Widget, k: WidgetKind, parent_flex: bool)
    ensures
        attrs_in_range(resize_attrs(w, is_container(k))),
{
    reveal(crate::dispatch::resize_attrs);
    lemma_one_range(w.resizable == Some(true) && is_container(k), Attr::ResizableSelf);
    lemma_one_range(w.resizable == Some(true) && !is_container(k), Attr::ResizableInParent);
    lemma_concat_range(one(w.resizable == Some(true) && is_container(k), Attr::ResizableSelf), one(w.resizable == Some(true) && !is_container(k), Attr::ResizableInParent));
}

/// The adorn plan group stays inside its tables.
proof fn lemma_adorn_range(w: Widget, k: WidgetKind, parent_flex: bool)
    ensures
        attrs_in_range(adorn_attrs(w)),
{
    reveal(crate::dispatch::adorn_attrs);
    lemma_one_range(w.tooltip is Some, Attr::Tooltip(w.tooltip->0@));
    lemma_one_range(w.image is Some, Attr::Image(w.image->0@));
    lemma_one_range(w.deimage is Some, Attr::DeImage(w.deimage->0@));
    lemma_concat_range(one(w.tooltip is Some, Attr::Tooltip(w.tooltip->0@)), one(w.image is Some, Attr::Image(w.image->0@)));
    lemma_concat_range((one(w.tooltip is Some, Attr::Tooltip(w.tooltip->0@)) + one(w.image is Some, Attr::Image(w.image->0@))), one(w.deimage is Some, Attr::DeImage(w.deimage->0@)));
}

/// The label style plan group stays inside its tables.
proof fn lemma_label_style_range(w: Widget, k: WidgetKind, parent_flex: bool)
    ensures
        attrs_in_range(label_style_attrs(w)),
{
    reveal(crate::dispatch::label_style_attrs);
    lemma_one_range(w.labelsize is Some, Attr::LabelSize(w.labelsize->0));
    lemma_one_range(w.align is Some && 0 <= w.align->0 < ALIGN_LIMIT, Attr::Align(w.align->0));
    lemma_one_range(w.when is Some && 0 <= w.when->0 < WHEN_LIMIT, Attr::When(w.when->0));
    lemma_one_range(w.labelfont is Some && w.labelfont->0 < FONT_COUNT, Attr::LabelFont(w.labelfont->0));
    lemma_concat_range(one(w.labelsize is Some, Attr::LabelSize(w.labelsize->0)), one(w.align is Some && 0 <= w.align->0 < ALIGN_LIMIT, Attr::Align(w.align->0)));
    lemma_concat_range((one(w.labelsize is Some, Attr::LabelSize(w.labelsize->0)) + one(w.align is Some && 0 <= w.align->0 < ALIGN_LIMIT, Attr::Align(w.align->0))), one(w.when is Some && 0 <= w.when->0 < WHEN_LIMIT, Attr::When(w.when->0)));
    lemma_concat_range(((one(w.labelsize is Some, Attr::LabelSize(w.labelsize->0)) + one(w.align is Some && 0 <= w.align->0 < ALIGN_LIMIT, Attr::Align(w.align->0))) + one(w.when is Some && 0 <= w.when->0 < WHEN_LIMIT, Attr::When(w.when->0))), one(w.labelfont is Some && w.labelfont->0 < FONT_COUNT, Attr::LabelFont(w.labelfont->0)));
}

/// The frame plan group stays inside its tables.
proof fn lemma_frame_range(w: Widget, k: WidgetKind, parent_flex: bool)
    ensures
        attrs_in_range(frame_attrs(w)),
{
    reveal(crate::dispatch::frame_attrs);
    if w.frame is Some {
        crate::frames::lemma_frame_in_table(w.frame->0@);
    }
    lemma_one_range(w.frame is Some && frame_of(w.frame->0@) is Some, Attr::Frame(frame_of(w.frame->0@)->0));
}

/// The button plan group stays inside its tables.
proof fn lemma_button_range(w: Widget, k: WidgetKind, parent_flex: bool)
    ensures
        attrs_in_range(button_attrs(w, is_button(k))),
{
    reveal(crate::dispatch::button_attrs);
    if w.downframe is Some {
        crate::frames::lemma_frame_in_table(w.downframe->0@);
    }
    lemma_one_range(w.downframe is Some && frame_of(w.downframe->0@) is Some, Attr::DownFrame(frame_of(w.downframe->0@)->0));
    lemma_one_range(w.shortcut is Some && shortcut_of(w.shortcut->0@) is Some, Attr::Shortcut(shortcut_of(w.shortcut->0@)->0));
    lemma_concat_range(one(w.downframe is Some && frame_of(w.downframe->0@) is Some, Attr::DownFrame(frame_of(w.downframe->0@)->0)), one(w.shortcut is Some && shortcut_of(w.shortcut->0@) is Some, Attr::Shortcut(shortcut_of(w.shortcut->0@)->0)));
}

/// The range plan group stays inside its tables.
proof fn lemma_range_range(w: Widget, k: WidgetKind, parent_flex: bool)
    ensures
        attrs_in_range(range_attrs(w, is_range(k))),
{
    reveal(crate::dispatch::range_attrs);
    lemma_one_range(w.minimum is Some, Attr::Minimum(w.minimum->0));
    lemma_one_range(w.maximum is Some, Attr::Maximum(w.maximum->0));
    lemma_one_range(w.slidersize is Some, Attr::SliderSize(w.slidersize->0));
    lemma_one_range(w.step is Some, Attr::Step(w.step->0));
    lemma_concat_range(one(w.minimum is Some, Attr::Minimum(w.minimum->0)), one(w.maximum is Some, Attr::Maximum(w.maximum->0)));
    lemma_concat_range((one(w.minimum is Some, Attr::Minimum(w.minimum->0)) + one(w.maximum is Some, Attr::Maximum(w.maximum->0))), one(w.slidersize is Some, Attr::SliderSize(w.slidersize->0)));
    lemma_concat_range(((one(w.minimum is Some, Attr::Minimum(w.minimum->0)) + one(w.maximum is Some, Attr::Maximum(w.maximum->0))) + one(w.slidersize is Some, Attr::SliderSize(w.slidersize->0))), one(w.step is Some, Attr::Step(w.step->0)));
}

/// Boundary safety: whatever the description says, the planned
/// attributes never carry an out-of-range font, frame-style, alignment
/// or trigger value -- an out-of-range input is a no-op, never an
/// unchecked reinterpretation.
pub proof fn lemma_planned_in_range(w: Widget, k: WidgetKind, parent_flex: bool)
    ensures
        attrs_in_range(planned_attrs(w, k, parent_flex)),
{
    reveal(crate::dispatch::planned_attrs);
    lemma_buffer_range(w, k, parent_flex);
    lemma_text_range(w, k, parent_flex);
    lemma_concat_range(buffer_attrs(has_buffer(k)), text_attrs(w, is_text(k)));
    lemma_identity_range(w, k, parent_flex);
    lemma_concat_range((buffer_attrs(has_buffer(k)) + text_attrs(w, is_text(k))), identity_attrs(w));
    lemma_geometry_range(w, k, parent_flex);
    lemma_concat_range(((buffer_attrs(has_buffer(k)) + text_attrs(w, is_text(k))) + identity_attrs(w)), geometry_attrs(w));
    lemma_flex_child_range(w, k, parent_flex);
    lemma_concat_range((((buffer_attrs(has_buffer(k)) + text_attrs(w, is_text(k))) + identity_attrs(w)) + geometry_attrs(w)), flex_child_attrs(w, parent_flex));
    lemma_flex_container_range(w, k, parent_flex);
    lemma_concat_range(((((buffer_attrs(has_buffer(k)) + text_attrs(w, is_text(k))) + identity_attrs(w)) + geometry_attrs(w)) + flex_child_attrs(w, parent_flex)), flex_container_attrs(w, is_flex(k)));
    lemma_color_range(w, k, parent_flex);
    lemma_concat_range((((((buffer_attrs(has_buffer(k)) + text_attrs(w, is_text(k))) + identity_attrs(w)) + geometry_attrs(w)) + flex_child_attrs(w, parent_flex)) + flex_container_attrs(w, is_flex(k))), color_attrs(w));
    lemma_visibility_range(w, k, parent_flex);
    lemma_concat_range(((((((buffer_attrs(has_buffer(k)) + text_attrs(w, is_text(k))) + identity_attrs(w)) + geometry_attrs(w)) + flex_child_attrs(w, parent_flex)) + flex_container_attrs(w, is_flex(k))) + color_attrs(w)), visibility_attrs(w));
    lemma_resize_range(w, k, parent_flex);
    lemma_concat_range((((((((buffer_attrs(has_buffer(k)) + text_attrs(w, is_text(k))) + identity_attrs(w)) + geometry_attrs(w)) + flex_child_attrs(w, parent_flex)) + flex_container_attrs(w, is_flex(k))) + color_attrs(w)) + visibility_attrs(w)), resize_attrs(w, is_container(k)));
    lemma_adorn_range(w, k, parent_flex);
    lemma_concat_range(((((((((buffer_attrs(has_buffer(k)) + text_attrs(w, is_text(k))) + identity_attrs(w)) + geometry_attrs(w)) + flex_child_attrs(w, parent_flex)) + flex_container_attrs(w, is_flex(k))) + color_attrs(w)) + visibility_attrs(w)) + resize_attrs(w, is_container(k))), adorn_attrs(w));
    lemma_label_style_range(w, k, parent_flex);
    lemma_concat_range((((((((((buffer_attrs(has_buffer(k)) + text_attrs(w, is_text(k))) + identity_attrs(w)) + geometry_attrs(w)) + flex_child_attrs(w, parent_flex)) + flex_container_attrs(w, is_flex(k))) + color_attrs(w)) + visibility_attrs(w)) + resize_attrs(w, is_container(k))) + adorn_attrs(w)), label_style_attrs(w));
    lemma_frame_range(w, k, parent_flex);
    lemma_concat_range(((((((((((buffer_attrs(has_buffer(k)) + text_attrs(w, is_text(k))) + identity_attrs(w)) + geometry_attrs(w)) + flex_child_attrs(w, parent_flex)) + flex_container_attrs(w, is_flex(k))) + color_attrs(w)) + visibility_attrs(w)) + resize_attrs(w, is_container(k))) + adorn_attrs(w)) + label_style_attrs(w)), frame_attrs(w));
    lemma_button_range(w, k, parent_flex);
    lemma_concat_range((((((((((((buffer_attrs(has_buffer(k)) + text_attrs(w, is_text(k))) + identity_attrs(w)) + geometry_attrs(w)) + flex_child_attrs(w, parent_flex)) + flex_container_attrs(w, is_flex(k))) + color_attrs(w)) + visibility_attrs(w)) + resize_attrs(w, is_container(k))) + adorn_attrs(w)) + label_style_attrs(w)) + frame_attrs(w)), button_attrs(w, is_button(k)));
    lemma_range_range(w, k, parent_flex);
    lemma_concat_range(((((((((((((buffer_attrs(has_buffer(k)) + text_attrs(w, is_text(k))) + identity_attrs(w)) + geometry_attrs(w)) + flex_child_attrs(w, parent_flex)) + flex_container_attrs(w, is_flex(k))) + color_attrs(w)) + visibility_attrs(w)) + resize_attrs(w, is_container(k))) + adorn_attrs(w)) + label_style_attrs(w)) + frame_attrs(w)) + button_attrs(w, is_button(k))), range_attrs(w, is_range(k)));
}

} // verus!
