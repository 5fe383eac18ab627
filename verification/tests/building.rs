//! The construction engine: tree building, attribute planning,
//! dropping of unknown tags, lookup by id.

use fltk_decl::Attr;
use fltk_decl::BuiltWidget;
use fltk_decl::Decimal;
use fltk_decl::Widget;
use fltk_decl::WidgetKind;
use fltk_decl::find_by_id;
use fltk_decl::label_of;
use fltk_decl::transform;

fn node(tag: &str) -> Widget {
    Widget::bare(tag.to_string())
}

fn labeled(tag: &str, label: &str) -> Widget {
    let mut w = node(tag);
    w.label = Some(label.to_string());
    w
}

fn with_id(mut w: Widget, id: &str) -> Widget {
    w.id = Some(id.to_string());
    w
}

#[test]
fn registered_tree_builds_one_widget_per_node() {
    let mut root = node("Column");
    root.children = Some(vec![
        labeled("Button", "Inc"),
        labeled("Button", "Dec"),
        labeled("Frame", "0"),
    ]);
    let built = transform(&root).unwrap();
    assert_eq!(built.kind, WidgetKind::Column);
    assert_eq!(built.children.len(), 3);
    assert_eq!(built.children[0].kind, WidgetKind::Button);
    assert_eq!(built.children[1].kind, WidgetKind::Button);
    assert_eq!(built.children[2].kind, WidgetKind::Frame);
    assert_eq!(label_of(&built.children[0]).unwrap(), "Inc");
    assert_eq!(label_of(&built.children[1]).unwrap(), "Dec");
    assert_eq!(label_of(&built.children[2]).unwrap(), "0");
}

#[test]
fn unknown_root_builds_nothing() {
    let mut root = node("Window");
    root.children = Some(vec![labeled("Button", "Inc")]);
    assert!(transform(&root).is_none());
}

#[test]
fn unknown_child_drops_its_subtree_and_keeps_siblings() {
    let mut bogus = node("Bogus");
    bogus.children = Some(vec![labeled("Button", "hidden inside")]);
    let mut root = node("Column");
    root.children = Some(vec![labeled("Button", "A"), bogus, labeled("Button", "B")]);
    let built = transform(&root).unwrap();
    assert_eq!(built.children.len(), 2);
    assert_eq!(label_of(&built.children[0]).unwrap(), "A");
    assert_eq!(label_of(&built.children[1]).unwrap(), "B");
}

#[test]
fn building_twice_yields_identical_hierarchies() {
    fn describe() -> Widget {
        let mut inner = node("Row");
        inner.pad = Some(4);
        inner.children = Some(vec![labeled("Button", "Go"), node("Slider")]);
        let mut root = node("Column");
        root.color = Some("#102030".to_string());
        root.children = Some(vec![inner, labeled("Frame", "status")]);
        root
    }
    let first = transform(&describe()).unwrap();
    let second = transform(&describe()).unwrap();
    assert_eq!(format!("{:?}", first), format!("{:?}", second));
}

#[test]
fn label_font_at_the_table_size_is_never_applied() {
    let mut w = labeled("Frame", "x");
    w.labelfont = Some(13);
    let built = transform(&w).unwrap();
    assert!(built.attrs.iter().any(|a| matches!(a, Attr::LabelFont(13))));

    let mut w = labeled("Frame", "x");
    w.labelfont = Some(14);
    let built = transform(&w).unwrap();
    assert!(!built.attrs.iter().any(|a| matches!(a, Attr::LabelFont(_))));
}

#[test]
fn frame_styles_past_the_table_are_never_applied() {
    let mut w = node("Frame");
    w.frame = Some("DownBox".to_string());
    let built = transform(&w).unwrap();
    assert!(built.attrs.iter().any(|a| matches!(a, Attr::Frame(3))));

    let mut w = node("Frame");
    w.frame = Some("NotAStyle".to_string());
    let built = transform(&w).unwrap();
    assert!(!built.attrs.iter().any(|a| matches!(a, Attr::Frame(_))));
}

#[test]
fn text_font_is_range_checked() {
    let mut w = node("Input");
    w.textfont = Some(4);
    let built = transform(&w).unwrap();
    assert!(built.attrs.iter().any(|a| matches!(a, Attr::TextFont(4))));

    let mut w = node("Input");
    w.textfont = Some(14);
    let built = transform(&w).unwrap();
    assert!(!built.attrs.iter().any(|a| matches!(a, Attr::TextFont(_))));

    let mut w = node("Input");
    w.textfont = Some(-1);
    let built = transform(&w).unwrap();
    assert!(!built.attrs.iter().any(|a| matches!(a, Attr::TextFont(_))));
}

#[test]
fn align_and_when_masks_are_range_checked() {
    let mut w = node("Frame");
    w.align = Some(0x3ff);
    w.when = Some(31);
    let built = transform(&w).unwrap();
    assert!(built.attrs.iter().any(|a| matches!(a, Attr::Align(0x3ff))));
    assert!(built.attrs.iter().any(|a| matches!(a, Attr::When(31))));

    let mut w = node("Frame");
    w.align = Some(0x400);
    w.when = Some(32);
    let built = transform(&w).unwrap();
    assert!(!built.attrs.iter().any(|a| matches!(a, Attr::Align(_))));
    assert!(!built.attrs.iter().any(|a| matches!(a, Attr::When(_))));

    let mut w = node("Frame");
    w.align = Some(-1);
    w.when = Some(-1);
    let built = transform(&w).unwrap();
    assert!(!built.attrs.iter().any(|a| matches!(a, Attr::Align(_))));
    assert!(!built.attrs.iter().any(|a| matches!(a, Attr::When(_))));
}

#[test]
fn malformed_colors_are_skipped() {
    let mut w = node("Frame");
    w.color = Some("#20a0f0".to_string());
    w.labelcolor = Some("oops".to_string());
    w.selectioncolor = Some("#00ff00".to_string());
    let built = transform(&w).unwrap();
    assert!(built.attrs.iter().any(|a| matches!(a, Attr::Color(0x20a0f0))));
    assert!(built.attrs.iter().any(|a| matches!(a, Attr::SelectionColor(0x00ff00))));
    assert!(!built.attrs.iter().any(|a| matches!(a, Attr::LabelColor(_))));
}

#[test]
fn button_attributes_stay_on_buttons() {
    let mut b = node("Button");
    b.downframe = Some("UpBox".to_string());
    b.shortcut = Some("65".to_string());
    let built = transform(&b).unwrap();
    assert!(built.attrs.iter().any(|a| matches!(a, Attr::DownFrame(2))));
    assert!(built.attrs.iter().any(|a| matches!(a, Attr::Shortcut(65))));

    let mut f = node("Frame");
    f.downframe = Some("UpBox".to_string());
    f.shortcut = Some("65".to_string());
    let built = transform(&f).unwrap();
    assert!(!built.attrs.iter().any(|a| matches!(a, Attr::DownFrame(_))));
    assert!(!built.attrs.iter().any(|a| matches!(a, Attr::Shortcut(_))));
}

#[test]
fn malformed_shortcuts_are_skipped() {
    let mut b = node("Button");
    b.shortcut = Some("ctrl+a".to_string());
    let built = transform(&b).unwrap();
    assert!(!built.attrs.iter().any(|a| matches!(a, Attr::Shortcut(_))));
}

#[test]
fn range_attributes_stay_on_range_controls() {
    let mut s = node("Slider");
    s.minimum = Some(Decimal::from_units(0));
    s.maximum = Some(Decimal::from_units(10));
    s.step = Some(Decimal { micros: 500_000 });
    s.slidersize = Some(Decimal { micros: 250_000 });
    let built = transform(&s).unwrap();
    assert!(built.attrs.iter().any(|a| matches!(a, Attr::Minimum(d) if d.micros == 0)));
    assert!(built.attrs.iter().any(|a| matches!(a, Attr::Maximum(d) if d.micros == 10_000_000)));
    assert!(built.attrs.iter().any(|a| matches!(a, Attr::Step(d) if d.micros == 500_000)));
    assert!(built.attrs.iter().any(|a| matches!(a, Attr::SliderSize(d) if d.micros == 250_000)));

    let mut d = node("Dial");
    d.minimum = Some(Decimal::from_units(0));
    let built = transform(&d).unwrap();
    assert!(!built.attrs.iter().any(|a| matches!(a, Attr::Minimum(_))));
}

#[test]
fn fixed_applies_only_under_a_flexible_parent() {
    let mut child = node("Button");
    child.fixed = Some(40);
    let mut root = node("Column");
    root.children = Some(vec![child]);
    let built = transform(&root).unwrap();
    assert!(built.children[0].attrs.iter().any(|a| matches!(a, Attr::Fixed(40))));

    let mut child = node("Button");
    child.fixed = Some(40);
    let mut root = node("Group");
    root.children = Some(vec![child]);
    let built = transform(&root).unwrap();
    assert!(!built.children[0].attrs.iter().any(|a| matches!(a, Attr::Fixed(_))));

    let mut top = node("Button");
    top.fixed = Some(40);
    let built = transform(&top).unwrap();
    assert!(!built.attrs.iter().any(|a| matches!(a, Attr::Fixed(_))));
}

#[test]
fn margins_and_pad_apply_only_to_flexible_containers() {
    let mut col = node("Column");
    col.margin = Some(8);
    col.left = Some(1);
    col.pad = Some(2);
    let built = transform(&col).unwrap();
    assert!(built.attrs.iter().any(|a| matches!(a, Attr::Margin(8))));
    assert!(built.attrs.iter().any(|a| matches!(a, Attr::Margins(Some(1), None, None, None))));
    assert!(built.attrs.iter().any(|a| matches!(a, Attr::Pad(2))));

    let mut grp = node("Group");
    grp.margin = Some(8);
    grp.left = Some(1);
    grp.pad = Some(2);
    let built = transform(&grp).unwrap();
    assert!(!built.attrs.iter().any(|a| matches!(a, Attr::Margin(_))));
    assert!(!built.attrs.iter().any(|a| matches!(a, Attr::Margins(_, _, _, _))));
    assert!(!built.attrs.iter().any(|a| matches!(a, Attr::Pad(_))));
}

#[test]
fn geometry_is_planned_when_any_side_is_present() {
    let mut w = node("Frame");
    w.w = Some(100);
    let built = transform(&w).unwrap();
    assert!(built.attrs.iter().any(|a| matches!(a, Attr::Bounds(None, None, Some(100), None))));

    let w = node("Frame");
    let built = transform(&w).unwrap();
    assert!(!built.attrs.iter().any(|a| matches!(a, Attr::Bounds(_, _, _, _))));
}

#[test]
fn visibility_flags_are_independent() {
    let mut w = node("Frame");
    w.hide = Some(true);
    w.deactivate = Some(true);
    w.visible = Some(true);
    let built = transform(&w).unwrap();
    assert!(built.attrs.iter().any(|a| matches!(a, Attr::Hide)));
    assert!(built.attrs.iter().any(|a| matches!(a, Attr::Deactivate)));
    assert!(built.attrs.iter().any(|a| matches!(a, Attr::Show)));

    let mut w = node("Frame");
    w.hide = Some(false);
    w.deactivate = Some(false);
    w.visible = Some(false);
    let built = transform(&w).unwrap();
    assert!(!built.attrs.iter().any(|a| matches!(a, Attr::Hide)));
    assert!(!built.attrs.iter().any(|a| matches!(a, Attr::Deactivate)));
    assert!(!built.attrs.iter().any(|a| matches!(a, Attr::Show)));
}

#[test]
fn resize_anchor_depends_on_containerhood() {
    let mut grp = node("Group");
    grp.resizable = Some(true);
    let built = transform(&grp).unwrap();
    assert!(built.attrs.iter().any(|a| matches!(a, Attr::ResizableSelf)));
    assert!(!built.attrs.iter().any(|a| matches!(a, Attr::ResizableInParent)));

    let mut btn = node("Button");
    btn.resizable = Some(true);
    let built = transform(&btn).unwrap();
    assert!(built.attrs.iter().any(|a| matches!(a, Attr::ResizableInParent)));
    assert!(!built.attrs.iter().any(|a| matches!(a, Attr::ResizableSelf)));
}

#[test]
fn text_buffer_is_created_before_text_styling() {
    let mut w = node("TextDisplay");
    w.textsize = Some(12);
    let built = transform(&w).unwrap();
    let buffer_at = built.attrs.iter().position(|a| matches!(a, Attr::MakeBuffer)).unwrap();
    let size_at = built.attrs.iter().position(|a| matches!(a, Attr::TextSize(12))).unwrap();
    assert!(buffer_at < size_at);

    let mut w = node("Input");
    w.textsize = Some(12);
    let built = transform(&w).unwrap();
    assert!(!built.attrs.iter().any(|a| matches!(a, Attr::MakeBuffer)));
    assert!(built.attrs.iter().any(|a| matches!(a, Attr::TextSize(12))));
}

#[test]
fn adornments_carry_their_payloads() {
    let mut w = node("Button");
    w.tooltip = Some("press me".to_string());
    w.image = Some("icon.png".to_string());
    w.deimage = Some("icon-off.png".to_string());
    w.labelsize = Some(18);
    let built = transform(&w).unwrap();
    assert!(built.attrs.iter().any(|a| matches!(a, Attr::Tooltip(t) if t == "press me")));
    assert!(built.attrs.iter().any(|a| matches!(a, Attr::Image(p) if p == "icon.png")));
    assert!(built.attrs.iter().any(|a| matches!(a, Attr::DeImage(p) if p == "icon-off.png")));
    assert!(built.attrs.iter().any(|a| matches!(a, Attr::LabelSize(18))));
}

#[test]
fn children_of_a_leaf_kind_are_still_built() {
    let mut leaf = node("Button");
    leaf.children = Some(vec![labeled("Frame", "inside")]);
    let built = transform(&leaf).unwrap();
    assert_eq!(built.children.len(), 1);
    assert_eq!(built.children[0].kind, WidgetKind::Frame);
}

#[test]
fn multiline_output_is_its_own_kind_with_text_styling() {
    let mut w = node("MultilineOutput");
    w.textsize = Some(11);
    let built = transform(&w).unwrap();
    assert_eq!(built.kind, WidgetKind::MultilineOutput);
    assert!(built.attrs.iter().any(|a| matches!(a, Attr::TextSize(11))));
}

fn counter_tree() -> Widget {
    let mut root = node("Column");
    root.children = Some(vec![
        with_id(labeled("Button", "Inc"), "inc"),
        with_id(labeled("Button", "Dec"), "dec"),
        with_id(labeled("Frame", "0"), "result"),
    ]);
    root
}

#[test]
fn lookup_by_id_finds_widgets_in_document_order() {
    let built = transform(&counter_tree()).unwrap();
    let inc = find_by_id(&built, "inc").unwrap();
    assert_eq!(inc.kind, WidgetKind::Button);
    assert_eq!(label_of(inc).unwrap(), "Inc");
    let result = find_by_id(&built, "result").unwrap();
    assert_eq!(result.kind, WidgetKind::Frame);
    assert!(find_by_id(&built, "missing").is_none());
}

#[test]
fn lookup_by_id_prefers_the_first_match() {
    let mut root = node("Column");
    root.children = Some(vec![
        with_id(labeled("Button", "first"), "dup"),
        with_id(labeled("Button", "second"), "dup"),
    ]);
    let built = transform(&root).unwrap();
    let found: &BuiltWidget = find_by_id(&built, "dup").unwrap();
    assert_eq!(label_of(found).unwrap(), "first");
}
