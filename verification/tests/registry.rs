//! The widget-kind registry and the frame-style registry.

use fltk_decl::frames::get_frame;
use fltk_decl::frames::FRAME_COUNT;
use fltk_decl::kinds::caps_of;
use fltk_decl::kinds::kind_of_tag;
use fltk_decl::kinds::WidgetKind;

#[test]
fn tags_resolve_to_their_kinds() {
    assert_eq!(kind_of_tag("Column"), Some(WidgetKind::Column));
    assert_eq!(kind_of_tag("Row"), Some(WidgetKind::Row));
    assert_eq!(kind_of_tag("Button"), Some(WidgetKind::Button));
    assert_eq!(kind_of_tag("Frame"), Some(WidgetKind::Frame));
    assert_eq!(kind_of_tag("TextDisplay"), Some(WidgetKind::TextDisplay));
    assert_eq!(kind_of_tag("HorNiceSlider"), Some(WidgetKind::HorNiceSlider));
    assert_eq!(kind_of_tag("HelpView"), Some(WidgetKind::HelpView));
}

#[test]
fn unknown_tags_resolve_to_nothing() {
    assert_eq!(kind_of_tag(""), None);
    assert_eq!(kind_of_tag("column"), None);
    assert_eq!(kind_of_tag("Window"), None);
    assert_eq!(kind_of_tag("Buttonx"), None);
}

#[test]
fn capability_sets_follow_the_kind() {
    let col = caps_of(WidgetKind::Column);
    assert!(col.container && col.flex && !col.button && !col.range && !col.text && !col.buffer);

    let btn = caps_of(WidgetKind::Button);
    assert!(!btn.container && !btn.flex && btn.button && !btn.range && !btn.text && !btn.buffer);

    let sld = caps_of(WidgetKind::Slider);
    assert!(!sld.container && sld.range && !sld.text);

    let vsl = caps_of(WidgetKind::ValueSlider);
    assert!(vsl.range && vsl.text);

    let txt = caps_of(WidgetKind::TextDisplay);
    assert!(txt.container && txt.text && txt.buffer && !txt.range);

    let frm = caps_of(WidgetKind::Frame);
    assert!(!frm.container && !frm.flex && !frm.button && !frm.range && !frm.text && !frm.buffer);

    let scb = caps_of(WidgetKind::Scrollbar);
    assert!(scb.range && !scb.container);

    let dial = caps_of(WidgetKind::Dial);
    assert!(!dial.range);
}

#[test]
fn frame_styles_resolve_inside_the_table() {
    assert_eq!(get_frame("NoBox"), Some(0));
    assert_eq!(get_frame("FlatBox"), Some(1));
    assert_eq!(get_frame("UpBox"), Some(2));
    assert_eq!(get_frame("DownBox"), Some(3));
    assert_eq!(get_frame("GtkUpBox"), Some(38));
    assert_eq!(get_frame("FreeBoxType"), Some(56));
    let known = [
        "NoBox",
        "UpFrame",
        "ThinDownBox",
        "EngravedBox",
        "ShadowFrame",
        "RFlatBox",
        "OShadowBox",
        "PlasticRoundDownBox",
        "GleamRoundDownBox",
    ];
    for name in known {
        let idx = get_frame(name).unwrap();
        assert!(idx < FRAME_COUNT);
    }
}

#[test]
fn unknown_frame_styles_resolve_to_nothing() {
    assert_eq!(get_frame(""), None);
    assert_eq!(get_frame("upbox"), None);
    assert_eq!(get_frame("Box"), None);
}
