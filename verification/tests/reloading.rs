//! The reload controller: event filtering, coalescing, safety.

use fltk_decl::FileEvent;
use fltk_decl::Reloader;
use fltk_decl::Widget;
use fltk_decl::label_of;
use fltk_decl::reload::should_reload;

fn tree(label: &str) -> Widget {
    let mut button = Widget::bare("Button".to_string());
    button.label = Some(label.to_string());
    let mut root = Widget::bare("Column".to_string());
    root.children = Some(vec![button]);
    root
}

#[test]
fn only_write_events_trigger_reloads() {
    assert!(should_reload(FileEvent::WriteClose));
    assert!(should_reload(FileEvent::ContentChange));
    assert!(!should_reload(FileEvent::Other));
}

#[test]
fn a_fresh_controller_displays_the_initial_tree() {
    let r = Reloader::new(Some(&tree("hello")));
    let shown = r.displayed().unwrap();
    assert_eq!(label_of(&shown.children[0]).unwrap(), "hello");

    let empty = Reloader::new(None);
    assert!(empty.displayed().is_none());
}

#[test]
fn a_failed_parse_changes_nothing() {
    let mut r = Reloader::new(Some(&tree("stable")));
    let before = format!("{:?}", r.displayed());
    let rebuilt = r.on_source_change(None);
    assert!(!rebuilt);
    assert_eq!(format!("{:?}", r.displayed()), before);
    assert!(!r.on_tick());
}

#[test]
fn a_successful_parse_replaces_the_tree_and_arms_setup() {
    let mut r = Reloader::new(Some(&tree("old")));
    let rebuilt = r.on_source_change(Some(tree("new")));
    assert!(rebuilt);
    let shown = r.displayed().unwrap();
    assert_eq!(label_of(&shown.children[0]).unwrap(), "new");
    assert!(r.on_tick());
    assert!(!r.on_tick());
}

#[test]
fn two_writes_in_one_interval_coalesce_into_one_setup_run() {
    let mut r = Reloader::new(Some(&tree("start")));
    assert!(r.on_source_change(Some(tree("first"))));
    assert!(r.on_source_change(Some(tree("second"))));
    let mut setups: usize = 0;
    if r.on_tick() {
        setups += 1;
    }
    if r.on_tick() {
        setups += 1;
    }
    assert_eq!(setups, 1);
    let shown = r.displayed().unwrap();
    assert_eq!(label_of(&shown.children[0]).unwrap(), "second");
}

#[test]
fn an_unparsable_root_clears_the_display_but_stays_safe() {
    let mut r = Reloader::new(Some(&tree("fine")));
    assert!(r.on_source_change(Some(Widget::bare("Nonsense".to_string()))));
    assert!(r.displayed().is_none());
    assert!(r.on_tick());
}
