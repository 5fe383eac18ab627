//! End-to-end scenario: a counter interface whose handlers dispatch on
//! the clicked button's label and rebind by id after a reload.

use fltk_decl::BuiltWidget;
use fltk_decl::Reloader;
use fltk_decl::Widget;
use fltk_decl::find_by_id;
use fltk_decl::label_of;

fn button(label: &str, id: &str) -> Widget {
    let mut w = Widget::bare("Button".to_string());
    w.label = Some(label.to_string());
    w.id = Some(id.to_string());
    w
}

fn counter_tree(first_label: &str, second_label: &str) -> Widget {
    let mut result = Widget::bare("Frame".to_string());
    result.label = Some("0".to_string());
    result.id = Some("result".to_string());
    let mut root = Widget::bare("Column".to_string());
    root.children = Some(vec![
        button(first_label, "inc"),
        button(second_label, "dec"),
        result,
    ]);
    root
}

/// What the user's callback does: increment on a button labeled
/// `Inc`, decrement otherwise.
fn click(count: &mut i32, widget: &BuiltWidget) {
    if label_of(widget).map(|l| l.as_str()) == Some("Inc") {
        *count += 1;
    } else {
        *count -= 1;
    }
}

#[test]
fn clicks_drive_the_result_label() {
    let r = Reloader::new(Some(&counter_tree("Inc", "Dec")));
    let shown = r.displayed().unwrap();
    let inc = find_by_id(shown, "inc").unwrap();
    let dec = find_by_id(shown, "dec").unwrap();
    let mut count: i32 = 0;
    click(&mut count, inc);
    click(&mut count, dec);
    click(&mut count, inc);
    assert_eq!(format!("{}", count), "1");
}

#[test]
fn handlers_rebind_by_id_after_a_label_swap() {
    let mut r = Reloader::new(Some(&counter_tree("Inc", "Dec")));
    let mut count: i32 = 0;
    {
        let shown = r.displayed().unwrap();
        click(&mut count, find_by_id(shown, "inc").unwrap());
        assert_eq!(count, 1);
    }

    // The source file is rewritten with the two button labels swapped;
    // within one polling interval the rebuild lands and setup reruns.
    assert!(r.on_source_change(Some(counter_tree("Dec", "Inc"))));
    assert!(r.on_tick());

    // Setup looks the button up by id again: the widget with id `inc`
    // now carries the label `Dec`, so the handler bound to it fires on
    // the relabeled widget and decrements.
    let shown = r.displayed().unwrap();
    let rebound = find_by_id(shown, "inc").unwrap();
    assert_eq!(label_of(rebound).unwrap(), "Dec");
    click(&mut count, rebound);
    assert_eq!(count, 0);
}
