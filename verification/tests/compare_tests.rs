//! The comparison popup: compiling rows, choosing sides, row rendering,
//! and the submission.

use ui_common::component::compare::display_row_plan;
use ui_common::component::compare::CompareContainer;
use ui_common::component::compare::CompareOutcome;
use ui_common::component::compare::Msg;
use ui_common::component::compare::CompareDisplay;
use ui_common::component::compare::CompareValue;
use ui_common::component::compare::MapValue;
use ui_common::component::compare::PopupComparison;
use ui_common::component::compare::RowPlan;
use ui_common::component::compare::SelectedSide;

fn entry(key: &str, display: &str, payload: u32) -> (String, MapValue<u32>) {
    (
        key.to_string(),
        MapValue {
            display_value: CompareValue::Single(display.to_string()),
            original_value: payload,
        },
    )
}

fn sample() -> CompareContainer<u32> {
    CompareContainer::create(
        vec![
            ("title".to_string(), "Title".to_string(), CompareDisplay::Text),
            ("thumb".to_string(), "Poster".to_string(), CompareDisplay::Image),
            ("rating".to_string(), "Rating".to_string(), CompareDisplay::Text),
        ],
        vec![entry("title", "Dune", 1), entry("rating", "4", 3)],
        vec![
            entry("title", "Dune (1965)", 11),
            entry("thumb", "cover.jpg", 12),
        ],
    )
}

#[test]
fn create_compiles_one_row_per_display_entry() {
    let c = sample();
    assert_eq!(c.get_field_names(), vec!["title", "thumb", "rating"]);
    assert_eq!(c.fields.len(), 3);
    // "title" has both sides, "thumb" only a right side, "rating" only a
    // left side.
    assert!(c.fields[0].1.left.is_some() && c.fields[0].1.right.is_some());
    assert!(c.fields[1].1.left.is_none() && c.fields[1].1.right.is_some());
    assert!(c.fields[2].1.left.is_some() && c.fields[2].1.right.is_none());
}

#[test]
fn create_consumes_duplicate_map_entries_in_order() {
    let c = CompareContainer::create(
        vec![
            ("a".to_string(), "First".to_string(), CompareDisplay::Text),
            ("a".to_string(), "Second".to_string(), CompareDisplay::Text),
        ],
        vec![entry("a", "one", 1), entry("a", "two", 2)],
        Vec::new(),
    );
    // Each row under the repeated field takes the next remaining entry.
    assert_eq!(c.fields[0].1.left.as_ref().unwrap().original_value, 1);
    assert_eq!(c.fields[1].1.left.as_ref().unwrap().original_value, 2);
}

#[test]
fn field_side_values_come_from_the_chosen_side() {
    let c = sample();
    assert_eq!(c.get_field_side_value("title", SelectedSide::Left), Some(&1));
    assert_eq!(
        c.get_field_side_value("title", SelectedSide::Right),
        Some(&11)
    );
    assert_eq!(c.get_field_side_value("thumb", SelectedSide::Left), None);
    assert_eq!(c.get_field_side_value("missing", SelectedSide::Left), None);
}

#[test]
fn side_value_map_collects_one_whole_side() {
    let c = sample();
    let left = c.get_side_value_map(SelectedSide::Left);
    assert_eq!(left.len(), 2);
    assert_eq!(left[0].0, "title");
    assert_eq!(*left[0].1, 1);
    assert_eq!(left[1].0, "rating");
    assert_eq!(*left[1].1, 3);
}

#[test]
fn popup_starts_all_left_and_records_choices() {
    let c = sample();
    let mut p = PopupComparison::create(&c);
    assert_eq!(p.side_for("title"), SelectedSide::Left);
    p.set_new_selected("title".to_string(), SelectedSide::Right);
    assert_eq!(p.side_for("title"), SelectedSide::Right);
    assert_eq!(p.side_for("rating"), SelectedSide::Left);
    // Unknown fields default to the left.
    assert_eq!(p.side_for("missing"), SelectedSide::Left);
}

#[test]
fn submission_collects_the_chosen_payloads() {
    let c = sample();
    let mut p = PopupComparison::create(&c);
    p.set_new_selected("title".to_string(), SelectedSide::Right);
    let m = p.submission(&c);
    // title: right side (11); thumb: left side missing, skipped;
    // rating: left side (3).
    assert_eq!(m.len(), 2);
    assert_eq!(m[0].0, "title");
    assert_eq!(*m[0].1, 11);
    assert_eq!(m[1].0, "rating");
    assert_eq!(*m[1].1, 3);
}

#[test]
fn changed_resets_every_choice_to_the_left() {
    let c = sample();
    let mut p = PopupComparison::create(&c);
    p.set_new_selected("title".to_string(), SelectedSide::Right);
    p.changed(&c);
    assert_eq!(p.side_for("title"), SelectedSide::Left);
}

#[test]
fn equal_rows_hide_unless_asked_for() {
    let l = MapValue {
        display_value: CompareValue::Single("same".to_string()),
        original_value: 1u32,
    };
    let r = MapValue {
        display_value: CompareValue::Single("same".to_string()),
        original_value: 2u32,
    };
    assert!(matches!(
        display_row_plan(Some(&l), Some(&r), false),
        RowPlan::Hidden
    ));
    assert!(matches!(
        display_row_plan(Some(&l), Some(&r), true),
        RowPlan::Both(_, _)
    ));
}

#[test]
fn differing_rows_show_and_right_only_rows_show() {
    let l = MapValue {
        display_value: CompareValue::Single("old".to_string()),
        original_value: 1u32,
    };
    let r = MapValue {
        display_value: CompareValue::Single("new".to_string()),
        original_value: 2u32,
    };
    assert!(matches!(
        display_row_plan(Some(&l), Some(&r), false),
        RowPlan::Both(_, _)
    ));
    assert!(matches!(
        display_row_plan::<u32>(None, Some(&r), false),
        RowPlan::RightOnly(_)
    ));
    assert!(matches!(
        display_row_plan::<u32>(Some(&l), None, false),
        RowPlan::Hidden
    ));
}

#[test]
fn update_relays_close_and_submit_and_records_choices() {
    let c = sample();
    let mut p = PopupComparison::create(&c);
    assert_eq!(
        p.update(Msg::Ignore),
        CompareOutcome {
            render: false,
            close: false,
            submit: false
        }
    );
    assert_eq!(
        p.update(Msg::OnClose),
        CompareOutcome {
            render: true,
            close: true,
            submit: false
        }
    );
    assert_eq!(
        p.update(Msg::OnSubmit),
        CompareOutcome {
            render: true,
            close: false,
            submit: true
        }
    );
    let out = p.update(Msg::SetNewSelected("title".to_string(), SelectedSide::Right));
    assert!(out.render && !out.close && !out.submit);
    assert_eq!(p.side_for("title"), SelectedSide::Right);
}

#[test]
fn compare_values_compare_by_content() {
    let a = CompareValue::Single("x".to_string());
    let b = CompareValue::Single("x".to_string());
    let c = CompareValue::Array(vec!["x".to_string()]);
    assert!(a == b);
    assert!(a != c); // a single line is not a one-line list
    let d = CompareValue::Array(vec!["x".to_string(), "y".to_string()]);
    assert!(c != d);
}

#[test]
fn compare_value_accessors() {
    let single = CompareValue::Single("one".to_string());
    assert_eq!(single.as_vec(), vec!["one"]);
    assert_eq!(single.as_single(), "one");
    let many = CompareValue::Array(vec!["a".to_string(), "b".to_string()]);
    assert_eq!(many.as_vec(), vec!["a", "b"]);
    assert_eq!(many.as_single(), "a");
    let empty = CompareValue::Array(Vec::new());
    assert_eq!(empty.as_single(), "[none]");
}
