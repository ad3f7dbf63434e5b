//! The multi-selection engine: filtering, keyboard navigation, selection,
//! creation, and the deferred blur.

use ui_common::component::multi_select::Key;
use ui_common::component::multi_select::MultiSelectEvent;
use ui_common::component::multi_select::MultiSelectItemProps;
use ui_common::component::multi_select::MultiSelectMessage;
use ui_common::component::multi_select::MultiSelectModule;
use ui_common::component::multi_select::MultiSelectProperty;
use ui_common::component::multi_select::ViewPlan;

fn item(id: u64, name: &str, selected: bool) -> MultiSelectItemProps {
    MultiSelectItemProps {
        id,
        name: name.to_string(),
        selected,
        hovering: false,
    }
}

fn props(children: Vec<MultiSelectItemProps>, editing: bool, create_new: bool) -> MultiSelectProperty {
    MultiSelectProperty {
        children,
        editing,
        create_new,
    }
}

fn number_items() -> Vec<MultiSelectItemProps> {
    vec![
        item(0, "Zero", false),
        item(1, "One", false),
        item(2, "Two", false),
        item(3, "Three", false),
        item(4, "Four", false),
    ]
}

fn engine_with_filter(text: &str, p: &MultiSelectProperty) -> MultiSelectModule {
    let mut m = MultiSelectModule::create();
    m.update(p, MultiSelectMessage::OnFocus);
    m.update(
        p,
        MultiSelectMessage::OnInputChange(Key::Other, text.to_string()),
    );
    m
}

#[test]
fn filtering_is_case_insensitive_substring() {
    let p = props(number_items(), true, true);
    let m = engine_with_filter("o", &p);
    // "o" matches Zero, One, Two, Four (case-insensitively), not Three.
    assert_eq!(m.visible_children(&p), vec![0, 1, 2, 4]);
    assert_eq!(m.viewable_children_count(&p), 4);

    let m = engine_with_filter("O", &p);
    assert_eq!(m.visible_children(&p), vec![0, 1, 2, 4]);

    let m = engine_with_filter("hre", &p);
    assert_eq!(m.visible_children(&p), vec![3]);
}

#[test]
fn filtering_excludes_selected_items() {
    let mut children = number_items();
    children[0].selected = true; // Zero is already chosen
    let p = props(children, true, true);
    let m = engine_with_filter("o", &p);
    assert_eq!(m.visible_children(&p), vec![1, 2, 4]);

    // The empty filter shows every unselected item.
    let m = engine_with_filter("", &p);
    assert_eq!(m.visible_children(&p), vec![1, 2, 3, 4]);
}

#[test]
fn select_item_emits_exactly_one_toggle() {
    let p = props(number_items(), true, true);
    let mut m = MultiSelectModule::create();
    let out = m.update(&p, MultiSelectMessage::OnSelectItem(3));
    assert_eq!(
        out.event,
        Some(MultiSelectEvent::Toggle {
            toggle: true,
            id: 3
        })
    );
    // No other event and no highlight change accompany it.
    assert_eq!(m.selected_index, 0);
}

#[test]
fn select_item_with_unknown_id_emits_nothing() {
    let p = props(number_items(), true, true);
    let mut m = MultiSelectModule::create();
    let out = m.update(&p, MultiSelectMessage::OnSelectItem(77));
    assert_eq!(out.event, None);
}

#[test]
fn unselect_item_is_inert_in_view_only_mode() {
    let mut children = number_items();
    children[0].selected = true;
    let p = props(children, false, true);
    let mut m = MultiSelectModule::create();
    m.update(&p, MultiSelectMessage::OnFocus);
    let index_before = m.selected_index;
    let focused_before = m.is_focused;
    let out = m.update(&p, MultiSelectMessage::OnUnselectItem(0));
    assert_eq!(out.event, None);
    assert!(!out.render);
    assert_eq!(m.selected_index, index_before);
    assert_eq!(m.is_focused, focused_before);
}

#[test]
fn unselect_item_toggles_off_in_edit_mode() {
    let mut children = number_items();
    children[0].selected = true;
    let p = props(children, true, true);
    let mut m = MultiSelectModule::create();
    let out = m.update(&p, MultiSelectMessage::OnUnselectItem(0));
    assert_eq!(
        out.event,
        Some(MultiSelectEvent::Toggle {
            toggle: false,
            id: 0
        })
    );
}

#[test]
fn deferred_blur_is_discarded_after_refocus() {
    let p = props(number_items(), true, true);
    let mut m = MultiSelectModule::create();
    m.update(&p, MultiSelectMessage::OnFocus);
    // The input loses focus: a blur is scheduled with today's token.
    let token = m.schedule_blur();
    // Focus returns before the timer fires.
    m.update(&p, MultiSelectMessage::OnFocus);
    // The timer finally fires; its token is stale, so nothing happens.
    let out = m.update(&p, MultiSelectMessage::OnUnfocus(token));
    assert!(m.is_focused);
    assert!(!out.render);
}

#[test]
fn deferred_blur_applies_without_refocus() {
    let p = props(number_items(), true, true);
    let mut m = MultiSelectModule::create();
    m.update(&p, MultiSelectMessage::OnFocus);
    m.update(&p, MultiSelectMessage::OnKeyDown(Key::ArrowDown));
    let token = m.schedule_blur();
    let out = m.update(&p, MultiSelectMessage::OnUnfocus(token));
    assert!(!m.is_focused);
    assert_eq!(m.selected_index, 0);
    assert!(out.render);
}

#[test]
fn deferred_blur_is_a_no_op_after_destroy() {
    let p = props(number_items(), true, true);
    let mut m = MultiSelectModule::create();
    m.update(&p, MultiSelectMessage::OnFocus);
    let token = m.schedule_blur();
    m.destroy();
    m.update(&p, MultiSelectMessage::OnUnfocus(token));
    assert!(m.is_focused);
}

#[test]
fn enter_on_create_row_emits_create_and_clears_input() {
    let p = props(number_items(), true, true);
    let mut m = engine_with_filter("Five", &p);
    // "Five" matches nothing, so the highlight sits on the create row.
    assert_eq!(m.viewable_children_count(&p), 0);
    let out = m.update(&p, MultiSelectMessage::OnPressEnter);
    match out.event {
        Some(MultiSelectEvent::Create(n)) => assert_eq!(n.name, "Five"),
        other => panic!("expected a create request, got {:?}", other),
    }
    assert_eq!(m.filter_text, "");
}

#[test]
fn enter_on_create_row_emits_nothing_when_creation_disabled() {
    let p = props(number_items(), true, false);
    let mut m = engine_with_filter("Five", &p);
    let out = m.update(&p, MultiSelectMessage::OnPressEnter);
    assert_eq!(out.event, None);
    // The input keeps its text: nothing was consumed.
    assert_eq!(m.filter_text, "Five");
}

#[test]
fn enter_selects_the_highlighted_item() {
    let p = props(number_items(), true, true);
    let mut m = engine_with_filter("o", &p);
    // visible: Zero, One, Two, Four; highlight the second one.
    m.update(&p, MultiSelectMessage::OnKeyDown(Key::ArrowDown));
    let out = m.update(&p, MultiSelectMessage::OnPressEnter);
    assert_eq!(
        out.event,
        Some(MultiSelectEvent::Toggle {
            toggle: true,
            id: 1
        })
    );
}

#[test]
fn input_change_resets_highlight_and_reports_text() {
    let p = props(number_items(), true, true);
    let mut m = MultiSelectModule::create();
    m.update(&p, MultiSelectMessage::OnFocus);
    m.update(&p, MultiSelectMessage::OnKeyDown(Key::ArrowDown));
    m.update(&p, MultiSelectMessage::OnKeyDown(Key::ArrowDown));
    assert_eq!(m.selected_index, 2);
    let out = m.update(
        &p,
        MultiSelectMessage::OnInputChange(Key::Other, "tw".to_string()),
    );
    assert_eq!(m.selected_index, 0);
    assert_eq!(
        out.event,
        Some(MultiSelectEvent::Input {
            text: "tw".to_string()
        })
    );
}

#[test]
fn arrow_navigation_keeps_highlight_in_bounds() {
    let p = props(number_items(), true, false);
    let mut m = MultiSelectModule::create();
    // Up from the top stays at the top.
    m.update(&p, MultiSelectMessage::OnKeyDown(Key::ArrowUp));
    assert_eq!(m.selected_index, 0);
    // Without a create row, down clamps at the last item (index 4).
    for _ in 0..10 {
        m.update(&p, MultiSelectMessage::OnKeyDown(Key::ArrowDown));
        assert!(m.selected_index <= m.viewable_children_count(&p));
    }
    assert_eq!(m.selected_index, 4);
}

#[test]
fn arrow_down_reaches_create_row_when_offered() {
    let p = props(number_items(), true, true);
    let mut m = engine_with_filter("o", &p);
    // visible count 4; with the create row shown the bound is 4.
    for _ in 0..10 {
        m.update(&p, MultiSelectMessage::OnKeyDown(Key::ArrowDown));
    }
    assert_eq!(m.selected_index, 4);
    assert_eq!(m.viewable_children_count(&p), 4);
}

#[test]
fn hover_moves_highlight_to_visible_position() {
    let p = props(number_items(), true, true);
    let mut m = engine_with_filter("o", &p);
    // visible: Zero(0), One(1), Two(2), Four(4); hovering Four is index 3.
    m.update(&p, MultiSelectMessage::OnHover(Some(4)));
    assert_eq!(m.selected_index, 3);
    // Hovering an invisible item changes nothing.
    m.update(&p, MultiSelectMessage::OnHover(Some(3)));
    assert_eq!(m.selected_index, 3);
    // Hovering the boundary (the create row) moves past the list.
    m.update(&p, MultiSelectMessage::OnHover(None));
    assert_eq!(m.selected_index, 4);
}

#[test]
fn opened_follows_focus_and_content() {
    let p = props(Vec::new(), true, true);
    let mut m = MultiSelectModule::create();
    assert!(!m.is_opened);
    // Focused but nothing to show: closed.
    m.update(&p, MultiSelectMessage::OnFocus);
    assert!(!m.is_opened);
    // Typing something opens the (create-only) dropdown.
    m.update(
        &p,
        MultiSelectMessage::OnInputChange(Key::Other, "x".to_string()),
    );
    assert!(m.is_opened);
    // With items present, focus alone opens it.
    let p2 = props(number_items(), true, true);
    let mut m2 = MultiSelectModule::create();
    m2.update(&p2, MultiSelectMessage::OnFocus);
    assert!(m2.is_opened);
}

#[test]
fn register_created_proposes_selection_only_while_alive() {
    let mut children = number_items();
    children.push(item(9, "Five", false));
    let p = props(children, true, true);
    let mut m = MultiSelectModule::create();
    assert_eq!(
        m.register_created(&p, 9),
        Some(MultiSelectEvent::Toggle {
            toggle: true,
            id: 9
        })
    );
    m.destroy();
    assert_eq!(m.register_created(&p, 9), None);
}

#[test]
fn dropdown_rows_highlight_exactly_the_selected_position() {
    let p = props(number_items(), true, true);
    let mut m = engine_with_filter("o", &p);
    m.update(&p, MultiSelectMessage::OnKeyDown(Key::ArrowDown));
    let rows = m.dropdown_rows(&p);
    assert_eq!(rows.len(), 4);
    let hovered: Vec<u64> = rows.iter().filter(|r| r.hovering).map(|r| r.id).collect();
    assert_eq!(hovered, vec![1]);
}

#[test]
fn view_plan_matches_editing_flag() {
    let mut children = number_items();
    children[2].selected = true;
    let p_view = props(children.clone(), false, true);
    let m = MultiSelectModule::create();
    match m.view(&p_view) {
        ViewPlan::Viewing(pills) => {
            assert_eq!(pills.len(), 1);
            assert_eq!(pills[0].id, 2);
        }
        ViewPlan::Editing(_) => panic!("view-only props must render the viewing plan"),
    }
    let p_edit = props(children, true, true);
    match m.view(&p_edit) {
        ViewPlan::Editing(v) => {
            assert_eq!(v.chosen.len(), 1);
            assert_eq!(v.dropdown.len(), 4);
            assert!(v.create_row.is_none());
        }
        ViewPlan::Viewing(_) => panic!("editing props must render the editing plan"),
    }
}

#[test]
fn item_props_compare_by_content() {
    let a = item(1, "One", false);
    let b = item(1, "One", false);
    assert!(a == b);
    assert!(a != item(1, "one", false));
    assert!(a != item(2, "One", false));
    assert!(a != item(1, "One", true));
}

#[test]
fn changed_refocuses_the_input_while_focused() {
    let p = props(number_items(), true, true);
    let mut m = MultiSelectModule::create();
    assert_eq!(m.changed(), (true, false));
    m.update(&p, MultiSelectMessage::OnFocus);
    assert_eq!(m.changed(), (true, true));
}

#[test]
fn keyup_enter_behaves_like_press_enter() {
    let p = props(number_items(), true, true);
    let mut m = engine_with_filter("o", &p);
    let out = m.update(&p, MultiSelectMessage::OnKeyUp(Key::Enter, "o".to_string()));
    assert_eq!(
        out.event,
        Some(MultiSelectEvent::Toggle {
            toggle: true,
            id: 0
        })
    );
}
