//! The single-choice dropdown, the search popup, and the small display
//! helpers.

use ui_common::component::expandable_container::container_clamp;
use ui_common::component::infinite_scroll::InfiniteScrollEvent;
use ui_common::component::search::Msg as SearchMsg;
use ui_common::component::search::PopupSearch;
use ui_common::component::search::SearchEvent;
use ui_common::component::search::SearchItem;
use ui_common::component::select::SelectItemProps;
use ui_common::component::select::SelectMessage;
use ui_common::component::select::SelectModule;
use ui_common::component::select::SelectProperty;
use ui_common::util::LoadingItem;

fn option_item(value: u64, name: &str) -> SelectItemProps {
    SelectItemProps {
        value,
        name: name.to_string(),
        selected: false,
        disabled: false,
    }
}

fn select_props(default: Option<u64>) -> SelectProperty {
    SelectProperty {
        children: vec![option_item(10, "a"), option_item(20, "b"), option_item(30, "c")],
        default,
        name: None,
        class: None,
        disabled: false,
    }
}

#[test]
fn selecting_an_index_reports_its_value() {
    let p = select_props(None);
    let mut s = SelectModule::create();
    let (render, picked) = s.update(&p, SelectMessage::OnSelectIndex(1));
    assert!(!render);
    assert_eq!(picked, Some(20));
    assert_eq!(s.selected_index, 1);
    // Out-of-range positions report nothing.
    let (_, picked) = s.update(&p, SelectMessage::OnSelectIndex(9));
    assert_eq!(picked, None);
}

#[test]
fn default_value_sets_the_index_on_first_render() {
    let p = select_props(Some(30));
    let mut s = SelectModule::create();
    assert_eq!(s.rendered(&p, true), Some(2));
    assert_eq!(s.selected_index, 2);
    // Later renders leave it alone.
    let mut s2 = SelectModule::create();
    assert_eq!(s2.rendered(&p, false), None);
    assert_eq!(s2.selected_index, 0);
}

#[test]
fn changed_default_realigns_the_index() {
    let p = select_props(Some(20));
    let mut s = SelectModule::create();
    let (render, sync) = s.changed(&p, Some(10));
    assert!(render);
    assert_eq!(sync, Some(1));
    assert_eq!(s.selected_index, 1);
    // An unchanged default does not touch the index.
    let (_, sync) = s.changed(&p, Some(20));
    assert_eq!(sync, None);
    // An absent or unknown default leaves the index alone too.
    let p2 = select_props(Some(99));
    let (_, sync) = s.changed(&p2, Some(20));
    assert_eq!(sync, None);
    assert_eq!(s.selected_index, 1);
}

fn hit(id: u64) -> SearchItem {
    SearchItem {
        id,
        thumbnail_url: None,
        name: Some("Dune".to_string()),
        description: None,
        author: None,
    }
}

#[test]
fn searching_marks_loading_and_requests_the_search() {
    let mut s = PopupSearch::create("du".to_string());
    let out = s.update(SearchMsg::SearchFor("dune".to_string()));
    assert!(matches!(s.cached_posters, Some(LoadingItem::Loading)));
    assert_eq!(out.event, Some(SearchEvent::CallSearch("dune".to_string())));
}

#[test]
fn a_response_caches_results_and_picks_the_first_tab() {
    let mut s = PopupSearch::create(String::new());
    s.update(SearchMsg::SearchFor("dune".to_string()));
    let groups = vec![
        ("openlibrary".to_string(), vec![hit(1), hit(2)]),
        ("google".to_string(), vec![hit(3)]),
    ];
    s.update(SearchMsg::BookSearchResponse("dune".to_string(), Ok(groups)));
    assert_eq!(s.selected_tab, "openlibrary");
    assert_eq!(s.input_value, "dune");
    assert!(matches!(s.cached_posters, Some(LoadingItem::Loaded(Ok(_)))));
    // Switching tabs only moves the shown group.
    s.update(SearchMsg::OnChangeTab("google".to_string()));
    assert_eq!(s.selected_tab, "google");
}

#[test]
fn an_error_response_keeps_the_tab() {
    let mut s = PopupSearch::create(String::new());
    s.update(SearchMsg::OnChangeTab("stay".to_string()));
    s.update(SearchMsg::BookSearchResponse(
        "q".to_string(),
        Err("backend down".to_string()),
    ));
    assert_eq!(s.selected_tab, "stay");
    assert!(matches!(s.cached_posters, Some(LoadingItem::Loaded(Err(_)))));
}

#[test]
fn only_the_first_selection_is_reported() {
    let mut s = PopupSearch::create(String::new());
    let out = s.update(SearchMsg::OnSelectItem(7));
    assert_eq!(out.event, Some(SearchEvent::Select(7)));
    // A second click while waiting reports nothing.
    let out2 = s.update(SearchMsg::OnSelectItem(8));
    assert_eq!(out2.event, None);
    assert!(!out2.render);
}

#[test]
fn shown_group_follows_the_selected_tab() {
    let mut s = PopupSearch::create(String::new());
    let groups = vec![
        ("openlibrary".to_string(), vec![hit(1), hit(2)]),
        ("google".to_string(), vec![hit(3)]),
    ];
    s.update(SearchMsg::OnChangeTab("google".to_string()));
    let shown = s.shown_group(&groups).expect("the google tab exists");
    assert_eq!(shown.len(), 1);
    assert_eq!(shown[0].id, 3);
    s.update(SearchMsg::OnChangeTab("unknown".to_string()));
    assert!(s.shown_group(&groups).is_none());
}

#[test]
fn select_properties_compare_by_content() {
    let a = select_props(Some(10));
    let b = select_props(Some(10));
    assert!(a == b);
    let c = select_props(Some(20));
    assert!(a != c);
    let mut d = select_props(Some(10));
    d.children[0].name = "other".to_string();
    assert!(a != d);
}

#[test]
fn clamp_style_follows_the_expansion_state() {
    // Contracted: the contracted limit, never scrolling.
    let c = container_clamp(false, Some(3), Some(10), true);
    assert_eq!(c.max_lines, Some(3));
    assert!(!c.overflow_scroll);
    // Expanded: the expanded limit, scrolling only where asked for.
    let e = container_clamp(true, Some(3), Some(10), true);
    assert_eq!(e.max_lines, Some(10));
    assert!(e.overflow_scroll);
    let e2 = container_clamp(true, Some(3), None, true);
    assert_eq!(e2.max_lines, None);
    assert!(!e2.overflow_scroll);
}

#[test]
fn scroll_event_positions_the_viewport_bottom() {
    let ev = InfiniteScrollEvent::from_element(600, 1200, 5000);
    assert_eq!(ev.scroll_pos, 1800);
    assert_eq!(ev.scroll_height, 5000);
}
