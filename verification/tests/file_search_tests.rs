//! The directory-picking dialog.

use ui_common::component::file_search::FileInfo;
use ui_common::component::file_search::FileSearchComponent;
use ui_common::component::file_search::FileSearchEvent;
use ui_common::component::file_search::Msg;

fn dir(title: &str, path: &str) -> FileInfo {
    FileInfo {
        title: title.to_string(),
        path: path.to_string(),
        is_file: false,
    }
}

#[test]
fn typing_a_location_trims_and_stores_it() {
    let mut c = FileSearchComponent::create("/home".to_string());
    let out = c.update(Msg::OnChange("  /srv/media  ".to_string()));
    assert!(out.render);
    assert_eq!(out.event, None);
    assert_eq!(c.set_location, Some("/srv/media".to_string()));
    assert_eq!(c.displayed_location(), "/srv/media");
}

#[test]
fn typing_only_whitespace_changes_nothing() {
    let mut c = FileSearchComponent::create("/home".to_string());
    c.update(Msg::OnChange("   ".to_string()));
    assert_eq!(c.set_location, None);
    assert_eq!(c.displayed_location(), "/home");
}

#[test]
fn opening_a_path_requests_its_listing() {
    let mut c = FileSearchComponent::create("/home".to_string());
    let out = c.update(Msg::OpenPath("/home/books".to_string()));
    assert!(!out.render);
    assert_eq!(
        out.event,
        Some(FileSearchEvent::Request("/home/books".to_string()))
    );
    assert_eq!(c.current_location, "/home/books");
}

#[test]
fn first_corrected_location_becomes_the_set_location() {
    let mut c = FileSearchComponent::create("/".to_string());
    // The collaborator corrects "/" to a drive root on the first answer.
    c.update(Msg::OpenResponse(
        Some("C:/".to_string()),
        vec![dir("books", "C:/books")],
    ));
    assert_eq!(c.set_location, Some("C:/".to_string()));
    assert!(c.initial_call);
    assert_eq!(c.current_location, "/");
    // Later corrections move the browsed location instead.
    c.update(Msg::OpenResponse(Some("C:/books".to_string()), Vec::new()));
    assert_eq!(c.current_location, "C:/books");
    assert_eq!(c.set_location, Some("C:/".to_string()));
}

#[test]
fn opening_the_popup_relists_when_saved_location_differs() {
    let mut c = FileSearchComponent::create("/home".to_string());
    c.update(Msg::OpenResponse(None, vec![dir("a", "/home/a")]));
    c.update(Msg::OpenPath("/home/a".to_string()));
    c.update(Msg::OpenResponse(None, vec![dir("b", "/home/a/b")]));
    // Opening resets browsing to the saved location (here: the mount
    // location), clearing stale entries and re-requesting.
    let out = c.update(Msg::TogglePopup);
    assert!(c.show_popup);
    assert_eq!(c.current_location, "/home");
    assert!(c.files.is_empty());
    assert_eq!(out.event, Some(FileSearchEvent::Request("/home".to_string())));
}

#[test]
fn opening_the_popup_keeps_a_matching_location() {
    let mut c = FileSearchComponent::create("/home".to_string());
    c.update(Msg::OpenResponse(None, vec![dir("a", "/home/a")]));
    let out = c.update(Msg::TogglePopup);
    assert!(c.show_popup);
    assert_eq!(out.event, None);
    assert_eq!(c.files.len(), 1);
}

#[test]
fn submit_reports_and_saves_the_browsed_location() {
    let mut c = FileSearchComponent::create("/home".to_string());
    c.update(Msg::TogglePopup);
    c.update(Msg::OpenPath("/home/books".to_string()));
    let out = c.update(Msg::Submit);
    assert!(!c.show_popup);
    assert_eq!(c.set_location, Some("/home/books".to_string()));
    assert_eq!(
        out.event,
        Some(FileSearchEvent::Submit("/home/books".to_string()))
    );
}

#[test]
fn changed_props_reset_the_dialog() {
    let mut c = FileSearchComponent::create("/old".to_string());
    c.update(Msg::OnChange("/typed".to_string()));
    let out = c.changed(&"/new".to_string());
    assert!(out.render);
    assert_eq!(out.event, Some(FileSearchEvent::Request("/new".to_string())));
    assert_eq!(c.set_location, None);
    assert_eq!(c.current_location, "/new");
    // The same location is a no-op.
    let out2 = c.changed(&"/new".to_string());
    assert!(!out2.render);
    assert_eq!(out2.event, None);
}
