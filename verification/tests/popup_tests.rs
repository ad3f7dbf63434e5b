//! The popup host: dismissal per variant, the listener slot, and the
//! trigger button around it.

use ui_common::component::button::ButtonMsg;
use ui_common::component::button::ButtonPopupPosition;
use ui_common::component::button::ButtonTitle;
use ui_common::component::button::ButtonWithPopup;
use ui_common::component::popup::open_at_point;
use ui_common::component::popup::render_target;
use ui_common::component::popup::ElementInfo;
use ui_common::component::popup::Popup;
use ui_common::component::popup::PopupType;
use ui_common::component::popup::RenderTarget;

fn plain() -> ElementInfo {
    ElementInfo {
        has_modal_class: false,
        has_at_point_class: false,
        has_display_class: false,
        has_close_attr: false,
        is_popup_root: false,
    }
}

#[test]
fn at_point_click_outside_panel_closes() {
    // target → parent → body, none carrying the floating-panel marker.
    let path = vec![plain(), plain(), plain()];
    assert!(PopupType::AtPoint(10, 20).should_exit(&path));
}

#[test]
fn at_point_click_inside_panel_stays_open() {
    let mut panel = plain();
    panel.has_at_point_class = true;
    // target inside the panel: the marker sits on an ancestor.
    let path = vec![plain(), panel, plain()];
    assert!(!PopupType::AtPoint(10, 20).should_exit(&path));
}

#[test]
fn close_attribute_overrides_every_variant() {
    let mut panel = plain();
    panel.has_at_point_class = true;
    let mut closer = plain();
    closer.has_close_attr = true;
    // Even inside the panel, an explicit close marker closes.
    let path = vec![closer, panel, plain()];
    assert!(PopupType::AtPoint(0, 0).should_exit(&path));

    let mut display_panel = plain();
    display_panel.has_display_class = true;
    let mut closer2 = plain();
    closer2.has_close_attr = true;
    let path2 = vec![closer2, display_panel];
    assert!(PopupType::Display.should_exit(&path2));
}

#[test]
fn full_overlay_backdrop_click_closes_content_click_does_not() {
    // Clicking the dimmed backdrop: the target is the overlay's own root
    // and carries the backdrop marker.
    let mut backdrop = plain();
    backdrop.has_modal_class = true;
    backdrop.is_popup_root = true;
    let path = vec![backdrop, plain()];
    assert!(PopupType::FullOverlay.should_exit(&path));

    // Clicking content inside the overlay: no backdrop marker on target.
    let mut root = plain();
    root.is_popup_root = true;
    let content_path = vec![plain(), root, plain()];
    assert!(!PopupType::FullOverlay.should_exit(&content_path));
}

#[test]
fn display_click_outside_panel_closes() {
    let path = vec![plain(), plain()];
    assert!(PopupType::Display.should_exit(&path));
    let mut panel = plain();
    panel.has_display_class = true;
    let inside = vec![plain(), panel];
    assert!(!PopupType::Display.should_exit(&inside));
}

#[test]
fn listener_slot_replaces_and_never_stacks() {
    let mut host = Popup::create();
    assert_eq!(host.listener, None);
    // First render: nothing to remove.
    assert_eq!(host.rendered(1), None);
    assert_eq!(host.listener, Some(1));
    // Re-render: the old listener comes back for removal first.
    assert_eq!(host.rendered(2), Some(1));
    assert_eq!(host.listener, Some(2));
    // Unmount: the subscription is given up unconditionally.
    assert_eq!(host.destroy(), Some(2));
    assert_eq!(host.listener, None);
    // A second destroy has nothing left to remove.
    assert_eq!(host.destroy(), None);
}

#[test]
fn overlays_render_detached_display_in_flow() {
    assert_eq!(render_target(PopupType::FullOverlay), RenderTarget::Portal);
    assert_eq!(render_target(PopupType::AtPoint(1, 2)), RenderTarget::Portal);
    assert_eq!(render_target(PopupType::Display), RenderTarget::InFlow);
}

#[test]
fn missing_anchor_fails_closed() {
    assert_eq!(open_at_point(None), None);
    assert_eq!(open_at_point(Some((3, 4))), Some(PopupType::AtPoint(3, 4)));
}

#[test]
fn trigger_button_toggle_emits_close_only_on_closing() {
    let mut b = ButtonWithPopup::create();
    assert!(!b.is_open);
    // Opening emits no close.
    assert!(!b.update(ButtonMsg::TogglePopup));
    assert!(b.is_open);
    // Toggling shut emits the close exactly once.
    assert!(b.update(ButtonMsg::TogglePopup));
    assert!(!b.is_open);
    // An explicit close always emits.
    b.update(ButtonMsg::TogglePopup);
    assert!(b.update(ButtonMsg::ClosePopup));
    assert!(!b.is_open);
}

#[test]
fn trigger_button_defaults_and_position_classes() {
    assert_eq!(ButtonPopupPosition::default(), ButtonPopupPosition::Bottom);
    assert!(matches!(ButtonTitle::default(), ButtonTitle::Icon("more_horiz")));
    assert_eq!(
        ButtonWithPopup::position_class(ButtonPopupPosition::Top),
        "popup-top"
    );
    assert_eq!(
        ButtonWithPopup::position_class(ButtonPopupPosition::Left),
        "popup-left"
    );
    let b = ButtonWithPopup::create();
    let v = b.view(ButtonPopupPosition::Right);
    assert!(!v.popup_open);
    assert_eq!(v.position_class, "popup-right");
}
