//! The trigger button: one open/closed boolean around a hosted popup,
//! with a close callback fired exactly once per close transition.

use vstd::prelude::*;

verus! {

/// Which side of the trigger the popup opens on. Pure styling.
#[derive(Debug, Clone, Copy, PartialEq, Eq, Structural)]
pub enum ButtonPopupPosition {
    Top,
    Bottom,
    Left,
    Right,
}

impl Default for ButtonPopupPosition {
    fn default() -> (r: Self)
        ensures
            r == ButtonPopupPosition::Bottom,
    {
        Self::Bottom
    }
}

/// What the trigger shows: a text label or a named icon.
#[derive(Debug, Clone, PartialEq, Eq)]
pub enum ButtonTitle {
    Text(String),
    Icon(&'static str),
}

impl Default for ButtonTitle {
    fn default() -> (r: Self)
        ensures
            (r matches ButtonTitle::Icon(t) && t@ == "more_horiz"@),
    {
        Self::Icon("more_horiz")
    }
}

/// A message the trigger button handles.
#[derive(Debug, Clone, Copy, PartialEq, Eq, Structural)]
pub enum ButtonMsg {
    TogglePopup,
    ClosePopup,
}

/// The styling class of a popup position.
pub open spec fn spec_position_class(p: ButtonPopupPosition) -> Seq<char> {
    match p {
        ButtonPopupPosition::Top => "popup-top"@,
        ButtonPopupPosition::Bottom => "popup-bottom"@,
        ButtonPopupPosition::Left => "popup-left"@,
        ButtonPopupPosition::Right => "popup-right"@,
    }
}

/// What the button renders: whether the hosted popup is mounted, and the
/// position class it carries.
#[derive(Debug)]
pub struct ButtonView {
    pub popup_open: bool,
    pub position_class: &'static str,
}

/// A button that owns one open/closed popup.
#[derive(Debug, Clone, Copy, PartialEq, Eq, Structural)]
pub struct ButtonWithPopup {
    pub is_open: bool,
}

impl ButtonWithPopup {
    pub fn create() -> (r: Self)
        ensures
            !r.is_open,
    {
        Self { is_open: false }
    }

    /// One step: toggling flips the flag, closing clears it. The result
    /// says whether the close callback must fire — exactly on the steps
    /// that end with the popup closed.
    pub fn update(&mut self, msg: ButtonMsg) -> (close_emitted: bool)
        ensures
            match msg {
                ButtonMsg::TogglePopup => {
                    &&& final(self).is_open == !old(self).is_open
                    &&& close_emitted == old(self).is_open
                },
                ButtonMsg::ClosePopup => {
                    &&& final(self).is_open == false
                    &&& close_emitted
                },
            },
    {
        match msg {
            ButtonMsg::TogglePopup => {
                self.is_open = !self.is_open;
                !self.is_open
            },
            ButtonMsg::ClosePopup => {
                self.is_open = false;
                true
            },
        }
    }

    /// The styling class for a popup position.
    pub fn position_class(position: ButtonPopupPosition) -> (r: &'static str)
        ensures
            r@ == spec_position_class(position),
    {
        match position {
            ButtonPopupPosition::Top => "popup-top",
            ButtonPopupPosition::Bottom => "popup-bottom",
            ButtonPopupPosition::Left => "popup-left",
            ButtonPopupPosition::Right => "popup-right",
        }
    }

    /// What this state renders: the popup is mounted exactly while open.
    pub fn view(&self, position: ButtonPopupPosition) -> (r: ButtonView)
        ensures
            r.popup_open == self.is_open,
            r.position_class@ == spec_position_class(position),
    {
        ButtonView { popup_open: self.is_open, position_class: Self::position_class(position) }
    }
}

} // verus!
