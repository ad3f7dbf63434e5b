//! The dismissible popup host: where an overlay renders, when a document
//! click closes it, and the single global click subscription it owns.
//!
//! A document click is judged against the clicked element and its full
//! ancestry. The host only reads a few markers off each element, so an
//! element is modeled as the [`ElementInfo`] record of those markers; a
//! click is the vector of records from the target up to the document root.

use vstd::prelude::*;

verus! {

/// How an overlay is presented, which also fixes its dismissal rule.
#[derive(Debug, Clone, Copy, PartialEq, Eq, Structural)]
pub enum PopupType {
    /// Full foreground overlay with a dimmed backdrop.
    FullOverlay,
    /// A floating panel anchored at the given device coordinates.
    AtPoint(i32, i32),
    /// An always-in-flow panel.
    Display,
}

/// The marker classes the dismissal check distinguishes.
#[derive(Debug, Clone, Copy, PartialEq, Eq, Structural)]
pub enum MarkerClass {
    /// The full overlay's own backdrop element.
    Modal,
    /// The floating panel of an anchored popup.
    AtPointPanel,
    /// The panel of an in-flow popup.
    DisplayPanel,
}

/// What the dismissal check reads off one DOM element.
#[derive(Debug, Clone, Copy, PartialEq, Eq, Structural)]
pub struct ElementInfo {
    /// The element carries the backdrop marker class.
    pub has_modal_class: bool,
    /// The element carries the floating-panel marker class.
    pub has_at_point_class: bool,
    /// The element carries the in-flow panel marker class.
    pub has_display_class: bool,
    /// The element carries the explicit close-the-popup attribute.
    pub has_close_attr: bool,
    /// The element is this popup's own root.
    pub is_popup_root: bool,
}

impl ElementInfo {
    /// Whether the element carries the given marker class.
    pub open spec fn spec_has_class(self, class: MarkerClass) -> bool {
        match class {
            MarkerClass::Modal => self.has_modal_class,
            MarkerClass::AtPointPanel => self.has_at_point_class,
            MarkerClass::DisplayPanel => self.has_display_class,
        }
    }

    pub fn has_class(&self, class: MarkerClass) -> (r: bool)
        ensures
            r == self.spec_has_class(class),
    {
        match class {
            MarkerClass::Modal => self.has_modal_class,
            MarkerClass::AtPointPanel => self.has_at_point_class,
            MarkerClass::DisplayPanel => self.has_display_class,
        }
    }
}

/// Some element of the ancestry (the target included) carries the class.
pub open spec fn ancestry_has_class(path: Seq<ElementInfo>, class: MarkerClass) -> bool {
    exists|i: int| 0 <= i < path.len() && (#[trigger] path[i]).spec_has_class(class)
}

/// Some element of the ancestry carries the explicit close attribute.
pub open spec fn ancestry_has_close_attr(path: Seq<ElementInfo>) -> bool {
    exists|i: int| 0 <= i < path.len() && (#[trigger] path[i]).has_close_attr
}

/// The click target lies inside this popup's root.
pub open spec fn target_in_popup_root(path: Seq<ElementInfo>) -> bool {
    exists|i: int| 0 <= i < path.len() && (#[trigger] path[i]).is_popup_root
}

/// The variant-specific dismissal rule of a click, target first in `path`:
/// a full overlay closes when its own backdrop is hit, an anchored panel
/// when the click lands outside the panel, an in-flow panel likewise.
pub open spec fn dismiss_rule(t: PopupType, path: Seq<ElementInfo>) -> bool
    recommends
        path.len() > 0,
{
    match t {
        PopupType::FullOverlay => target_in_popup_root(path) && path[0].has_modal_class,
        PopupType::AtPoint(_, _) => !ancestry_has_class(path, MarkerClass::AtPointPanel),
        PopupType::Display => !ancestry_has_class(path, MarkerClass::DisplayPanel),
    }
}

/// A click closes the popup when an ancestor carries the explicit close
/// marker — whatever the variant — or the variant's own rule fires.
pub open spec fn spec_should_exit(t: PopupType, path: Seq<ElementInfo>) -> bool {
    ancestry_has_close_attr(path) || dismiss_rule(t, path)
}

/// Whether the clicked element or one of its ancestors carries the given
/// marker class.
pub fn does_parent_contain_class(path: &Vec<ElementInfo>, class: MarkerClass) -> (r: bool)
    ensures
        r == ancestry_has_class(path@, class),
{
    let n = path.len();
    let mut i: usize = 0;
    while i < n
        invariant
            i <= n,
            n == path@.len(),
            forall|k: int| 0 <= k < i ==> !(#[trigger] path@[k]).spec_has_class(class),
        decreases n - i,
    {
        if path[i].has_class(class) {
            return true;
        }
        i = i + 1;
    }
    false
}

/// Whether the clicked element or one of its ancestors carries the
/// explicit close-the-popup attribute.
pub fn does_parent_contain_attribute(path: &Vec<ElementInfo>) -> (r: bool)
    ensures
        r == ancestry_has_close_attr(path@),
{
    let n = path.len();
    let mut i: usize = 0;
    while i < n
        invariant
            i <= n,
            n == path@.len(),
            forall|k: int| 0 <= k < i ==> !(#[trigger] path@[k]).has_close_attr,
        decreases n - i,
    {
        if path[i].has_close_attr {
            return true;
        }
        i = i + 1;
    }
    false
}

/// Whether the click target sits inside this popup's own root.
fn contains_popup_root(path: &Vec<ElementInfo>) -> (r: bool)
    ensures
        r == target_in_popup_root(path@),
{
    let n = path.len();
    let mut i: usize = 0;
    while i < n
        invariant
            i <= n,
            n == path@.len(),
            forall|k: int| 0 <= k < i ==> !(#[trigger] path@[k]).is_popup_root,
        decreases n - i,
    {
        if path[i].is_popup_root {
            return true;
        }
        i = i + 1;
    }
    false
}

impl PopupType {
    /// Decide, for a document click with the given target ancestry,
    /// whether this popup must close itself.
    pub fn should_exit(self, path: &Vec<ElementInfo>) -> (r: bool)
        requires
            path@.len() > 0,
        ensures
            r == spec_should_exit(self, path@),
    {
        match self {
            // The click hit this overlay's own dimmed backdrop: content
            // clicks stay inside, backdrop clicks close.
            Self::FullOverlay if contains_popup_root(path) && path[0].has_class(
                MarkerClass::Modal,
            ) => true,
            // The click landed outside the floating panel.
            Self::AtPoint(_, _) if !does_parent_contain_class(
                path,
                MarkerClass::AtPointPanel,
            ) => true,
            // The click landed outside the in-flow panel.
            Self::Display if !does_parent_contain_class(path, MarkerClass::DisplayPanel) => true,
            // Otherwise only an explicit close marker closes.
            _ => does_parent_contain_attribute(path),
        }
    }
}

/// Where a popup's content is mounted.
#[derive(Debug, Clone, Copy, PartialEq, Eq, Structural)]
pub enum RenderTarget {
    /// Detached at the document root.
    Portal,
    /// In the ambient layout.
    InFlow,
}

/// Overlays render detached; the in-flow variant renders in place.
pub fn render_target(t: PopupType) -> (r: RenderTarget)
    ensures
        (t is Display) ==> r == RenderTarget::InFlow,
        !(t is Display) ==> r == RenderTarget::Portal,
{
    match t {
        PopupType::Display => RenderTarget::InFlow,
        _ => RenderTarget::Portal,
    }
}

/// Build an anchored popup from the anchor's position at open time. A
/// missing anchor fails closed: no popup, rather than one at undefined
/// coordinates.
pub fn open_at_point(anchor: Option<(i32, i32)>) -> (r: Option<PopupType>)
    ensures
        match anchor {
            Some(p) => r == Some(PopupType::AtPoint(p.0, p.1)),
            None => r is None,
        },
{
    match anchor {
        Some((x, y)) => Some(PopupType::AtPoint(x, y)),
        None => None,
    }
}

/// A live popup host: it owns at most one global click subscription,
/// named here by the handle the host's environment assigned to it.
#[derive(Debug)]
pub struct Popup {
    pub listener: Option<u64>,
}

impl Popup {
    /// A fresh host holds no subscription yet.
    pub fn create() -> (r: Self)
        ensures
            r.listener is None,
    {
        Self { listener: None }
    }

    /// The popup (re-)rendered: the new subscription takes the slot, and
    /// the previous one — returned here — must be removed first, so
    /// listeners never stack.
    pub fn rendered(&mut self, new_handle: u64) -> (removed: Option<u64>)
        ensures
            final(self).listener == Some(new_handle),
            removed == old(self).listener,
    {
        let removed = self.listener;
        self.listener = Some(new_handle);
        removed
    }

    /// The popup unmounts: the subscription — returned here for removal —
    /// is unconditionally given up, never left dangling.
    pub fn destroy(&mut self) -> (removed: Option<u64>)
        ensures
            final(self).listener is None,
            removed == old(self).listener,
    {
        let removed = self.listener;
        self.listener = None;
        removed
    }
}

/// For anchored popups: a click whose ancestry lacks the floating-panel
/// marker closes the popup; a click inside the panel (without an explicit
/// close marker) does not.
pub proof fn lemma_at_point_dismissal(x: i32, y: i32, path: Seq<ElementInfo>)
    requires
        path.len() > 0,
    ensures
        !ancestry_has_class(path, MarkerClass::AtPointPanel) ==> spec_should_exit(
            PopupType::AtPoint(x, y),
            path,
        ),
        ancestry_has_class(path, MarkerClass::AtPointPanel) && !ancestry_has_close_attr(path)
            ==> !spec_should_exit(PopupType::AtPoint(x, y), path),
{
}

} // verus!
