//! The infinite-scroll wrapper's event: where the viewport sits inside
//! the scrolled content.

use vstd::prelude::*;

verus! {

/// A scroll observation: how far the visible bottom edge has come, and
/// the content's full height.
#[derive(Debug, Clone, Copy, PartialEq, Eq, Structural)]
pub struct InfiniteScrollEvent {
    /// The visible height plus the scrolled-away height: the content
    /// position of the viewport's bottom edge.
    pub scroll_pos: i32,
    pub scroll_height: i32,
}

impl InfiniteScrollEvent {
    /// Assemble the event from the element's measurements.
    pub fn from_element(client_height: i32, scroll_top: i32, scroll_height: i32) -> (r: Self)
        requires
            client_height + scroll_top <= i32::MAX,
            client_height + scroll_top >= i32::MIN,
        ensures
            r.scroll_pos == client_height + scroll_top,
            r.scroll_height == scroll_height,
    {
        Self { scroll_pos: client_height + scroll_top, scroll_height }
    }
}

} // verus!
