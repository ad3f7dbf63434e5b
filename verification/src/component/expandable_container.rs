//! The expanding text block: how many lines it clamps to, depending on
//! whether it is expanded.

use vstd::prelude::*;

verus! {

/// The clamp a text container renders with.
#[derive(Debug, Clone, Copy, PartialEq, Eq, Structural)]
pub struct ClampStyle {
    /// Clamp to this many lines, if at all.
    pub max_lines: Option<usize>,
    /// Whether overflowing text scrolls instead of hiding.
    pub overflow_scroll: bool,
}

/// The clamp for the current expansion state: expanded, the expanded
/// limit applies, and scrolling only where asked for; contracted, the
/// contracted limit applies without scrolling.
pub fn container_clamp(
    is_expanded: bool,
    max_contracted_lines: Option<usize>,
    max_expanded_lines: Option<usize>,
    overflow_scroll: bool,
) -> (r: ClampStyle)
    ensures
        is_expanded ==> match max_expanded_lines {
            Some(m) => r.max_lines == Some(m) && r.overflow_scroll == overflow_scroll,
            None => r.max_lines is None && !r.overflow_scroll,
        },
        !is_expanded ==> match max_contracted_lines {
            Some(m) => r.max_lines == Some(m) && !r.overflow_scroll,
            None => r.max_lines is None && !r.overflow_scroll,
        },
{
    if is_expanded {
        match max_expanded_lines {
            Some(m) => ClampStyle { max_lines: Some(m), overflow_scroll },
            None => ClampStyle { max_lines: None, overflow_scroll: false },
        }
    } else {
        match max_contracted_lines {
            Some(m) => ClampStyle { max_lines: Some(m), overflow_scroll: false },
            None => ClampStyle { max_lines: None, overflow_scroll: false },
        }
    }
}

} // verus!
