//! Interactive widget engines: the multi-selection combobox, the
//! dismissible popup host, the trigger button, and the filter menu.

pub mod button;
pub mod compare;
pub mod expandable_container;
pub mod file_search;
pub mod filter;
pub mod infinite_scroll;
pub mod multi_select;
pub mod popup;
pub mod search;
pub mod select;
