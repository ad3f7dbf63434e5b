//! Shared user-interface widget logic: a filtering, keyboard-navigable
//! multi-selection engine, a dismissible overlay host, a trigger button,
//! and the query-string computation behind nested filter menus, together
//! with the plain data types exchanged with a backend.

pub mod api;
pub mod component;
pub mod digits;
pub mod error;
pub mod specific;
pub mod util;
