//! Verified core of a terminal client for an issue tracker: a shared view
//! cache with a clamped cursor, scrollable issue-list and detail components,
//! a tab strip over the available views, and the key-event dispatcher that
//! ties them together. Network, terminal drawing and other side effects live
//! outside the library and talk to it through plain values.

pub mod strutil;
pub mod iconmap;
pub mod views;
pub mod events;
pub mod issue;
pub mod cache;
pub mod issue_list;
pub mod tab_widget;
pub mod selected_issue;
pub mod app;
