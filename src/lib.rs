//! Auto-scroll-to-end for a scrollable view: growth of the content is noticed
//! while it is measured, and a scroll to the far edge is issued on the next
//! data update, when the caller's policy allows it.
pub mod geometry;
pub mod scroll_snap;
pub mod laws;
pub mod viewport;
pub mod types;
pub mod list_snap;
