//! The layout and interaction core of a table widget with resizable columns.
//!
//! All quantities are whole numbers of layout units. The library decides how
//! wide each column is, where a column's divider sits, and how a divider
//! reacts to the pointer; drawing and event delivery are left to the caller.

pub mod divider;
pub mod geometry;
pub mod width;
pub mod table;
