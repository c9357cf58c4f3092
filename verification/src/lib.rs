//! Panel layout for a two-column terminal dashboard.
//!
//! A frame is cut into a left and a right column by width percentages, and
//! each column into vertically stacked panels by height percentages. Every
//! panel has a title, a hotkey hint and a fixed decoration.

pub mod block;
pub mod geometry;
pub mod layout;
pub mod regions;
