//! A generic, canvas-rendered data table for iced: the verified part.
//!
//! This crate holds the table's data model (cells, rows, column alignment),
//! its style resolution, and the decisions the widget takes on pointer input,
//! highlighting and cache invalidation. The float layout math and the drawing
//! live with the widget itself, which calls into these pieces.

pub mod data_table;

pub use data_table::cell::{Cell, FontKind, TextRole, Weight};
pub use data_table::column::CellAlign;
pub use data_table::row::{Row, Toggle};
pub use data_table::style;
