//! Terminal text attributes as a composable bitset, and a cursor that
//! applies only the attribute changes a styled write actually needs.

pub mod style;
pub mod directive;
pub mod terminal;
pub mod cursor;
pub mod colorspec;
pub mod ansi;
