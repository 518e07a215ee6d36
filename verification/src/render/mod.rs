//! Rendering: the box-drawing table and the bar graphs.

pub mod bar;
pub mod table;
