//! Widget state: the data-cursor tooltip, form fields, and the sampling of a
//! grid onto terminal cells.

pub mod data_cursor;
pub mod form_field;
pub mod grid_sampling;
