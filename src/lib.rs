pub mod document;
pub mod line_index;
pub mod rope_store;
