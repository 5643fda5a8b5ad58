//! How the GTK value types are laid out in the serde data model.
pub mod adjustment;
pub mod border;
pub mod paper_size;
pub mod string_list;
pub mod string_object;
