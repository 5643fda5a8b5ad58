//! How the GLib value types are laid out in the serde data model.
pub mod bytes;
pub mod date;
pub mod date_time;
pub mod enum_;
pub mod flags;
pub mod gstr;
pub mod gstring;
pub mod key_file;
pub mod time_span;
pub mod time_zone;
pub mod uri;
