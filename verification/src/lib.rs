use vstd::prelude::*;

pub mod action_plans;
pub mod actions;
pub mod blockify;
pub mod case;
pub mod closure_syntax;
pub mod closures;
pub mod convert;
pub mod definitions;
pub mod gst;
pub mod initable;
pub mod members;
pub mod methods;
pub mod serde_cairo;
pub mod serde_derive;
pub mod signal;
pub mod serde_gdk4;
pub mod serde_gio;
pub mod serde_glib;
pub mod serde_graphene;
pub mod serde_gsk4;
pub mod serde_gtk4;
pub mod serde_variant;
pub mod property;
pub mod syntax;
pub mod templates;
pub mod text;
pub mod type_definition;
pub mod util;
pub mod validations;
pub mod variant_derive;
pub mod widget_actions;
pub mod value;

verus! {
} // verus!
