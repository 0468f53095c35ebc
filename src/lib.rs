//! Code generation for deriving `EguiInspect`.
//!
//! The derive input is described by plain values (`model`): the type's name,
//! its generic parameters, and the shape of its fields or variants with the
//! `#[inspect(...)]` options of each field. From that description the
//! generator writes the source text of the trait impl, whose `inspect` and
//! `inspect_mut` bodies bind each field to a widget.

pub mod model;
pub mod outside;
pub mod fields;
pub mod variants;
pub mod derive;

pub use model::{
    AttributeArgs, Data, DeriveInput, Field, Fields, GenerateError, GenericParam, TypeShape,
    Variant, get_path_str,
};
pub use fields::{
    custom_call_text, default_call_text, get_default_function_call, handle_custom_func,
    handle_fields, handle_named_field, handle_named_fields, handle_unnamed_fields,
    named_field_text, try_handle_internal_path,
};
pub use variants::{handle_enum, variant_combo, variant_inspect_arm, variant_name_arm};
pub use derive::{add_trait_bounds, derive_egui_inspect, inspect_struct};
