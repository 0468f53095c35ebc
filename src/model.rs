//! Plain description of a type that derives `EguiInspect`.

use vstd::prelude::*;

verus! {

/// The `#[inspect(...)]` options of one field.
pub struct AttributeArgs {
    /// Label shown on the UI instead of the field's identifier.
    pub name: Option<String>,
    /// No code is generated for the field.
    pub hide: bool,
    /// The field is never edited, only displayed.
    pub no_edit: bool,
    /// Numbers are edited with a slider rather than a drag value.
    pub slider: bool,
    /// Source text of the slider's lower bound, an `f32` literal.
    pub min: String,
    /// Source text of the slider's upper bound, an `f32` literal.
    pub max: String,
    /// Strings are edited on several lines.
    pub multiline: bool,
    /// Path of a function that displays the field.
    pub custom_func: Option<String>,
    /// Path of a function that edits the field.
    pub custom_func_mut: Option<String>,
}

impl Default for AttributeArgs {
    fn default() -> (r: Self)
        ensures
            r.name is None,
            !r.hide,
            !r.no_edit,
            r.slider,
            r.min@ == "0.0f32"@,
            r.max@ == "100.0f32"@,
            !r.multiline,
            r.custom_func is None,
            r.custom_func_mut is None,
    {
        AttributeArgs {
            name: None,
            hide: false,
            no_edit: false,
            slider: true,
            min: String::from_str("0.0f32"),
            max: String::from_str("100.0f32"),
            multiline: false,
            custom_func: None,
            custom_func_mut: None,
        }
    }
}

/// The shape of a field's type, as far as the generator reads it.
pub enum TypeShape {
    /// A path type; `ident` is its identifier when the path is a single one
    /// (`u32`, `String`), and `None` otherwise (`std::string::String`, `Vec<T>`).
    Path { ident: Option<String> },
    /// A reference type `&T` or `&mut T`.
    Reference { elem: Box<TypeShape> },
    /// Any other type (tuple, array, slice, ...).
    Other,
}

/// A named field.
pub struct Field {
    pub ident: String,
    pub ty: TypeShape,
    pub attrs: AttributeArgs,
}

/// The fields of a struct or of an enum variant.
pub enum Fields {
    Named(Vec<Field>),
    /// A tuple of this many fields.
    Unnamed(usize),
    Unit,
}

pub struct Variant {
    pub ident: String,
    pub fields: Fields,
}

pub enum Data {
    Struct(Fields),
    Enum(Vec<Variant>),
    Union,
}

/// A generic parameter, with its outer attributes and bounds as source text.
pub enum GenericParam {
    /// `name` includes the leading apostrophe.
    Lifetime { attrs: Vec<String>, name: String, bounds: Vec<String> },
    Type { attrs: Vec<String>, name: String, bounds: Vec<String> },
    Const { attrs: Vec<String>, name: String, ty: String },
}

/// The type that derives `EguiInspect`.
pub struct DeriveInput {
    pub ident: String,
    pub generics: Vec<GenericParam>,
    /// Source text of the where clause, without the `where` keyword.
    pub where_clause: Option<String>,
    pub data: Data,
}

/// Inputs for which no impl is generated.
#[derive(Debug)]
pub enum GenerateError {
    /// Unions cannot be inspected.
    UnsupportedUnion,
    /// An enum variant with unnamed fields cannot be edited.
    UnsupportedTupleVariant { variant: String },
    /// A `custom_func` or `custom_func_mut` option that is not a path.
    InvalidFunctionPath { path: String },
}

/// What makes the generation fail, over plain values.
pub enum Failure {
    UnsupportedUnion,
    UnsupportedTupleVariant(Seq<char>),
    InvalidFunctionPath(Seq<char>),
}

pub open spec fn failure_of(e: GenerateError) -> Failure {
    match e {
        GenerateError::UnsupportedUnion => Failure::UnsupportedUnion,
        GenerateError::UnsupportedTupleVariant { variant } => Failure::UnsupportedTupleVariant(variant@),
        GenerateError::InvalidFunctionPath { path } => Failure::InvalidFunctionPath(path@),
    }
}

/// `r` is `Ok` with the text `text` when there is no failure, else the error `failure`.
pub open spec fn outcome(r: Result<String, GenerateError>, failure: Option<Failure>, text: Seq<char>) -> bool {
    match failure {
        None => r matches Ok(t) && t@ == text,
        Some(f) => r matches Err(e) && failure_of(e) == f,
    }
}

pub open spec fn opt_text(o: Option<String>) -> Option<Seq<char>> {
    match o {
        Some(s) => Some(s@),
        None => None,
    }
}

/// The identifier naming a type, looking through references; the empty
/// text for a type that is neither a path nor a reference.
pub open spec fn path_str(ty: TypeShape) -> Option<Seq<char>>
    decreases ty,
{
    match ty {
        TypeShape::Path { ident } => opt_text(ident),
        TypeShape::Reference { elem } => path_str(*elem),
        TypeShape::Other => Some(Seq::empty()),
    }
}

/// The identifier naming the type `ty`, looking through references.
pub fn get_path_str(ty: &TypeShape) -> (r: Option<String>)
    ensures
        opt_text(r) == path_str(*ty),
    decreases ty,
{
    match ty {
        TypeShape::Path { ident } => match ident {
            Some(name) => Some(name.clone()),
            None => None,
        },
        TypeShape::Reference { elem } => get_path_str(elem),
        TypeShape::Other => Some(String::new()),
    }
}

} // verus!
