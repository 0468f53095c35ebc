use egui_inspect::{
    add_trait_bounds, derive_egui_inspect, get_default_function_call, get_path_str,
    handle_custom_func, handle_enum, handle_fields, handle_named_field, handle_named_fields,
    handle_unnamed_fields, inspect_struct, try_handle_internal_path, variant_combo,
    variant_inspect_arm, variant_name_arm, AttributeArgs, Data, DeriveInput, Field, Fields,
    GenerateError, GenericParam, TypeShape, Variant,
};
use egui_inspect::fields::decimal_text;
use egui_inspect::{custom_call_text, default_call_text, named_field_text};

fn path(name: &str) -> TypeShape {
    TypeShape::Path { ident: Some(name.to_string()) }
}

fn field(ident: &str, ty: TypeShape, attrs: AttributeArgs) -> Field {
    Field { ident: ident.to_string(), ty, attrs }
}

fn plain(ident: &str, ty: &str) -> Field {
    field(ident, path(ty), AttributeArgs::default())
}

fn my_enum_variants() -> Vec<Variant> {
    let mut salut = AttributeArgs::default();
    salut.name = Some("salut_field".to_string());
    vec![
        Variant { ident: "AnOptionWithNoData".to_string(), fields: Fields::Unit },
        Variant {
            ident: "AnOptionWithStructData".to_string(),
            fields: Fields::Named(vec![plain("vec", "Vector"), field("salut", path("Salut"), salut)]),
        },
    ]
}

const IMPL_HEAD: &str = " egui_inspect::EguiInspect for ";
const INSPECT: &str = " { fn inspect(&self, label: &str, ui: &mut egui::Ui) { ";
const INSPECT_MUT: &str = " } fn inspect_mut(&mut self, label: &str, ui: &mut egui::Ui) { ";

#[test]
fn attribute_defaults() {
    let a = AttributeArgs::default();
    assert_eq!(a.name, None);
    assert!(!a.hide && !a.no_edit && a.slider && !a.multiline);
    assert_eq!(a.min, "0.0f32");
    assert_eq!(a.max, "100.0f32");
    assert_eq!(a.custom_func, None);
    assert_eq!(a.custom_func_mut, None);
}

#[test]
fn path_str_of_shapes() {
    assert_eq!(get_path_str(&path("u8")), Some("u8".to_string()));
    let r = TypeShape::Reference { elem: Box::new(TypeShape::Reference { elem: Box::new(path("str")) }) };
    assert_eq!(get_path_str(&r), Some("str".to_string()));
    assert_eq!(get_path_str(&TypeShape::Path { ident: None }), None);
    assert_eq!(get_path_str(&TypeShape::Other), Some(String::new()));
}

#[test]
fn decimal_digits() {
    assert_eq!(decimal_text(0), "0");
    assert_eq!(decimal_text(7), "7");
    assert_eq!(decimal_text(1234), "1234");
    assert_eq!(decimal_text(usize::MAX), usize::MAX.to_string());
}

#[test]
fn default_call_readonly_and_mutable() {
    let f = plain("vector_struct", "Vector");
    assert_eq!(get_default_function_call(&f, false, false), "{ self.vector_struct.inspect(&\"vector_struct\", ui); }");
    assert_eq!(get_default_function_call(&f, true, false), "{ self.vector_struct.inspect_mut(&\"vector_struct\", ui); }");
    assert_eq!(get_default_function_call(&f, true, true), "{ vector_struct.inspect_mut(&\"vector_struct\", ui); }");
}

#[test]
fn label_is_escaped_as_a_string_literal() {
    let mut a = AttributeArgs::default();
    a.name = Some("say \"hi\"".to_string());
    let f = field("x", path("Vector"), a);
    assert_eq!(get_default_function_call(&f, false, false), "{ self.x.inspect(&\"say \\\"hi\\\"\", ui); }");
}

#[test]
fn renamed_field_uses_its_name() {
    let mut a = AttributeArgs::default();
    a.name = Some("A proper field name".to_string());
    let f = field("ugly_internal_field_name", path("Salut"), a);
    assert_eq!(
        handle_named_field(&f, false, false).unwrap(),
        "{ self.ugly_internal_field_name.inspect(&\"A proper field name\", ui); }"
    );
}

#[test]
fn number_slider_with_bounds() {
    let mut a = AttributeArgs::default();
    a.min = "12f32".to_string();
    a.max = "53f32".to_string();
    let f = field("unsigned32", path("u32"), a);
    let expected = "{ egui_inspect::InspectNumber::inspect_with_slider(&mut self.unsigned32, &\"unsigned32\", ui, 12f32, 53f32); }";
    assert_eq!(try_handle_internal_path(&f, true, false, "\"unsigned32\""), Some(expected.to_string()));
    assert_eq!(handle_named_field(&f, true, false).unwrap(), expected);
    assert_eq!(try_handle_internal_path(&f, false, false, "\"unsigned32\""), None);
    assert_eq!(handle_named_field(&f, false, false).unwrap(), "{ self.unsigned32.inspect(&\"unsigned32\", ui); }");
}

#[test]
fn number_drag_value_without_slider() {
    let mut a = AttributeArgs::default();
    a.slider = false;
    let f = field("n", TypeShape::Reference { elem: Box::new(path("f64")) }, a);
    assert_eq!(
        handle_named_field(&f, true, true).unwrap(),
        "{ egui_inspect::InspectNumber::inspect_with_drag_value(&mut *n, &\"n\", ui); }"
    );
}

#[test]
fn string_single_and_multiline() {
    let single = plain("title", "String");
    assert_eq!(
        handle_named_field(&single, true, false).unwrap(),
        "{ egui_inspect::InspectString::inspect_mut_singleline(&mut self.title, &\"title\", ui); }"
    );
    let mut a = AttributeArgs::default();
    a.multiline = true;
    let multi = field("code", path("String"), a);
    assert_eq!(
        handle_named_field(&multi, true, false).unwrap(),
        "{ egui_inspect::InspectString::inspect_mut_multiline(&mut self.code, &\"code\", ui); }"
    );
    assert_eq!(try_handle_internal_path(&plain("v", "Vec"), true, false, "\"v\""), None);
}

#[test]
fn no_edit_field_is_only_shown() {
    let mut a = AttributeArgs::default();
    a.no_edit = true;
    let f = field("string", path("String"), a);
    assert_eq!(handle_named_field(&f, true, false).unwrap(), "{ self.string.inspect(&\"string\", ui); }");
}

#[test]
fn hidden_field_generates_nothing() {
    let mut a = AttributeArgs::default();
    a.hide = true;
    a.custom_func = Some("not a path!".to_string());
    let f = field("_skipped", path("bool"), a);
    assert_eq!(handle_named_field(&f, true, false).unwrap(), "");
    assert_eq!(handle_named_field(&f, false, false).unwrap(), "");
}

#[test]
fn custom_functions_take_priority() {
    let mut a = AttributeArgs::default();
    a.custom_func_mut = Some("custom_bool_inspect".to_string());
    a.custom_func = Some("crate::show_bool".to_string());
    let f = field("boolean", path("f32"), a);
    assert_eq!(
        handle_custom_func(&f, true).unwrap(),
        Some("{ custom_bool_inspect\n(&mut self.boolean, &\"boolean\", ui); }".to_string())
    );
    assert_eq!(
        handle_named_field(&f, false, false).unwrap(),
        "{ crate::show_bool\n(&self.boolean, &\"boolean\", ui); }"
    );
    assert_eq!(handle_custom_func(&plain("x", "u8"), true).unwrap(), None);
}

#[test]
fn custom_mut_function_unused_when_readonly() {
    let mut a = AttributeArgs::default();
    a.custom_func_mut = Some("edit_it".to_string());
    let f = field("b", path("bool"), a);
    assert_eq!(handle_custom_func(&f, false).unwrap(), None);
    assert_eq!(handle_named_field(&f, false, false).unwrap(), "{ self.b.inspect(&\"b\", ui); }");
}

#[test]
fn invalid_custom_function_path_is_an_error() {
    let mut a = AttributeArgs::default();
    a.custom_func = Some("not a path!".to_string());
    let f = field("b", path("bool"), a);
    match handle_named_field(&f, false, false) {
        Err(GenerateError::InvalidFunctionPath { path }) => assert_eq!(path, "not a path!"),
        other => panic!("unexpected {:?}", other),
    }
    let fs = vec![plain("a", "Vector"), f];
    assert!(matches!(handle_named_fields(&fs, false), Err(GenerateError::InvalidFunctionPath { .. })));
    assert!(handle_named_fields(&fs, true).is_ok());
}

#[test]
fn named_fields_body() {
    let fs = vec![plain("x", "Vector"), plain("y", "Salut")];
    assert_eq!(
        handle_named_fields(&fs, false).unwrap(),
        "ui.strong(label); { self.x.inspect(&\"x\", ui); }{ self.y.inspect(&\"y\", ui); }"
    );
    assert_eq!(handle_named_fields(&vec![], true).unwrap(), "ui.strong(label); ");
}

#[test]
fn unnamed_fields_body() {
    assert_eq!(
        handle_unnamed_fields(2, false),
        "ui.strong(label); egui_inspect::EguiInspect::inspect(&self.0, \"Field 0\", ui); egui_inspect::EguiInspect::inspect(&self.1, \"Field 1\", ui); "
    );
    assert_eq!(
        handle_unnamed_fields(1, true),
        "ui.strong(label); egui_inspect::EguiInspect::inspect_mut(&mut self.0, \"Field 0\", ui); "
    );
    assert_eq!(handle_fields(&Fields::Unit, true).unwrap(), "");
    assert_eq!(handle_fields(&Fields::Unnamed(0), true).unwrap(), "ui.strong(label); ");
}

#[test]
fn enum_variant_pieces() {
    let name = "MyEnum".to_string();
    let vs = my_enum_variants();
    assert_eq!(variant_name_arm(&vs[0], &name), "MyEnum::AnOptionWithNoData => stringify!(AnOptionWithNoData)");
    assert_eq!(variant_name_arm(&vs[1], &name), "MyEnum::AnOptionWithStructData { .. } => stringify!(AnOptionWithStructData)");
    let tuple = Variant { ident: "Pair".to_string(), fields: Fields::Unnamed(2) };
    assert_eq!(variant_name_arm(&tuple, &name), "MyEnum::Pair(..) => stringify!(Pair)");
    assert_eq!(
        variant_combo(&vs[1], &name),
        "ui.selectable_value(self, MyEnum::AnOptionWithStructData { vec: Default::default(), salut: Default::default() }, stringify!(AnOptionWithStructData))"
    );
    assert_eq!(
        variant_combo(&tuple, &name),
        "ui.selectable_value(self, MyEnum::Pair(Default::default(), Default::default()), stringify!(Pair))"
    );
    assert_eq!(variant_inspect_arm(&vs[0], &name).unwrap(), "MyEnum::AnOptionWithNoData => ()");
    assert_eq!(
        variant_inspect_arm(&vs[1], &name).unwrap(),
        "MyEnum::AnOptionWithStructData { vec, salut } => { { vec.inspect_mut(&\"vec\", ui); }; { salut.inspect_mut(&\"salut_field\", ui); }; }"
    );
    match variant_inspect_arm(&tuple, &name) {
        Err(GenerateError::UnsupportedTupleVariant { variant }) => assert_eq!(variant, "Pair"),
        other => panic!("unexpected {:?}", other),
    }
}

#[test]
fn enum_readonly_and_editing_bodies() {
    let name = "MyEnum".to_string();
    let vs = my_enum_variants();
    let reflect = "let current_variant = match self { MyEnum::AnOptionWithNoData => stringify!(AnOptionWithNoData), MyEnum::AnOptionWithStructData { .. } => stringify!(AnOptionWithStructData), }; ";
    assert_eq!(
        handle_enum(&vs, &name, false).unwrap(),
        format!("{reflect}ui.label(format!(\"{{label}}: {{current_variant}}\").as_str());")
    );
    let expected_mut = format!(
        "{reflect}ui.horizontal(|ui| {{ ui.label(stringify!(MyEnum)); ::egui::ComboBox::new(label, \"\").selected_text(current_variant).show_ui(ui, |ui| {{ {}{}}}); }}); match self {{ {}{} }};",
        "ui.selectable_value(self, MyEnum::AnOptionWithNoData, stringify!(AnOptionWithNoData)); ",
        "ui.selectable_value(self, MyEnum::AnOptionWithStructData { vec: Default::default(), salut: Default::default() }, stringify!(AnOptionWithStructData)); ",
        "MyEnum::AnOptionWithNoData => (), ",
        "MyEnum::AnOptionWithStructData { vec, salut } => { { vec.inspect_mut(&\"vec\", ui); }; { salut.inspect_mut(&\"salut_field\", ui); }; }",
    );
    assert_eq!(handle_enum(&vs, &name, true).unwrap(), expected_mut);
}

#[test]
fn tuple_variant_fails_only_when_editing() {
    let name = "E".to_string();
    let vs = vec![Variant { ident: "T".to_string(), fields: Fields::Unnamed(1) }];
    assert!(handle_enum(&vs, &name, false).is_ok());
    assert!(matches!(handle_enum(&vs, &name, true), Err(GenerateError::UnsupportedTupleVariant { .. })));
}

#[test]
fn union_is_unsupported() {
    let input = DeriveInput { ident: "U".to_string(), generics: vec![], where_clause: None, data: Data::Union };
    assert!(matches!(inspect_struct(&input.data, &input.ident, false), Err(GenerateError::UnsupportedUnion)));
    assert!(matches!(derive_egui_inspect(&input), Err(GenerateError::UnsupportedUnion)));
}

#[test]
fn trait_bound_added_to_type_parameters() {
    let ps = vec![
        GenericParam::Lifetime { attrs: vec![], name: "'a".to_string(), bounds: vec![] },
        GenericParam::Type { attrs: vec![], name: "T".to_string(), bounds: vec!["Clone".to_string()] },
        GenericParam::Const { attrs: vec![], name: "N".to_string(), ty: "usize".to_string() },
    ];
    let r = add_trait_bounds(&ps);
    assert_eq!(r.len(), 3);
    match &r[0] {
        GenericParam::Lifetime { name, bounds, .. } => assert!(name == "'a" && bounds.is_empty()),
        _ => panic!("lifetime expected"),
    }
    match &r[1] {
        GenericParam::Type { name, bounds, .. } => {
            assert_eq!(name, "T");
            assert_eq!(bounds, &vec!["Clone".to_string(), "egui_inspect::EguiInspect".to_string()]);
        }
        _ => panic!("type parameter expected"),
    }
    match &r[2] {
        GenericParam::Const { name, ty, .. } => assert!(name == "N" && ty == "usize"),
        _ => panic!("const parameter expected"),
    }
}

#[test]
fn derive_for_unit_struct() {
    let input = DeriveInput { ident: "Unit".to_string(), generics: vec![], where_clause: None, data: Data::Struct(Fields::Unit) };
    assert_eq!(
        derive_egui_inspect(&input).unwrap(),
        format!("impl{IMPL_HEAD}Unit{INSPECT}{INSPECT_MUT} }} }}")
    );
}

#[test]
fn derive_for_generic_struct() {
    let input = DeriveInput {
        ident: "Wrapper".to_string(),
        generics: vec![
            GenericParam::Lifetime { attrs: vec![], name: "'a".to_string(), bounds: vec![] },
            GenericParam::Type { attrs: vec![], name: "T".to_string(), bounds: vec!["Clone".to_string(), "Default".to_string()] },
            GenericParam::Type { attrs: vec![], name: "U".to_string(), bounds: vec![] },
            GenericParam::Const { attrs: vec![], name: "N".to_string(), ty: "usize".to_string() },
        ],
        where_clause: Some("T: Send".to_string()),
        data: Data::Struct(Fields::Named(vec![plain("t", "T")])),
    };
    let text = derive_egui_inspect(&input).unwrap();
    let expected = format!(
        "impl<'a, T: Clone + Default + egui_inspect::EguiInspect, U: egui_inspect::EguiInspect, const N: usize>{IMPL_HEAD}Wrapper<'a, T, U, N> where T: Send{INSPECT}{}{INSPECT_MUT}{} }} }}",
        "ui.strong(label); { self.t.inspect(&\"t\", ui); }",
        "ui.strong(label); { self.t.inspect_mut(&\"t\", ui); }",
    );
    assert_eq!(text, expected);
    assert!(syn::parse_str::<syn::ItemImpl>(&text).is_ok());
}

#[test]
fn derive_output_parses_as_an_impl() {
    let mut multi = AttributeArgs::default();
    multi.multiline = true;
    let mut bounds = AttributeArgs::default();
    bounds.min = "-43f32".to_string();
    bounds.max = "125f32".to_string();
    let app = DeriveInput {
        ident: "MyApp".to_string(),
        generics: vec![],
        where_clause: None,
        data: Data::Struct(Fields::Named(vec![
            field("code", path("String"), multi),
            field("float64", path("f64"), bounds),
            plain("my_enum", "MyEnum"),
        ])),
    };
    let text = derive_egui_inspect(&app).unwrap();
    assert!(syn::parse_str::<syn::ItemImpl>(&text).is_ok());
    let my_enum = DeriveInput { ident: "MyEnum".to_string(), generics: vec![], where_clause: None, data: Data::Enum(my_enum_variants()) };
    let text = derive_egui_inspect(&my_enum).unwrap();
    assert!(syn::parse_str::<syn::ItemImpl>(&text).is_ok());
    let tuple = DeriveInput { ident: "Salut".to_string(), generics: vec![], where_clause: None, data: Data::Struct(Fields::Unnamed(2)) };
    assert!(syn::parse_str::<syn::ItemImpl>(&derive_egui_inspect(&tuple).unwrap()).is_ok());
}

#[test]
fn derive_reports_first_failure() {
    let mut a = AttributeArgs::default();
    a.custom_func_mut = Some("1bad".to_string());
    let input = DeriveInput {
        ident: "S".to_string(),
        generics: vec![],
        where_clause: None,
        data: Data::Struct(Fields::Named(vec![field("x", path("u8"), a)])),
    };
    match derive_egui_inspect(&input) {
        Err(GenerateError::InvalidFunctionPath { path }) => assert_eq!(path, "1bad"),
        other => panic!("unexpected {:?}", other),
    }
    let e = DeriveInput { ident: "E".to_string(), generics: vec![], where_clause: None, data: Data::Enum(vec![Variant { ident: "T".to_string(), fields: Fields::Unnamed(1) }]) };
    assert!(matches!(derive_egui_inspect(&e), Err(GenerateError::UnsupportedTupleVariant { .. })));
}

#[test]
fn text_builders_take_any_literal() {
    let f = plain("x", "Vector");
    assert_eq!(default_call_text(&f, true, false, "\"\\0\""), "{ self.x.inspect_mut(&\"\\0\", ui); }");
    assert_eq!(custom_call_text(&f, false, "show", "\"lbl\""), "{ show\n(&self.x, &\"lbl\", ui); }");
    assert_eq!(named_field_text(&plain("n", "u8"), true, true, "\"N\"").unwrap(),
        "{ egui_inspect::InspectNumber::inspect_with_slider(&mut *n, &\"N\", ui, 0.0f32, 100.0f32); }");
}

#[test]
fn tuple_struct_is_edited_when_mutable() {
    let input = DeriveInput { ident: "Salut".to_string(), generics: vec![], where_clause: None, data: Data::Struct(Fields::Unnamed(1)) };
    let text = derive_egui_inspect(&input).unwrap();
    assert!(text.contains("egui_inspect::EguiInspect::inspect(&self.0, \"Field 0\", ui);"));
    assert!(text.contains("egui_inspect::EguiInspect::inspect_mut(&mut self.0, \"Field 0\", ui);"));
}

#[test]
fn generic_parameter_attributes_kept_in_impl_generics() {
    let input = DeriveInput {
        ident: "W".to_string(),
        generics: vec![GenericParam::Type {
            attrs: vec!["#[allow(unused)]".to_string()],
            name: "T".to_string(),
            bounds: vec![],
        }],
        where_clause: None,
        data: Data::Struct(Fields::Unit),
    };
    let text = derive_egui_inspect(&input).unwrap();
    assert!(text.starts_with("impl<#[allow(unused)] T: egui_inspect::EguiInspect>"));
    assert!(text.contains(" for W<T> {"));
}

#[test]
fn custom_path_with_trailing_comment_still_parses() {
    let mut a = AttributeArgs::default();
    a.custom_func = Some("show // note".to_string());
    let input = DeriveInput {
        ident: "S".to_string(),
        generics: vec![],
        where_clause: None,
        data: Data::Struct(Fields::Named(vec![field("x", path("u8"), a)])),
    };
    let text = derive_egui_inspect(&input).unwrap();
    assert!(syn::parse_str::<syn::ItemImpl>(&text).is_ok());
}

#[test]
fn escaped_labels_keep_every_field() {
    let mut quoted_label = AttributeArgs::default();
    quoted_label.name = Some("Player's \"name\"".to_string());
    let mut umlaut = AttributeArgs::default();
    umlaut.name = Some("Gr\u{f6}\u{df}e".to_string());
    let v = Variant {
        ident: "V".to_string(),
        fields: Fields::Named(vec![field("a", path("Vector"), quoted_label), field("b", path("Vector"), umlaut)]),
    };
    let arm = variant_inspect_arm(&v, &"E".to_string()).unwrap();
    assert!(arm.starts_with("E::V { a, b } => { { a.inspect_mut(&\"Player's \\\"name\\\"\", ui); }; { b.inspect_mut(&"));
    assert!(arm.ends_with(", ui); }; }"));
}

#[test]
fn no_edit_struct_bodies_match() {
    let mut a = AttributeArgs::default();
    a.no_edit = true;
    let mut b = AttributeArgs::default();
    b.no_edit = true;
    b.name = Some("tab\there".to_string());
    let data = Data::Struct(Fields::Named(vec![field("x", path("u32"), a), field("y", path("String"), b)]));
    let name = "S".to_string();
    assert_eq!(inspect_struct(&data, &name, false).unwrap(), inspect_struct(&data, &name, true).unwrap());
}
