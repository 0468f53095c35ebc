//! The `EguiInspect` impl for a whole type.

use vstd::prelude::*;
use crate::model::{failure_of, outcome, Data, Field, Fields, DeriveInput, Failure, GenerateError, GenericParam};
use crate::fields::{field_error, field_text, fields_error, fields_text, shape_body, shape_error, shape_literals, shape_literals_of, shape_text};
use crate::variants::{enum_body, enum_error, enum_text, variant_literals, variants_literals};

verus! {

/// The bound that the impl puts on each type parameter.
pub open spec fn inspect_bound() -> Seq<char> {
    "egui_inspect::EguiInspect"@
}

/// `q` is `p` with `inspect_bound()` added to its bounds when `p` is a type parameter.
pub open spec fn bounded_param(p: GenericParam, q: GenericParam) -> bool {
    match p {
        GenericParam::Lifetime { attrs, name, bounds } => q matches GenericParam::Lifetime { attrs: a, name: n, bounds: b }
            && a@ == attrs@ && n == name && b@ == bounds@,
        GenericParam::Type { attrs, name, bounds } => q matches GenericParam::Type { attrs: a, name: n, bounds: b }
            && a@ == attrs@ && n == name && b@.len() == bounds@.len() + 1 && b@.drop_last() == bounds@
            && b@.last()@ == inspect_bound(),
        GenericParam::Const { attrs, name, ty } => q matches GenericParam::Const { attrs: a, name: n, ty: t }
            && a@ == attrs@ && n == name && t == ty,
    }
}

/// Bounds separated by ` + `.
pub open spec fn bounds_text(bs: Seq<String>) -> Seq<char>
    decreases bs.len(),
{
    if bs.len() == 0 {
        Seq::empty()
    } else if bs.len() == 1 {
        bs[0]@
    } else {
        bounds_text(bs.drop_last()) + " + "@ + bs.last()@
    }
}

pub open spec fn bounded_text(name: Seq<char>, bs: Seq<String>) -> Seq<char> {
    if bs.len() == 0 { name } else { name + ": "@ + bounds_text(bs) }
}

/// Attributes, each followed by a space.
pub open spec fn attrs_text(attrs: Seq<String>) -> Seq<char>
    decreases attrs.len(),
{
    if attrs.len() == 0 { Seq::empty() } else { attrs_text(attrs.drop_last()) + attrs.last()@ + " "@ }
}

/// A parameter as it is declared after `impl`, without its default.
pub open spec fn param_text(p: GenericParam) -> Seq<char> {
    match p {
        GenericParam::Lifetime { attrs, name, bounds } => attrs_text(attrs@) + bounded_text(name@, bounds@),
        GenericParam::Type { attrs, name, bounds } => attrs_text(attrs@) + bounded_text(name@, bounds@),
        GenericParam::Const { attrs, name, ty } => attrs_text(attrs@) + ("const "@ + name@ + ": "@ + ty@),
    }
}

/// A parameter as it is declared after `impl`, a type parameter with the
/// bound `egui_inspect::EguiInspect` added.
pub open spec fn bounded_param_text(p: GenericParam) -> Seq<char> {
    match p {
        GenericParam::Type { attrs, name, bounds } => attrs_text(attrs@) + (name@ + ": "@ + if bounds@.len() == 0 {
            inspect_bound()
        } else {
            bounds_text(bounds@) + " + "@ + inspect_bound()
        }),
        _ => param_text(p),
    }
}

pub open spec fn param_name(p: GenericParam) -> Seq<char> {
    match p {
        GenericParam::Lifetime { name, .. } => name@,
        GenericParam::Type { name, .. } => name@,
        GenericParam::Const { name, .. } => name@,
    }
}

/// The declared parameters, separated by `, `.
pub open spec fn params_text(ps: Seq<GenericParam>) -> Seq<char>
    decreases ps.len(),
{
    if ps.len() == 0 {
        Seq::empty()
    } else if ps.len() == 1 {
        param_text(ps[0])
    } else {
        params_text(ps.drop_last()) + ", "@ + param_text(ps.last())
    }
}

/// The declared parameters with the added bound, separated by `, `.
pub open spec fn bounded_params_text(ps: Seq<GenericParam>) -> Seq<char>
    decreases ps.len(),
{
    if ps.len() == 0 {
        Seq::empty()
    } else if ps.len() == 1 {
        bounded_param_text(ps[0])
    } else {
        bounded_params_text(ps.drop_last()) + ", "@ + bounded_param_text(ps.last())
    }
}

/// The parameters' names, separated by `, `.
pub open spec fn names_text(ps: Seq<GenericParam>) -> Seq<char>
    decreases ps.len(),
{
    if ps.len() == 0 {
        Seq::empty()
    } else if ps.len() == 1 {
        param_name(ps[0])
    } else {
        names_text(ps.drop_last()) + ", "@ + param_name(ps.last())
    }
}

pub open spec fn angled(ps: Seq<GenericParam>, inner: Seq<char>) -> Seq<char> {
    if ps.len() == 0 { Seq::empty() } else { "<"@ + inner + ">"@ }
}

pub open spec fn where_text(w: Option<String>) -> Seq<char> {
    match w {
        Some(w) => " where "@ + w@,
        None => Seq::empty(),
    }
}

/// What makes the body for `data` fail.
pub open spec fn data_error(data: Data, mutable: bool) -> Option<Failure> {
    match data {
        Data::Struct(fields) => match shape_error(fields, mutable) {
            Some(p) => Some(Failure::InvalidFunctionPath(p)),
            None => None,
        },
        Data::Enum(vs) => enum_error(vs@, mutable),
        Data::Union => Some(Failure::UnsupportedUnion),
    }
}

/// `ls` holds the label literals of each variant of `data`; a struct counts
/// as one variant, a union has none.
pub open spec fn data_literals(data: Data, ls: Seq<Vec<String>>) -> bool {
    match data {
        Data::Struct(fields) => ls.len() == 1 && shape_literals(fields, ls[0]@),
        Data::Enum(vs) => variants_literals(vs@, ls),
        Data::Union => ls.len() == 0,
    }
}

/// The body of `inspect` (or of `inspect_mut`) for the type `name` with
/// `data`, the field labels written as `ls`.
pub open spec fn data_text(data: Data, name: Seq<char>, mutable: bool, ls: Seq<Vec<String>>) -> Seq<char> {
    match data {
        Data::Struct(fields) => shape_text(fields, mutable, ls[0]@),
        Data::Enum(vs) => enum_text(name, vs@, mutable, ls),
        Data::Union => Seq::empty(),
    }
}

/// What makes the impl fail: the readonly body first, then the editing one.
pub open spec fn derive_error(input: DeriveInput) -> Option<Failure> {
    match data_error(input.data, false) {
        Some(f) => Some(f),
        None => data_error(input.data, true),
    }
}

/// The source text of the `EguiInspect` impl for `input`, the field labels
/// of both methods written as `ls`.
pub open spec fn derive_text(input: DeriveInput, ls: Seq<Vec<String>>) -> Seq<char> {
    "impl"@ + angled(input.generics@, bounded_params_text(input.generics@))
        + " egui_inspect::EguiInspect for "@ + input.ident@
        + angled(input.generics@, names_text(input.generics@)) + where_text(input.where_clause)
        + " { fn inspect(&self, label: &str, ui: &mut egui::Ui) { "@
        + data_text(input.data, input.ident@, false, ls)
        + " } fn inspect_mut(&mut self, label: &str, ui: &mut egui::Ui) { "@
        + data_text(input.data, input.ident@, true, ls) + " } }"@
}

/// Every field of `fs` is `no_edit`.
pub open spec fn all_no_edit(fs: Seq<Field>) -> bool {
    forall|i: int| 0 <= i < fs.len() ==> (#[trigger] fs[i]).attrs.no_edit
}

proof fn lemma_no_edit_fields(fs: Seq<Field>, lits: Seq<String>)
    requires
        all_no_edit(fs),
    ensures
        fields_text(fs, true, false, lits) == fields_text(fs, false, false, lits),
        fields_error(fs, true) == fields_error(fs, false),
    decreases fs.len(),
{
    if fs.len() > 0 {
        let init = fs.drop_last();
        assert(all_no_edit(init)) by {
            assert forall|i: int| 0 <= i < init.len() implies (#[trigger] init[i]).attrs.no_edit by {
                assert(init[i] == fs[i]);
            }
        }
        assert(fs.last().attrs.no_edit) by {
            assert(fs[fs.len() - 1] == fs.last());
        }
        lemma_no_edit_fields(init, lits.drop_last());
        assert(field_text(fs.last(), true, false, lits.last()@) == field_text(fs.last(), false, false, lits.last()@));
        assert(field_error(fs.last(), true) == field_error(fs.last(), false));
    }
}

/// A struct whose named fields are all `no_edit` is never edited: whatever
/// the label literals, its `inspect_mut` body is its `inspect` body, and the
/// two fail alike.
pub proof fn no_edit_struct_is_readonly(fs: Vec<Field>, name: Seq<char>, ls: Seq<Vec<String>>)
    requires
        all_no_edit(fs@),
    ensures
        data_text(Data::Struct(Fields::Named(fs)), name, true, ls)
            == data_text(Data::Struct(Fields::Named(fs)), name, false, ls),
        data_error(Data::Struct(Fields::Named(fs)), true) == data_error(Data::Struct(Fields::Named(fs)), false),
{
    lemma_no_edit_fields(fs@, ls[0]@);
}

proof fn lemma_bounded_text(p: GenericParam, q: GenericParam)
    requires
        bounded_param(p, q),
    ensures
        param_text(q) == bounded_param_text(p),
        param_name(q) == param_name(p),
{
    if let GenericParam::Type { attrs, name, bounds } = p {
        if let GenericParam::Type { attrs: a, name: n, bounds: b } = q {
            assert(b@[b@.len() - 1] == b@.last());
        }
    }
}

proof fn lemma_bounded_params(ps: Seq<GenericParam>, qs: Seq<GenericParam>)
    requires
        ps.len() == qs.len(),
        forall|i: int| 0 <= i < ps.len() ==> bounded_param(#[trigger] ps[i], qs[i]),
    ensures
        params_text(qs) == bounded_params_text(ps),
        names_text(qs) == names_text(ps),
    decreases ps.len(),
{
    if ps.len() > 0 {
        let n = ps.len() - 1;
        assert(bounded_param(ps[n], qs[n]));
        lemma_bounded_text(ps.last(), qs.last());
        assert(bounded_param(ps[0], qs[0]));
        lemma_bounded_text(ps[0], qs[0]);
        lemma_bounded_params(ps.drop_last(), qs.drop_last());
    }
}

fn copy_texts(v: &Vec<String>) -> (r: Vec<String>)
    ensures
        r@ == v@,
{
    let mut r: Vec<String> = Vec::new();
    let mut i: usize = 0;
    while i < v.len()
        invariant
            0 <= i <= v.len(),
            r@ == v@.subrange(0, i as int),
        decreases v.len() - i,
    {
        r.push(v[i].clone());
        assert(r@ =~= v@.subrange(0, i + 1));
        i = i + 1;
    }
    assert(r@ =~= v@);
    r
}

/// The generic parameters with `egui_inspect::EguiInspect` added to the
/// bounds of each type parameter.
pub fn add_trait_bounds(generics: &Vec<GenericParam>) -> (r: Vec<GenericParam>)
    ensures
        r@.len() == generics@.len(),
        forall|i: int| 0 <= i < r@.len() ==> bounded_param(#[trigger] generics@[i], r@[i]),
{
    let mut r: Vec<GenericParam> = Vec::new();
    let mut i: usize = 0;
    while i < generics.len()
        invariant
            0 <= i <= generics.len(),
            r@.len() == i,
            forall|k: int| 0 <= k < i ==> bounded_param(#[trigger] generics@[k], r@[k]),
        decreases generics.len() - i,
    {
        let q = match &generics[i] {
            GenericParam::Lifetime { attrs, name, bounds } => GenericParam::Lifetime {
                attrs: copy_texts(attrs),
                name: name.clone(),
                bounds: copy_texts(bounds),
            },
            GenericParam::Type { attrs, name, bounds } => {
                let mut b = copy_texts(bounds);
                b.push(String::from_str("egui_inspect::EguiInspect"));
                proof {
                    assert(b@.drop_last() =~= bounds@);
                }
                GenericParam::Type { attrs: copy_texts(attrs), name: name.clone(), bounds: b }
            },
            GenericParam::Const { attrs, name, ty } => GenericParam::Const {
                attrs: copy_texts(attrs),
                name: name.clone(),
                ty: ty.clone(),
            },
        };
        r.push(q);
        i = i + 1;
    }
    r
}

fn join_bounds(bs: &Vec<String>) -> (r: String)
    ensures
        r@ == bounds_text(bs@),
{
    let mut t = String::new();
    let mut i: usize = 0;
    while i < bs.len()
        invariant
            0 <= i <= bs.len(),
            t@ == bounds_text(bs@.subrange(0, i as int)),
        decreases bs.len() - i,
    {
        let ghost next = bs@.subrange(0, i + 1);
        assert(next.drop_last() =~= bs@.subrange(0, i as int));
        if i > 0 {
            t.append(" + ");
        }
        t.append(bs[i].as_str());
        proof {
            if i == 0 {
                assert(t@ =~= next[0]@);
            }
        }
        i = i + 1;
    }
    assert(bs@.subrange(0, bs@.len() as int) =~= bs@);
    t
}

fn attrs_prefix(attrs: &Vec<String>) -> (r: String)
    ensures
        r@ == attrs_text(attrs@),
{
    let mut t = String::new();
    let mut i: usize = 0;
    while i < attrs.len()
        invariant
            0 <= i <= attrs.len(),
            t@ == attrs_text(attrs@.subrange(0, i as int)),
        decreases attrs.len() - i,
    {
        assert(attrs@.subrange(0, i + 1).drop_last() =~= attrs@.subrange(0, i as int));
        t.append(attrs[i].as_str());
        t.append(" ");
        i = i + 1;
    }
    assert(attrs@.subrange(0, attrs@.len() as int) =~= attrs@);
    t
}

fn declared_param(p: &GenericParam) -> (r: String)
    ensures
        r@ == param_text(*p),
{
    match p {
        GenericParam::Lifetime { attrs, name, bounds } | GenericParam::Type { attrs, name, bounds } => {
            let mut head = attrs_prefix(attrs);
            let mut t = name.clone();
            if bounds.len() > 0 {
                t.append(": ");
                let b = join_bounds(bounds);
                t.append(b.as_str());
            }
            head.append(t.as_str());
            head
        },
        GenericParam::Const { attrs, name, ty } => {
            let mut head = attrs_prefix(attrs);
            let mut t = String::from_str("const ");
            t.append(name.as_str());
            t.append(": ");
            t.append(ty.as_str());
            head.append(t.as_str());
            head
        },
    }
}

/// The generics after `impl`, and those after the type's name.
fn split_for_impl(ps: &Vec<GenericParam>) -> (r: (String, String))
    ensures
        r.0@ == angled(ps@, params_text(ps@)),
        r.1@ == angled(ps@, names_text(ps@)),
{
    let mut decl = String::new();
    let mut names = String::new();
    let mut i: usize = 0;
    while i < ps.len()
        invariant
            0 <= i <= ps.len(),
            decl@ == params_text(ps@.subrange(0, i as int)),
            names@ == names_text(ps@.subrange(0, i as int)),
        decreases ps.len() - i,
    {
        assert(ps@.subrange(0, i + 1).drop_last() =~= ps@.subrange(0, i as int));
        let ghost next = ps@.subrange(0, i + 1);
        let d = declared_param(&ps[i]);
        let name = match &ps[i] {
            GenericParam::Lifetime { name, .. } => name,
            GenericParam::Type { name, .. } => name,
            GenericParam::Const { name, .. } => name,
        };
        if i > 0 {
            decl.append(", ");
            names.append(", ");
        }
        decl.append(d.as_str());
        names.append(name.as_str());
        proof {
            if i == 0 {
                assert(decl@ =~= param_text(next[0]));
                assert(names@ =~= param_name(next[0]));
            }
        }
        i = i + 1;
    }
    assert(ps@.subrange(0, ps@.len() as int) =~= ps@);
    if ps.len() == 0 {
        return (String::new(), String::new());
    }
    let mut a = String::from_str("<");
    a.append(decl.as_str());
    a.append(">");
    let mut b = String::from_str("<");
    b.append(names.as_str());
    b.append(">");
    (a, b)
}

/// The label literals of each variant of `data`.
fn data_literals_of(data: &Data) -> (r: Vec<Vec<String>>)
    ensures
        data_literals(*data, r@),
{
    match data {
        Data::Struct(fields) => {
            let mut r: Vec<Vec<String>> = Vec::new();
            r.push(shape_literals_of(fields));
            r
        },
        Data::Enum(vs) => variant_literals(vs),
        Data::Union => Vec::new(),
    }
}

/// The body for the type `name` with `data`, the field labels written as `ls`.
fn data_body(data: &Data, name: &String, mutable: bool, ls: &Vec<Vec<String>>) -> (r: Result<String, GenerateError>)
    requires
        data_literals(*data, ls@),
    ensures
        outcome(r, data_error(*data, mutable), data_text(*data, name@, mutable, ls@)),
{
    match data {
        Data::Struct(fields) => shape_body(fields, mutable, &ls[0]),
        Data::Enum(vs) => enum_body(vs, name, mutable, ls),
        Data::Union => Err(GenerateError::UnsupportedUnion),
    }
}

/// The body of `inspect` (or of `inspect_mut` when `mutable`) for the type
/// `name`, each label written as a string literal.
pub fn inspect_struct(data: &Data, name: &String, mutable: bool) -> (r: Result<String, GenerateError>)
    ensures
        match data_error(*data, mutable) {
            None => r matches Ok(t) && exists|ls: Seq<Vec<String>>| #[trigger] data_literals(*data, ls)
                && t@ == data_text(*data, name@, mutable, ls),
            Some(f) => r matches Err(e) && failure_of(e) == f,
        },
{
    let ls = data_literals_of(data);
    let r = data_body(data, name, mutable, &ls);
    assert(data_literals(*data, ls@));
    r
}

/// The source text of the `EguiInspect` impl for `input`: `inspect` shows
/// each field, `inspect_mut` edits it. Each label is written as a string
/// literal, the same one in both methods.
pub fn derive_egui_inspect(input: &DeriveInput) -> (r: Result<String, GenerateError>)
    ensures
        match derive_error(*input) {
            None => r matches Ok(t) && exists|ls: Seq<Vec<String>>| #[trigger] data_literals(input.data, ls)
                && t@ == derive_text(*input, ls),
            Some(f) => r matches Err(e) && failure_of(e) == f,
        },
{
    let generics = add_trait_bounds(&input.generics);
    proof {
        lemma_bounded_params(input.generics@, generics@);
    }
    let (impl_generics, ty_generics) = split_for_impl(&generics);
    let ls = data_literals_of(&input.data);
    let inspect = data_body(&input.data, &input.ident, false, &ls)?;
    let inspect_mut = data_body(&input.data, &input.ident, true, &ls)?;
    let mut t = String::from_str("impl");
    t.append(impl_generics.as_str());
    t.append(" egui_inspect::EguiInspect for ");
    t.append(input.ident.as_str());
    t.append(ty_generics.as_str());
    let mut wc = String::new();
    if let Some(w) = &input.where_clause {
        wc.append(" where ");
        wc.append(w.as_str());
    }
    proof {
        assert(wc@ =~= where_text(input.where_clause));
    }
    t.append(wc.as_str());
    t.append(" { fn inspect(&self, label: &str, ui: &mut egui::Ui) { ");
    t.append(inspect.as_str());
    t.append(" } fn inspect_mut(&mut self, label: &str, ui: &mut egui::Ui) { ");
    t.append(inspect_mut.as_str());
    t.append(" } }");
    assert(data_literals(input.data, ls@));
    Ok(t)
}

} // verus!
