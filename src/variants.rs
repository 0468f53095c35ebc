//! Code for enums: the name of the current variant, a combo box that
//! switches variants, and the fields of the current variant.

use vstd::prelude::*;
use crate::model::{failure_of, outcome, Failure, Field, Fields, GenerateError, Variant};
use crate::fields::{field_error, field_text, named_field_text, shape_literals, shape_literals_of};

verus! {

/// The pattern that matches any value of the variant.
pub open spec fn pattern_rest(fields: Fields) -> Seq<char> {
    match fields {
        Fields::Named(_) => " { .. }"@,
        Fields::Unnamed(_) => "(..)"@,
        Fields::Unit => Seq::empty(),
    }
}

/// The match arm that maps a value of the variant to the variant's name.
pub open spec fn name_arm_text(name: Seq<char>, v: Variant) -> Seq<char> {
    name + "::"@ + v.ident@ + pattern_rest(v.fields) + " => stringify!("@ + v.ident@ + ")"@
}

/// The name arms, each followed by `, `.
pub open spec fn name_arms_text(name: Seq<char>, vs: Seq<Variant>) -> Seq<char>
    decreases vs.len(),
{
    if vs.len() == 0 { Seq::empty() } else { name_arms_text(name, vs.drop_last()) + name_arm_text(name, vs.last()) + ", "@ }
}

pub open spec fn named_default(f: Field) -> Seq<char> {
    f.ident@ + ": Default::default()"@
}

/// `ident: Default::default()` for each named field, separated by `, `.
pub open spec fn named_defaults(fs: Seq<Field>) -> Seq<char>
    decreases fs.len(),
{
    if fs.len() == 0 {
        Seq::empty()
    } else if fs.len() == 1 {
        named_default(fs[0])
    } else {
        named_defaults(fs.drop_last()) + ", "@ + named_default(fs.last())
    }
}

/// `Default::default()` repeated `n` times, separated by `, `.
pub open spec fn unnamed_defaults(n: nat) -> Seq<char>
    decreases n,
{
    if n == 0 {
        Seq::empty()
    } else if n == 1 {
        "Default::default()"@
    } else {
        unnamed_defaults((n - 1) as nat) + ", "@ + "Default::default()"@
    }
}

/// The variant's value with every field at its default.
pub open spec fn default_value_rest(fields: Fields) -> Seq<char> {
    match fields {
        Fields::Named(fs) => " { "@ + named_defaults(fs@) + " }"@,
        Fields::Unnamed(n) => "("@ + unnamed_defaults(n as nat) + ")"@,
        Fields::Unit => Seq::empty(),
    }
}

/// The combo box entry that selects the variant, with default field values.
pub open spec fn combo_text(name: Seq<char>, v: Variant) -> Seq<char> {
    "ui.selectable_value(self, "@ + name + "::"@ + v.ident@ + default_value_rest(v.fields)
        + ", stringify!("@ + v.ident@ + "))"@
}

/// The combo box entries, each followed by `; `.
pub open spec fn combos_text(name: Seq<char>, vs: Seq<Variant>) -> Seq<char>
    decreases vs.len(),
{
    if vs.len() == 0 { Seq::empty() } else { combos_text(name, vs.drop_last()) + combo_text(name, vs.last()) + "; "@ }
}

/// The identifiers of the named fields, separated by `, `.
pub open spec fn bindings_text(fs: Seq<Field>) -> Seq<char>
    decreases fs.len(),
{
    if fs.len() == 0 {
        Seq::empty()
    } else if fs.len() == 1 {
        fs[0].ident@
    } else {
        bindings_text(fs.drop_last()) + ", "@ + fs.last().ident@
    }
}

/// The code of each field bound by a match arm, each followed by `; `, the
/// labels written as `lits`.
pub open spec fn arm_fields_text(fs: Seq<Field>, lits: Seq<String>) -> Seq<char>
    decreases fs.len(),
{
    if fs.len() == 0 {
        Seq::empty()
    } else {
        arm_fields_text(fs.drop_last(), lits.drop_last()) + field_text(fs.last(), true, true, lits.last()@) + "; "@
    }
}

pub open spec fn arm_fields_error(fs: Seq<Field>) -> Option<Seq<char>>
    decreases fs.len(),
{
    if fs.len() == 0 {
        None
    } else {
        match arm_fields_error(fs.drop_last()) {
            Some(p) => Some(p),
            None => field_error(fs.last(), true),
        }
    }
}

/// What makes the editing arm of the variant fail.
pub open spec fn arm_error(v: Variant) -> Option<Failure> {
    match v.fields {
        Fields::Named(fs) => match arm_fields_error(fs@) {
            Some(p) => Some(Failure::InvalidFunctionPath(p)),
            None => None,
        },
        Fields::Unnamed(_) => Some(Failure::UnsupportedTupleVariant(v.ident@)),
        Fields::Unit => None,
    }
}

/// The match arm that edits the fields of the variant, labelled by `lits`.
pub open spec fn arm_text(name: Seq<char>, v: Variant, lits: Seq<String>) -> Seq<char> {
    match v.fields {
        Fields::Named(fs) => name + "::"@ + v.ident@ + " { "@ + bindings_text(fs@) + " } => { "@
            + arm_fields_text(fs@, lits) + "}"@,
        _ => name + "::"@ + v.ident@ + " => ()"@,
    }
}

/// `ls` holds the label literals of each variant of `vs`.
pub open spec fn variants_literals(vs: Seq<Variant>, ls: Seq<Vec<String>>) -> bool {
    &&& ls.len() == vs.len()
    &&& forall|i: int| 0 <= i < vs.len() ==> shape_literals(vs[i].fields, #[trigger] ls[i]@)
}

pub open spec fn arms_error(vs: Seq<Variant>) -> Option<Failure>
    decreases vs.len(),
{
    if vs.len() == 0 {
        None
    } else {
        match arms_error(vs.drop_last()) {
            Some(f) => Some(f),
            None => arm_error(vs.last()),
        }
    }
}

/// The editing arms, separated by `, `, each labelled by its entry of `ls`.
pub open spec fn arms_text(name: Seq<char>, vs: Seq<Variant>, ls: Seq<Vec<String>>) -> Seq<char>
    decreases vs.len(),
{
    if vs.len() == 0 {
        Seq::empty()
    } else if vs.len() == 1 {
        arm_text(name, vs[0], ls[0]@)
    } else {
        arms_text(name, vs.drop_last(), ls.drop_last()) + ", "@ + arm_text(name, vs.last(), ls.last()@)
    }
}

/// What makes the code for an enum fail: only the editing impl can.
pub open spec fn enum_error(vs: Seq<Variant>, mutable: bool) -> Option<Failure> {
    if mutable { arms_error(vs) } else { None }
}

/// The body of `inspect` (or of `inspect_mut`) for the enum `name` with
/// variants `vs`, the field labels of each variant written as its entry of `ls`.
pub open spec fn enum_text(name: Seq<char>, vs: Seq<Variant>, mutable: bool, ls: Seq<Vec<String>>) -> Seq<char> {
    "let current_variant = match self { "@ + name_arms_text(name, vs) + "}; "@ + if mutable {
        "ui.horizontal(|ui| { ui.label(stringify!("@ + name
            + ")); ::egui::ComboBox::new(label, \"\").selected_text(current_variant).show_ui(ui, |ui| { "@
            + combos_text(name, vs) + "}); }); match self { "@ + arms_text(name, vs, ls) + " };"@
    } else {
        "ui.label(format!(\"{label}: {current_variant}\").as_str());"@
    }
}

proof fn lemma_arm_fields_error_persists(fs: Seq<Field>, k: int, j: int)
    requires
        0 <= k <= j <= fs.len(),
        arm_fields_error(fs.subrange(0, k)) is Some,
    ensures
        arm_fields_error(fs.subrange(0, j)) == arm_fields_error(fs.subrange(0, k)),
    decreases j - k,
{
    if j > k {
        lemma_arm_fields_error_persists(fs, k, j - 1);
        assert(fs.subrange(0, j).drop_last() =~= fs.subrange(0, j - 1));
    }
}

proof fn lemma_arms_error_persists(vs: Seq<Variant>, k: int, j: int)
    requires
        0 <= k <= j <= vs.len(),
        arms_error(vs.subrange(0, k)) is Some,
    ensures
        arms_error(vs.subrange(0, j)) == arms_error(vs.subrange(0, k)),
    decreases j - k,
{
    if j > k {
        lemma_arms_error_persists(vs, k, j - 1);
        assert(vs.subrange(0, j).drop_last() =~= vs.subrange(0, j - 1));
    }
}

/// The match arm that maps a value of `variant` to its name.
pub fn variant_name_arm(variant: &Variant, name: &String) -> (r: String)
    ensures
        r@ == name_arm_text(name@, *variant),
{
    let mut t = name.clone();
    t.append("::");
    t.append(variant.ident.as_str());
    t.append(match &variant.fields {
        Fields::Named(_) => " { .. }",
        Fields::Unnamed(_) => "(..)",
        Fields::Unit => "",
    });
    proof {
        reveal_strlit("");
    }
    t.append(" => stringify!(");
    t.append(variant.ident.as_str());
    t.append(")");
    t
}

/// The combo box entry that selects `variant`, its fields at their defaults.
pub fn variant_combo(variant: &Variant, name: &String) -> (r: String)
    ensures
        r@ == combo_text(name@, *variant),
{
    let mut rest = String::new();
    match &variant.fields {
        Fields::Named(fs) => {
            let mut defaults = String::new();
            let mut i: usize = 0;
            while i < fs.len()
                invariant
                    0 <= i <= fs.len(),
                    defaults@ == named_defaults(fs@.subrange(0, i as int)),
                decreases fs.len() - i,
            {
                let ghost next = fs@.subrange(0, i + 1);
                assert(next.drop_last() =~= fs@.subrange(0, i as int));
                if i > 0 {
                    defaults.append(", ");
                }
                let mut item = fs[i].ident.clone();
                item.append(": Default::default()");
                defaults.append(item.as_str());
                proof {
                    if i == 0 {
                        assert(defaults@ =~= named_default(next[0]));
                    }
                }
                i = i + 1;
            }
            assert(fs@.subrange(0, fs@.len() as int) =~= fs@);
            rest.append(" { ");
            rest.append(defaults.as_str());
            rest.append(" }");
        },
        Fields::Unnamed(n) => {
            let mut defaults = String::new();
            let mut i: usize = 0;
            while i < *n
                invariant
                    0 <= i <= *n,
                    defaults@ == unnamed_defaults(i as nat),
                decreases *n - i,
            {
                if i > 0 {
                    defaults.append(", ");
                }
                defaults.append("Default::default()");
                proof {
                    if i == 0 {
                        assert(defaults@ =~= unnamed_defaults(1));
                    }
                }
                i = i + 1;
            }
            rest.append("(");
            rest.append(defaults.as_str());
            rest.append(")");
        },
        Fields::Unit => {},
    }
    proof {
        assert(rest@ =~= default_value_rest(variant.fields));
    }
    let mut t = String::from_str("ui.selectable_value(self, ");
    t.append(name.as_str());
    t.append("::");
    t.append(variant.ident.as_str());
    t.append(rest.as_str());
    t.append(", stringify!(");
    t.append(variant.ident.as_str());
    t.append("))");
    t
}

/// The match arm that edits the fields of `variant`, labelled by `lits`.
fn arm_code(variant: &Variant, name: &String, lits: &Vec<String>) -> (r: Result<String, GenerateError>)
    requires
        shape_literals(variant.fields, lits@),
    ensures
        outcome(r, arm_error(*variant), arm_text(name@, *variant, lits@)),
{
    match &variant.fields {
        Fields::Named(fs) => {
            let mut bindings = String::new();
            let mut body = String::new();
            let mut i: usize = 0;
            while i < fs.len()
                invariant
                    0 <= i <= fs.len(),
                    lits@.len() == fs@.len(),
                    bindings@ == bindings_text(fs@.subrange(0, i as int)),
                    body@ == arm_fields_text(fs@.subrange(0, i as int), lits@.subrange(0, i as int)),
                    arm_fields_error(fs@.subrange(0, i as int)) is None,
                    variant.fields == Fields::Named(*fs),
                decreases fs.len() - i,
            {
                let ghost next = fs@.subrange(0, i + 1);
                assert(next.drop_last() =~= fs@.subrange(0, i as int));
                assert(lits@.subrange(0, i + 1).drop_last() =~= lits@.subrange(0, i as int));
                match named_field_text(&fs[i], true, true, lits[i].as_str()) {
                    Err(e) => {
                        proof {
                            assert(next.last() == fs@[i as int]);
                            assert(arm_fields_error(next) is Some);
                            lemma_arm_fields_error_persists(fs@, i + 1, fs@.len() as int);
                            assert(fs@.subrange(0, fs@.len() as int) =~= fs@);
                        }
                        return Err(e);
                    },
                    Ok(code) => {
                        if i > 0 {
                            bindings.append(", ");
                        }
                        bindings.append(fs[i].ident.as_str());
                        body.append(code.as_str());
                        body.append("; ");
                        proof {
                            if i == 0 {
                                assert(bindings@ =~= next[0].ident@);
                            }
                        }
                    },
                }
                i = i + 1;
            }
            assert(fs@.subrange(0, fs@.len() as int) =~= fs@);
            assert(lits@.subrange(0, lits@.len() as int) =~= lits@);
            let mut t = name.clone();
            t.append("::");
            t.append(variant.ident.as_str());
            t.append(" { ");
            t.append(bindings.as_str());
            t.append(" } => { ");
            t.append(body.as_str());
            t.append("}");
            Ok(t)
        },
        Fields::Unnamed(_) => Err(GenerateError::UnsupportedTupleVariant { variant: variant.ident.clone() }),
        Fields::Unit => {
            let mut t = name.clone();
            t.append("::");
            t.append(variant.ident.as_str());
            t.append(" => ()");
            Ok(t)
        },
    }
}

/// The match arm that edits the fields of `variant`, each bound by name and
/// its label written as a string literal. A variant with unnamed fields has
/// no such arm.
pub fn variant_inspect_arm(variant: &Variant, name: &String) -> (r: Result<String, GenerateError>)
    ensures
        match arm_error(*variant) {
            None => r matches Ok(t) && exists|lits: Seq<String>| #[trigger] shape_literals(variant.fields, lits)
                && t@ == arm_text(name@, *variant, lits),
            Some(f) => r matches Err(e) && failure_of(e) == f,
        },
{
    let lits = shape_literals_of(&variant.fields);
    let r = arm_code(variant, name, &lits);
    assert(shape_literals(variant.fields, lits@));
    r
}

/// The label literals of each variant of `vs`.
pub(crate) fn variant_literals(vs: &Vec<Variant>) -> (r: Vec<Vec<String>>)
    ensures
        variants_literals(vs@, r@),
{
    let mut r: Vec<Vec<String>> = Vec::new();
    let mut i: usize = 0;
    while i < vs.len()
        invariant
            0 <= i <= vs.len(),
            r@.len() == i,
            forall|k: int| 0 <= k < i ==> shape_literals(vs@[k].fields, #[trigger] r@[k]@),
        decreases vs.len() - i,
    {
        r.push(shape_literals_of(&vs[i].fields));
        i = i + 1;
    }
    r
}

/// The body for the enum `name`, the field labels of each variant written as
/// its entry of `ls`.
pub(crate) fn enum_body(variants: &Vec<Variant>, name: &String, mutable: bool, ls: &Vec<Vec<String>>) -> (r: Result<String, GenerateError>)
    requires
        variants_literals(variants@, ls@),
    ensures
        outcome(r, enum_error(variants@, mutable), enum_text(name@, variants@, mutable, ls@)),
{
    let mut name_arms = String::new();
    let mut combos = String::new();
    let mut i: usize = 0;
    while i < variants.len()
        invariant
            0 <= i <= variants.len(),
            name_arms@ == name_arms_text(name@, variants@.subrange(0, i as int)),
            combos@ == combos_text(name@, variants@.subrange(0, i as int)),
        decreases variants.len() - i,
    {
        assert(variants@.subrange(0, i + 1).drop_last() =~= variants@.subrange(0, i as int));
        let arm = variant_name_arm(&variants[i], name);
        name_arms.append(arm.as_str());
        name_arms.append(", ");
        let combo = variant_combo(&variants[i], name);
        combos.append(combo.as_str());
        combos.append("; ");
        i = i + 1;
    }
    assert(variants@.subrange(0, variants@.len() as int) =~= variants@);
    let mut t = String::from_str("let current_variant = match self { ");
    t.append(name_arms.as_str());
    t.append("}; ");
    if !mutable {
        t.append("ui.label(format!(\"{label}: {current_variant}\").as_str());");
        return Ok(t);
    }
    let mut arms = String::new();
    let mut j: usize = 0;
    while j < variants.len()
        invariant
            0 <= j <= variants.len(),
            variants_literals(variants@, ls@),
            arms@ == arms_text(name@, variants@.subrange(0, j as int), ls@.subrange(0, j as int)),
            arms_error(variants@.subrange(0, j as int)) is None,
            mutable,
        decreases variants.len() - j,
    {
        let ghost next = variants@.subrange(0, j + 1);
        assert(next.drop_last() =~= variants@.subrange(0, j as int));
        assert(ls@.subrange(0, j + 1).drop_last() =~= ls@.subrange(0, j as int));
        assert(shape_literals(variants@[j as int].fields, ls@[j as int]@));
        match arm_code(&variants[j], name, &ls[j]) {
            Err(e) => {
                proof {
                    assert(next.last() == variants@[j as int]);
                    assert(arms_error(next) is Some);
                    lemma_arms_error_persists(variants@, j + 1, variants@.len() as int);
                    assert(variants@.subrange(0, variants@.len() as int) =~= variants@);
                }
                return Err(e);
            },
            Ok(arm) => {
                if j > 0 {
                    arms.append(", ");
                }
                arms.append(arm.as_str());
                proof {
                    if j == 0 {
                        assert(arms@ =~= arm_text(name@, next[0], ls@.subrange(0, j + 1)[0]@));
                    }
                }
            },
        }
        j = j + 1;
    }
    assert(variants@.subrange(0, variants@.len() as int) =~= variants@);
    assert(ls@.subrange(0, ls@.len() as int) =~= ls@);
    let mut rest = String::from_str("ui.horizontal(|ui| { ui.label(stringify!(");
    rest.append(name.as_str());
    rest.append(")); ::egui::ComboBox::new(label, \"\").selected_text(current_variant).show_ui(ui, |ui| { ");
    rest.append(combos.as_str());
    rest.append("}); }); match self { ");
    rest.append(arms.as_str());
    rest.append(" };");
    t.append(rest.as_str());
    Ok(t)
}

/// The body for the enum `name`: a readonly impl shows the current variant's
/// name; an editing one offers a combo box of the variants and edits the
/// fields of the current one, each label written as a string literal.
pub fn handle_enum(variants: &Vec<Variant>, name: &String, mutable: bool) -> (r: Result<String, GenerateError>)
    ensures
        match enum_error(variants@, mutable) {
            None => r matches Ok(t) && exists|ls: Seq<Vec<String>>| #[trigger] variants_literals(variants@, ls)
                && t@ == enum_text(name@, variants@, mutable, ls),
            Some(f) => r matches Err(e) && failure_of(e) == f,
        },
{
    let ls = variant_literals(variants);
    let r = enum_body(variants, name, mutable, &ls);
    assert(variants_literals(variants@, ls@));
    r
}

} // verus!
