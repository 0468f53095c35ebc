//! Code for the fields of a struct, and for one named field.
//!
//! For a named field the generator picks, in this order: nothing for a
//! hidden field, a call of the field's custom function, a built-in widget
//! for numbers and strings being edited, and otherwise a call of the field's
//! own `EguiInspect` method. The field's label reaches the code as a string
//! literal; the functions that take that literal as an argument say exactly
//! what they write for each value of it.

use vstd::prelude::*;
use crate::model::{opt_text, path_str, Field, Fields, GenerateError, get_path_str};
use crate::outside::{
    is_path_text, is_plain, literal_for, parses_as_path, quoted, string_literal,
};

verus! {

/// The label shown for a field: its `name` option, or its identifier.
pub open spec fn label_of(f: Field) -> Seq<char> {
    match f.attrs.name {
        Some(n) => n@,
        None => f.ident@,
    }
}

/// Whether the field is edited when the mutable impl is generated with `mutable`.
pub open spec fn edits(f: Field, mutable: bool) -> bool {
    mutable && !f.attrs.no_edit
}

/// The custom function chosen for the field, with whether it is the editing one.
pub open spec fn custom_call(f: Field, mutable: bool) -> Option<(bool, Seq<char>)> {
    if mutable && !f.attrs.no_edit && f.attrs.custom_func_mut is Some {
        Some((true, opt_text(f.attrs.custom_func_mut)->0))
    } else if (!mutable || f.attrs.no_edit) && f.attrs.custom_func is Some {
        Some((false, opt_text(f.attrs.custom_func)->0))
    } else {
        None
    }
}

pub open spec fn custom_text(f: Field, by_mut: bool, path: Seq<char>, lit: Seq<char>) -> Seq<char> {
    "{ "@ + path + (if by_mut { "\n(&mut self."@ } else { "\n(&self."@ }) + f.ident@ + ", &"@ + lit
        + ", ui); }"@
}

/// Whether `s` names one of the primitive number types that have a slider.
pub open spec fn is_number_name(s: Seq<char>) -> bool {
    ||| s == "f32"@ ||| s == "f64"@
    ||| s == "u8"@ ||| s == "u16"@ ||| s == "u32"@ ||| s == "u64"@ ||| s == "usize"@
    ||| s == "i8"@ ||| s == "i16"@ ||| s == "i32"@ ||| s == "i64"@ ||| s == "isize"@
}

/// A mutable borrow of the field: through `self`, or through the binding of
/// a match arm for a loose field.
pub open spec fn mut_ref(f: Field, loose: bool) -> Seq<char> {
    if loose { "&mut *"@ + f.ident@ } else { "&mut self."@ + f.ident@ }
}

/// The built-in widget for an edited number or `String`, if the field is one.
pub open spec fn internal_text(f: Field, edit: bool, loose: bool, lit: Seq<char>) -> Option<Seq<char>> {
    if !edit {
        None
    } else {
        match path_str(f.ty) {
            Some(s) => if is_number_name(s) {
                if f.attrs.slider {
                    Some("{ egui_inspect::InspectNumber::inspect_with_slider("@ + mut_ref(f, loose)
                        + ", &"@ + lit + ", ui, "@ + f.attrs.min@ + ", "@ + f.attrs.max@ + "); }"@)
                } else {
                    Some("{ egui_inspect::InspectNumber::inspect_with_drag_value("@ + mut_ref(f, loose)
                        + ", &"@ + lit + ", ui); }"@)
                }
            } else if s == "String"@ {
                if f.attrs.multiline {
                    Some("{ egui_inspect::InspectString::inspect_mut_multiline("@ + mut_ref(f, loose)
                        + ", &"@ + lit + ", ui); }"@)
                } else {
                    Some("{ egui_inspect::InspectString::inspect_mut_singleline("@ + mut_ref(f, loose)
                        + ", &"@ + lit + ", ui); }"@)
                }
            } else {
                None
            },
            None => None,
        }
    }
}

/// The call of the field's own `inspect` or `inspect_mut`.
pub open spec fn default_text(f: Field, edit: bool, loose: bool, lit: Seq<char>) -> Seq<char> {
    "{ "@ + (if loose { f.ident@ } else { "self."@ + f.ident@ })
        + (if edit { ".inspect_mut(&"@ } else { ".inspect(&"@ }) + lit + ", ui); }"@
}

/// The custom function path that makes the field's code fail, if any.
pub open spec fn field_error(f: Field, mutable: bool) -> Option<Seq<char>> {
    if f.attrs.hide {
        None
    } else {
        match custom_call(f, edits(f, mutable)) {
            Some(c) => if is_path_text(c.1) { None } else { Some(c.1) },
            None => None,
        }
    }
}

/// The code for a named field whose label is written as `lit`.
pub open spec fn field_text(f: Field, mutable: bool, loose: bool, lit: Seq<char>) -> Seq<char> {
    if f.attrs.hide {
        Seq::empty()
    } else {
        match custom_call(f, edits(f, mutable)) {
            Some(c) => custom_text(f, c.0, c.1, lit),
            None => match internal_text(f, edits(f, mutable), loose, lit) {
                Some(t) => t,
                None => default_text(f, edits(f, mutable), loose, lit),
            },
        }
    }
}

/// `lits` holds a string literal for the label of each field of `fs`.
pub open spec fn literals_for(lits: Seq<String>, fs: Seq<Field>) -> bool {
    &&& lits.len() == fs.len()
    &&& forall|i: int| 0 <= i < fs.len() ==> literal_for(#[trigger] lits[i]@, label_of(fs[i]))
}

/// The first failing custom function path among `fs`.
pub open spec fn fields_error(fs: Seq<Field>, mutable: bool) -> Option<Seq<char>>
    decreases fs.len(),
{
    if fs.len() == 0 {
        None
    } else {
        match fields_error(fs.drop_last(), mutable) {
            Some(p) => Some(p),
            None => field_error(fs.last(), mutable),
        }
    }
}

/// The code of the fields `fs`, one after the other, the label of each
/// written as the literal at its index in `lits`.
pub open spec fn fields_text(fs: Seq<Field>, mutable: bool, loose: bool, lits: Seq<String>) -> Seq<char>
    decreases fs.len(),
{
    if fs.len() == 0 {
        Seq::empty()
    } else {
        fields_text(fs.drop_last(), mutable, loose, lits.drop_last())
            + field_text(fs.last(), mutable, loose, lits.last()@)
    }
}

pub open spec fn digit_text(d: nat) -> Seq<char> {
    if d == 0 { seq!['0'] } else if d == 1 { seq!['1'] } else if d == 2 { seq!['2'] }
    else if d == 3 { seq!['3'] } else if d == 4 { seq!['4'] } else if d == 5 { seq!['5'] }
    else if d == 6 { seq!['6'] } else if d == 7 { seq!['7'] } else if d == 8 { seq!['8'] }
    else { seq!['9'] }
}

/// The decimal digits of `n`.
pub open spec fn decimal(n: nat) -> Seq<char>
    decreases n,
{
    if n < 10 { digit_text(n) } else { decimal(n / 10) + digit_text(n % 10) }
}

/// The label of the `i`-th field of a tuple struct.
pub open spec fn unnamed_label(i: nat) -> Seq<char> {
    "Field "@ + decimal(i)
}

/// The code for the `i`-th field of a tuple struct.
pub open spec fn unnamed_text(i: nat, mutable: bool) -> Seq<char> {
    (if mutable {
        "egui_inspect::EguiInspect::inspect_mut(&mut "@
    } else {
        "egui_inspect::EguiInspect::inspect(&"@
    }) + "self."@ + decimal(i) + ", "@ + quoted(unnamed_label(i)) + ", ui); "@
}

/// The code for the first `n` fields of a tuple struct.
pub open spec fn unnamed_texts(n: nat, mutable: bool) -> Seq<char>
    decreases n,
{
    if n == 0 { Seq::empty() } else { unnamed_texts((n - 1) as nat, mutable) + unnamed_text((n - 1) as nat, mutable) }
}

/// `lits` holds a literal for the label of each named field; other fields have none.
pub open spec fn shape_literals(fields: Fields, lits: Seq<String>) -> bool {
    match fields {
        Fields::Named(fs) => literals_for(lits, fs@),
        _ => lits.len() == 0,
    }
}

/// The first failing custom function path among the fields of a struct.
pub open spec fn shape_error(fields: Fields, mutable: bool) -> Option<Seq<char>> {
    match fields {
        Fields::Named(fs) => fields_error(fs@, mutable),
        _ => None,
    }
}

/// The body of `inspect` (or of `inspect_mut`) for a struct with `fields`,
/// the labels of named fields written as `lits`.
pub open spec fn shape_text(fields: Fields, mutable: bool, lits: Seq<String>) -> Seq<char> {
    match fields {
        Fields::Named(fs) => "ui.strong(label); "@ + fields_text(fs@, mutable, false, lits),
        Fields::Unnamed(n) => "ui.strong(label); "@ + unnamed_texts(n as nat, mutable),
        Fields::Unit => Seq::empty(),
    }
}

/// `r` is `Ok` with the text `text` when no custom function path fails,
/// else the error for the failing path.
pub open spec fn path_outcome(r: Result<String, GenerateError>, error: Option<Seq<char>>, text: Seq<char>) -> bool {
    match error {
        None => r matches Ok(t) && t@ == text,
        Some(p) => r matches Err(GenerateError::InvalidFunctionPath { path }) && path@ == p,
    }
}

proof fn lemma_error_persists(fs: Seq<Field>, mutable: bool, k: int, j: int)
    requires
        0 <= k <= j <= fs.len(),
        fields_error(fs.subrange(0, k), mutable) is Some,
    ensures
        fields_error(fs.subrange(0, j), mutable) == fields_error(fs.subrange(0, k), mutable),
    decreases j - k,
{
    if j > k {
        lemma_error_persists(fs, mutable, k, j - 1);
        assert(fs.subrange(0, j).drop_last() =~= fs.subrange(0, j - 1));
    }
}

proof fn lemma_decimal_plain(n: nat)
    ensures
        is_plain(decimal(n)),
    decreases n,
{
    if n >= 10 {
        lemma_decimal_plain(n / 10);
        let d = n % 10;
        assert(is_plain(digit_text(d)));
        assert(forall|i: int| 0 <= i < decimal(n).len() ==>
            #[trigger] decimal(n)[i] == if i < decimal(n / 10).len() { decimal(n / 10)[i] }
                else { digit_text(d)[i - decimal(n / 10).len()] });
    }
}

proof fn lemma_unnamed_label_plain(i: nat)
    ensures
        is_plain(unnamed_label(i)),
{
    reveal_strlit("Field ");
    lemma_decimal_plain(i);
    let l = unnamed_label(i);
    assert(forall|k: int| 0 <= k < l.len() ==>
        #[trigger] l[k] == if k < 6 { "Field "@[k] } else { decimal(i)[k - 6] });
}

pub(crate) fn label(f: &Field) -> (r: String)
    ensures
        r@ == label_of(*f),
{
    match &f.attrs.name {
        Some(n) => n.clone(),
        None => f.ident.clone(),
    }
}

fn text_is(s: &String, lit: &str) -> (r: bool)
    ensures
        r == (s@ == lit@),
{
    *s == String::from_str(lit)
}

/// The call of the custom function `path` with the field and its label `label_lit`.
pub fn custom_call_text(field: &Field, by_mut: bool, path: &str, label_lit: &str) -> (r: String)
    ensures
        r@ == custom_text(*field, by_mut, path@, label_lit@),
{
    let mut t = String::from_str("{ ");
    t.append(path);
    t.append(if by_mut { "\n(&mut self." } else { "\n(&self." });
    t.append(field.ident.as_str());
    t.append(", &");
    t.append(label_lit);
    t.append(", ui); }");
    t
}

/// The call of the field's custom function, when it has one for this impl;
/// an error when that function's path does not parse.
pub fn handle_custom_func(field: &Field, mutable: bool) -> (r: Result<Option<String>, GenerateError>)
    ensures
        match custom_call(*field, mutable) {
            None => r matches Ok(None),
            Some(c) => if is_path_text(c.1) {
                r matches Ok(Some(t)) && exists|lit: Seq<char>| #[trigger] literal_for(lit, label_of(*field))
                    && t@ == custom_text(*field, c.0, c.1, lit)
            } else {
                r matches Err(GenerateError::InvalidFunctionPath { path }) && path@ == c.1
            },
        },
{
    let attrs = &field.attrs;
    let (by_mut, func) = if mutable && !attrs.no_edit && attrs.custom_func_mut.is_some() {
        (true, attrs.custom_func_mut.as_ref().unwrap())
    } else if (!mutable || attrs.no_edit) && attrs.custom_func.is_some() {
        (false, attrs.custom_func.as_ref().unwrap())
    } else {
        return Ok(None);
    };
    if !parses_as_path(func.as_str()) {
        return Err(GenerateError::InvalidFunctionPath { path: func.clone() });
    }
    let lit = string_literal(label(field).as_str());
    let t = custom_call_text(field, by_mut, func.as_str(), lit.as_str());
    assert(literal_for(lit@, label_of(*field)));
    Ok(Some(t))
}

fn is_number(s: &String) -> (r: bool)
    ensures
        r == is_number_name(s@),
{
    text_is(s, "f32") || text_is(s, "f64") || text_is(s, "u8") || text_is(s, "u16")
        || text_is(s, "u32") || text_is(s, "u64") || text_is(s, "usize") || text_is(s, "i8")
        || text_is(s, "i16") || text_is(s, "i32") || text_is(s, "i64") || text_is(s, "isize")
}

/// The built-in widget, labelled `label_lit`, for an edited field whose type
/// is a number or a `String`.
pub fn try_handle_internal_path(field: &Field, edit: bool, loose: bool, label_lit: &str) -> (r: Option<String>)
    ensures
        opt_text(r) == internal_text(*field, edit, loose, label_lit@),
{
    if !edit {
        return None;
    }
    let ty = match get_path_str(&field.ty) {
        Some(s) => s,
        None => return None,
    };
    let call = if is_number(&ty) {
        if field.attrs.slider {
            "{ egui_inspect::InspectNumber::inspect_with_slider("
        } else {
            "{ egui_inspect::InspectNumber::inspect_with_drag_value("
        }
    } else if text_is(&ty, "String") {
        if field.attrs.multiline {
            "{ egui_inspect::InspectString::inspect_mut_multiline("
        } else {
            "{ egui_inspect::InspectString::inspect_mut_singleline("
        }
    } else {
        return None;
    };
    let mut borrow = String::from_str(if loose { "&mut *" } else { "&mut self." });
    borrow.append(field.ident.as_str());
    let mut t = String::from_str(call);
    t.append(borrow.as_str());
    t.append(", &");
    t.append(label_lit);
    if is_number(&ty) && field.attrs.slider {
        t.append(", ui, ");
        t.append(field.attrs.min.as_str());
        t.append(", ");
        t.append(field.attrs.max.as_str());
        t.append("); }");
    } else {
        t.append(", ui); }");
    }
    Some(t)
}

/// The call of the field's own `inspect_mut` when `edit`, else of `inspect`,
/// labelled `label_lit`.
pub fn default_call_text(field: &Field, edit: bool, loose: bool, label_lit: &str) -> (r: String)
    ensures
        r@ == default_text(*field, edit, loose, label_lit@),
{
    let mut base = if loose { String::new() } else { String::from_str("self.") };
    base.append(field.ident.as_str());
    proof {
        assert(!loose ==> base@ == "self."@ + field.ident@);
        assert(loose ==> base@ =~= field.ident@);
    }
    let mut t = String::from_str("{ ");
    t.append(base.as_str());
    t.append(if edit { ".inspect_mut(&" } else { ".inspect(&" });
    t.append(label_lit);
    t.append(", ui); }");
    t
}

/// The call of the field's own `inspect_mut` when `edit`, else of `inspect`.
pub fn get_default_function_call(field: &Field, edit: bool, loose: bool) -> (r: String)
    ensures
        exists|lit: Seq<char>| #[trigger] literal_for(lit, label_of(*field))
            && r@ == default_text(*field, edit, loose, lit),
{
    let lit = string_literal(label(field).as_str());
    let t = default_call_text(field, edit, loose, lit.as_str());
    assert(literal_for(lit@, label_of(*field)));
    t
}

/// The code for a named field labelled `label_lit`: nothing when it is
/// hidden, else its custom function, else a built-in widget, else its own
/// `EguiInspect` method. A `loose` field is bound by name in a match arm
/// rather than reached through `self`.
pub fn named_field_text(f: &Field, mutable: bool, loose: bool, label_lit: &str) -> (r: Result<String, GenerateError>)
    ensures
        path_outcome(r, field_error(*f, mutable), field_text(*f, mutable, loose, label_lit@)),
{
    if f.attrs.hide {
        return Ok(String::new());
    }
    let attrs = &f.attrs;
    let edit = mutable && !attrs.no_edit;
    let custom = if edit && attrs.custom_func_mut.is_some() {
        Some((true, attrs.custom_func_mut.as_ref().unwrap()))
    } else if !edit && attrs.custom_func.is_some() {
        Some((false, attrs.custom_func.as_ref().unwrap()))
    } else {
        None
    };
    if let Some((by_mut, func)) = custom {
        if !parses_as_path(func.as_str()) {
            return Err(GenerateError::InvalidFunctionPath { path: func.clone() });
        }
        return Ok(custom_call_text(f, by_mut, func.as_str(), label_lit));
    }
    match try_handle_internal_path(f, edit, loose, label_lit) {
        Some(t) => Ok(t),
        None => Ok(default_call_text(f, edit, loose, label_lit)),
    }
}

/// The code for a named field, its label written as a string literal.
pub fn handle_named_field(f: &Field, mutable: bool, loose: bool) -> (r: Result<String, GenerateError>)
    ensures
        match field_error(*f, mutable) {
            None => r matches Ok(t) && exists|lit: Seq<char>| #[trigger] literal_for(lit, label_of(*f))
                && t@ == field_text(*f, mutable, loose, lit),
            Some(p) => r matches Err(GenerateError::InvalidFunctionPath { path }) && path@ == p,
        },
{
    let lit = string_literal(label(f).as_str());
    let r = named_field_text(f, mutable, loose, lit.as_str());
    assert(literal_for(lit@, label_of(*f)));
    r
}

/// A string literal for the label of each field of `fs`.
fn field_literals(fs: &Vec<Field>) -> (r: Vec<String>)
    ensures
        literals_for(r@, fs@),
{
    let mut r: Vec<String> = Vec::new();
    let mut i: usize = 0;
    while i < fs.len()
        invariant
            0 <= i <= fs.len(),
            r@.len() == i,
            forall|k: int| 0 <= k < i ==> literal_for(#[trigger] r@[k]@, label_of(fs@[k])),
        decreases fs.len() - i,
    {
        let lit = string_literal(label(&fs[i]).as_str());
        r.push(lit);
        i = i + 1;
    }
    r
}

/// A string literal for the label of each named field of `fields`.
pub(crate) fn shape_literals_of(fields: &Fields) -> (r: Vec<String>)
    ensures
        shape_literals(*fields, r@),
{
    match fields {
        Fields::Named(fs) => field_literals(fs),
        _ => Vec::new(),
    }
}

/// The code for a list of named fields, one after the other, labelled by `lits`.
fn fields_code(fs: &Vec<Field>, mutable: bool, loose: bool, lits: &Vec<String>) -> (r: Result<String, GenerateError>)
    requires
        lits@.len() == fs@.len(),
    ensures
        path_outcome(r, fields_error(fs@, mutable), fields_text(fs@, mutable, loose, lits@)),
{
    let mut out = String::new();
    let mut i: usize = 0;
    while i < fs.len()
        invariant
            0 <= i <= fs.len(),
            lits@.len() == fs@.len(),
            fields_error(fs@.subrange(0, i as int), mutable) is None,
            out@ == fields_text(fs@.subrange(0, i as int), mutable, loose, lits@.subrange(0, i as int)),
        decreases fs.len() - i,
    {
        let ghost next = fs@.subrange(0, i + 1);
        assert(next.drop_last() =~= fs@.subrange(0, i as int));
        assert(lits@.subrange(0, i + 1).drop_last() =~= lits@.subrange(0, i as int));
        match named_field_text(&fs[i], mutable, loose, lits[i].as_str()) {
            Err(e) => {
                proof {
                    lemma_error_persists(fs@, mutable, i + 1, fs@.len() as int);
                    assert(fs@.subrange(0, fs@.len() as int) =~= fs@);
                }
                return Err(e);
            },
            Ok(t) => {
                out.append(t.as_str());
            },
        }
        i = i + 1;
    }
    assert(fs@.subrange(0, fs@.len() as int) =~= fs@);
    assert(lits@.subrange(0, lits@.len() as int) =~= lits@);
    Ok(out)
}

/// The body for named fields `fs` labelled by `lits`.
fn named_fields_body(fs: &Vec<Field>, mutable: bool, lits: &Vec<String>) -> (r: Result<String, GenerateError>)
    requires
        lits@.len() == fs@.len(),
    ensures
        path_outcome(r, fields_error(fs@, mutable), "ui.strong(label); "@ + fields_text(fs@, mutable, false, lits@)),
{
    let body = fields_code(fs, mutable, false, lits)?;
    let mut t = String::from_str("ui.strong(label); ");
    t.append(body.as_str());
    Ok(t)
}

/// The body for a struct with named fields: its label in bold, then each
/// field, the label of each written as a string literal.
pub fn handle_named_fields(fs: &Vec<Field>, mutable: bool) -> (r: Result<String, GenerateError>)
    ensures
        match fields_error(fs@, mutable) {
            None => r matches Ok(t) && exists|lits: Seq<String>| #[trigger] literals_for(lits, fs@)
                && t@ == "ui.strong(label); "@ + fields_text(fs@, mutable, false, lits),
            Some(p) => r matches Err(GenerateError::InvalidFunctionPath { path }) && path@ == p,
        },
{
    let lits = field_literals(fs);
    let r = named_fields_body(fs, mutable, &lits);
    assert(literals_for(lits@, fs@));
    r
}

fn digit(d: usize) -> (r: String)
    requires
        d < 10,
    ensures
        r@ == digit_text(d as nat),
{
    proof {
        reveal_strlit("0");
        reveal_strlit("1");
        reveal_strlit("2");
        reveal_strlit("3");
        reveal_strlit("4");
        reveal_strlit("5");
        reveal_strlit("6");
        reveal_strlit("7");
        reveal_strlit("8");
        reveal_strlit("9");
    }
    let r = String::from_str(
        if d == 0 { "0" } else if d == 1 { "1" } else if d == 2 { "2" } else if d == 3 { "3" }
        else if d == 4 { "4" } else if d == 5 { "5" } else if d == 6 { "6" } else if d == 7 { "7" }
        else if d == 8 { "8" } else { "9" },
    );
    assert(r@ =~= digit_text(d as nat));
    r
}

/// The decimal digits of `n`.
pub fn decimal_text(n: usize) -> (r: String)
    ensures
        r@ == decimal(n as nat),
    decreases n,
{
    if n < 10 {
        digit(n)
    } else {
        let mut t = decimal_text(n / 10);
        let d = digit(n % 10);
        t.append(d.as_str());
        t
    }
}

/// The body for a tuple struct of `count` fields: its label in bold, then
/// each field under the label `Field i`, edited when `mutable`.
pub fn handle_unnamed_fields(count: usize, mutable: bool) -> (r: String)
    ensures
        r@ == "ui.strong(label); "@ + unnamed_texts(count as nat, mutable),
{
    let mut items = String::new();
    let mut i: usize = 0;
    while i < count
        invariant
            0 <= i <= count,
            items@ == unnamed_texts(i as nat, mutable),
        decreases count - i,
    {
        let index = decimal_text(i);
        let mut name = String::from_str("Field ");
        name.append(index.as_str());
        let lit = string_literal(name.as_str());
        proof {
            lemma_unnamed_label_plain(i as nat);
        }
        items.append(if mutable {
            "egui_inspect::EguiInspect::inspect_mut(&mut "
        } else {
            "egui_inspect::EguiInspect::inspect(&"
        });
        items.append("self.");
        items.append(index.as_str());
        items.append(", ");
        items.append(lit.as_str());
        items.append(", ui); ");
        proof {
            assert(unnamed_texts((i + 1) as nat, mutable) == unnamed_texts(i as nat, mutable)
                + unnamed_text(i as nat, mutable));
            assert(items@ =~= unnamed_texts((i + 1) as nat, mutable));
        }
        i = i + 1;
    }
    let mut t = String::from_str("ui.strong(label); ");
    t.append(items.as_str());
    t
}

/// The body for a struct with `fields`, the labels of named fields written as `lits`.
pub(crate) fn shape_body(fields: &Fields, mutable: bool, lits: &Vec<String>) -> (r: Result<String, GenerateError>)
    requires
        shape_literals(*fields, lits@),
    ensures
        path_outcome(r, shape_error(*fields, mutable), shape_text(*fields, mutable, lits@)),
{
    match fields {
        Fields::Named(fs) => named_fields_body(fs, mutable, lits),
        Fields::Unnamed(n) => Ok(handle_unnamed_fields(*n, mutable)),
        Fields::Unit => Ok(String::new()),
    }
}

/// The body for a struct with `fields`, the label of each named field
/// written as a string literal.
pub fn handle_fields(fields: &Fields, mutable: bool) -> (r: Result<String, GenerateError>)
    ensures
        match shape_error(*fields, mutable) {
            None => r matches Ok(t) && exists|lits: Seq<String>| #[trigger] shape_literals(*fields, lits)
                && t@ == shape_text(*fields, mutable, lits),
            Some(p) => r matches Err(GenerateError::InvalidFunctionPath { path }) && path@ == p,
        },
{
    let lits = shape_literals_of(fields);
    let r = shape_body(fields, mutable, &lits);
    assert(shape_literals(*fields, lits@));
    r
}

} // verus!
