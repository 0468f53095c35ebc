//! Calls into proc-macro2 and darling that the generator relies on.

use vstd::prelude::*;

verus! {

/// A character that every string literal writer leaves as it is: printable
/// ASCII other than the double quote and the backslash.
pub open spec fn is_plain_char(c: char) -> bool {
    ' ' <= c && c <= '~' && c != '"' && c != '\\'
}

pub open spec fn is_plain(s: Seq<char>) -> bool {
    forall|i: int| 0 <= i < s.len() ==> is_plain_char(#[trigger] s[i])
}

/// `s` between double quotes.
pub open spec fn quoted(s: Seq<char>) -> Seq<char> {
    seq!['"'] + s + seq!['"']
}

/// `lit` is the text of a string literal token for the value `s`: it is
/// quoted, and a plain `s` stands in it unescaped.
pub open spec fn literal_for(lit: Seq<char>, s: Seq<char>) -> bool {
    &&& lit.len() >= 2
    &&& lit[0] == '"'
    &&& lit.last() == '"'
    &&& is_plain(s) ==> lit == quoted(s)
}

/// Whether `s` parses as a Rust path such as `crate::module::function`.
pub uninterp spec fn is_path_text(s: Seq<char>) -> bool;

/// Relies on `proc_macro2::Literal::string` and its `Display`: the text of a
/// string literal token for `s`. Inside a proc macro the compiler writes it,
/// elsewhere proc-macro2's own lexer does; the two may escape control and
/// non-ASCII characters differently, but both quote the value and leave
/// printable ASCII other than `"` and `\` as it is.
#[verifier::external_body]
pub(crate) fn string_literal(s: &str) -> (r: String)
    ensures
        literal_for(r@, s@),
{
    proc_macro2::Literal::string(s).to_string()
}

/// Relies on `darling::FromMeta::from_string` for `syn::Path`, which succeeds
/// exactly when `syn::parse_str` parses `s` as a path.
#[verifier::external_body]
pub(crate) fn parses_as_path(s: &str) -> (r: bool)
    ensures
        r == is_path_text(s@),
{
    <syn::Path as darling::FromMeta>::from_string(s).is_ok()
}

} // verus!
