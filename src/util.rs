//! File names from module paths.
use vstd::prelude::*;

verus! {

/// `s` with each `::`, taken from left to right without overlap, replaced
/// by `.`.
pub open spec fn dots_for_colons(s: Seq<char>) -> Seq<char>
    decreases s.len(),
{
    if s.len() < 2 {
        s
    } else if s[0] == ':' && s[1] == ':' {
        seq!['.'] + dots_for_colons(s.subrange(2, s.len() as int))
    } else {
        seq![s[0]] + dots_for_colons(s.drop_first())
    }
}

/// Relies on regex::Regex::new, which accepts the literal pattern `::`,
/// and on Regex::replace_all, which replaces the successive
/// non-overlapping matches of that pattern, leftmost first, by `.`.
#[verifier::external_body]
fn replace_path_separators(s: &str) -> (r: String)
    ensures
        r@ == dots_for_colons(s@),
{
    let re = regex::Regex::new(r"::").unwrap();
    re.replace_all(s, ".").into_owned()
}

/// Convert a Rust module path into a name that file systems accept:
/// the separator `::` becomes `.`.
pub fn filename_of_mod_path_(mod_path: &str) -> (r: String)
    ensures
        r@ == dots_for_colons(mod_path@),
{
    replace_path_separators(mod_path)
}

} // verus!
