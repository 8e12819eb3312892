//! Benchmark selection by name.
//!
//! The configured filter is a regular expression; a benchmark runs
//! when the filter matches anywhere in its name, and the default empty
//! filter matches every name.

use vstd::prelude::*;

verus! {

/// Whether `pattern` compiles as a regular expression. Compilation
/// succeeds or fails as a function of the pattern text alone.
pub uninterp spec fn regex_valid(pattern: Seq<char>) -> bool;

/// Whether the regular expression `pattern` matches anywhere in
/// `text`. Meaningful only for patterns that satisfy `regex_valid`.
pub uninterp spec fn regex_accepts(pattern: Seq<char>, text: Seq<char>) -> bool;

/// Relies on regex::Regex::new and regex::Regex::is_match: `new`
/// succeeds or fails as a function of the pattern alone, and
/// `is_match` returns whether the compiled pattern matches anywhere in
/// the haystack, as a function of the pattern and the haystack alone.
#[verifier::external_body]
fn regex_is_match(pattern: &str, text: &str) -> (r: Option<bool>)
    ensures
        r is Some <==> regex_valid(pattern@),
        r is Some ==> r->0 == regex_accepts(pattern@, text@),
{
    match regex::Regex::new(pattern) {
        Ok(re) => Some(re.is_match(text)),
        Err(_) => None,
    }
}

/// Whether the configured filter selects one benchmark name. `None`
/// when the filter is not a valid regular expression.
pub fn benchmark_matches_filter(filter: &str, name: &str) -> (r: Option<bool>)
    ensures
        r is Some <==> regex_valid(filter@),
        r is Some ==> r->0 == regex_accepts(filter@, name@),
{
    regex_is_match(filter, name)
}

/// Which benchmarks of a group the filter selects: one flag per name,
/// in order. The filter is compiled once per name, as each benchmark
/// comes up; an empty group therefore never compiles it. `None` when
/// the group is non-empty and the filter is not a valid regular
/// expression.
pub fn select_benchmarks(filter: &str, names: &Vec<String>) -> (r: Option<Vec<bool>>)
    ensures
        r is Some <==> names@.len() == 0 || regex_valid(filter@),
        r is Some ==> r->0@.len() == names@.len(),
        r is Some ==> forall|i: int|
            0 <= i < names@.len() ==> r->0@[i] == regex_accepts(filter@, names@[i]@),
{
    let mut selected: Vec<bool> = Vec::new();
    let n: usize = names.len();
    if n == 0 {
        return Some(selected);
    }
    let mut i: usize = 0;
    while i < n
        invariant
            0 <= i <= n,
            n == names@.len(),
            selected@.len() == i,
            i > 0 ==> regex_valid(filter@),
            forall|j: int| 0 <= j < i ==> selected@[j] == regex_accepts(filter@, names@[j]@),
        decreases n - i,
    {
        let m: Option<bool> = regex_is_match(filter, names[i].as_str());
        match m {
            Some(hit) => {
                selected.push(hit);
            },
            None => {
                return None;
            },
        }
        i = i + 1;
    }
    Some(selected)
}

} // verus!
