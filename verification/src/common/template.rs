use vstd::prelude::*;

verus! {

/// `s` with every occurrence of the non-empty `pattern`, found left to right
/// without overlap, replaced by `with`.
pub open spec fn replaced(s: Seq<char>, pattern: Seq<char>, with: Seq<char>) -> Seq<char>
    recommends
        pattern.len() > 0,
    decreases s.len(),
{
    if pattern.len() == 0 || s.len() < pattern.len() {
        s
    } else if s.take(pattern.len() as int) == pattern {
        with + replaced(s.skip(pattern.len() as int), pattern, with)
    } else {
        seq![s[0]] + replaced(s.drop_first(), pattern, with)
    }
}

/// Calls `str::replace`, which replaces every match of `pattern`, scanning
/// left to right without overlap. The contract restates that for non-empty
/// patterns.
#[verifier::external_body]
pub(crate) fn replace_all(s: &str, pattern: &str, with: &str) -> (r: String)
    requires
        pattern@.len() > 0,
    ensures
        r@ == replaced(s@, pattern@, with@),
{
    s.replace(pattern, with)
}

} // verus!
