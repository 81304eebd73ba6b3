use vstd::prelude::*;
use crate::text::ensure_leading_slash;
use crate::text::to_ascii_upper;
use crate::text::upper_char;
use crate::text::upper_seq;
use crate::text::with_leading_slash;

verus! {

/// The canonical form of a method string: ASCII uppercased.
pub open spec fn norm_method(s: Seq<char>) -> Seq<char> {
    upper_seq(s)
}

/// The canonical form of a path string: the string itself if it begins with
/// `/`, else with `/` prepended.
pub open spec fn norm_path(s: Seq<char>) -> Seq<char> {
    with_leading_slash(s)
}

/// Both halves of the route key in canonical form.
pub fn normalize_method(s: &str) -> (r: String)
    ensures
        r@ == norm_method(s@),
{
    to_ascii_upper(s)
}

pub fn normalize_path(s: &str) -> (r: String)
    ensures
        r@ == norm_path(s@),
{
    ensure_leading_slash(s)
}

/// Law: normalizing a method twice gives exactly what normalizing it once
/// gives, for every method string.
pub proof fn lemma_norm_method_idempotent(s: Seq<char>)
    ensures
        norm_method(norm_method(s)) == norm_method(s),
{
    assert forall|i: int| 0 <= i < s.len() implies upper_char(upper_seq(s)[i]) == upper_seq(s)[i] by {
        let c = s[i];
        if 'a' <= c && c <= 'z' {
            assert(upper_char(c) == (((c as u8) - 32) as u8) as char);
        }
    }
    assert(norm_method(norm_method(s)) =~= norm_method(s));
}

/// Law: normalizing a path twice gives exactly what normalizing it once
/// gives, for every path string.
pub proof fn lemma_norm_path_idempotent(s: Seq<char>)
    ensures
        norm_path(norm_path(s)) == norm_path(s),
{
    let p = norm_path(s);
    assert(p.len() > 0 && p[0] == '/');
}

/// Law: normalizing a route key twice, in both halves, gives what
/// normalizing it once gives.
pub proof fn lemma_normalize_idempotent(method: Seq<char>, path: Seq<char>)
    ensures
        norm_method(norm_method(method)) == norm_method(method),
        norm_path(norm_path(path)) == norm_path(path),
{
    lemma_norm_method_idempotent(method);
    lemma_norm_path_idempotent(path);
}

} // verus!
