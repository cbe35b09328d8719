//! Small helpers on strings.

use vstd::prelude::*;
use vstd::string::*;

verus! {

/// Whether two string slices hold the same characters.
pub fn same(a: &str, b: &str) -> (equal: bool)
    ensures
        equal == (a@ == b@),
{
    a.to_owned() == b.to_owned()
}

/// An owned copy of `prefix` followed by `rest`.
pub fn join(prefix: &str, rest: &str) -> (joined: String)
    ensures
        joined@ == prefix@ + rest@,
{
    let mut joined = String::from_str(prefix);
    joined.append(rest);
    joined
}

/// The views of a list of string pairs, pair by pair.
pub open spec fn pairs_view(pairs: Seq<(String, String)>) -> Seq<(Seq<char>, Seq<char>)> {
    Seq::new(pairs.len(), |i: int| (pairs[i].0@, pairs[i].1@))
}

/// The view of an optional string.
pub open spec fn option_view(value: Option<String>) -> Option<Seq<char>> {
    match value {
        Some(text) => Some(text@),
        None => None,
    }
}

} // verus!
