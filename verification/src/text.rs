//! Small verified helpers for strings and dotted field paths.

use vstd::prelude::*;
use vstd::string::StringExecFns;

verus! {

/// Compare two string slices by content.
pub fn str_eq(a: &str, b: &str) -> (r: bool)
    ensures
        r == (a@ == b@),
{
    let x = a.to_owned();
    let y = b.to_owned();
    x == y
}

/// The dotted path of a field reached from `path` by key `key`.
pub open spec fn spec_extend_path(path: Seq<char>, key: Seq<char>) -> Seq<char> {
    if path.len() == 0 {
        key
    } else {
        path + "."@ + key
    }
}

/// Append `key` to a dotted path, as in `models.main.providers`.
pub fn extend_path(path: &str, key: &str) -> (r: String)
    ensures
        r@ == spec_extend_path(path@, key@),
{
    if path.is_empty() {
        key.to_owned()
    } else {
        let mut s = path.to_owned();
        s.append(".");
        s.append(key);
        s
    }
}

} // verus!
