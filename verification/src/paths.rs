//! Names of the files that a world is saved to.

use vstd::prelude::*;
use vstd::string::StrSliceExecFns;
use vstd::string::StringExecFns;

verus! {

/// Whether `name` ends with `ending`.
pub open spec fn ends_with(name: Seq<char>, ending: Seq<char>) -> bool {
    name.len() >= ending.len() && name.subrange(name.len() - ending.len(), name.len() as int)
        == ending
}

/// `name` with `ending` behind it, unless it ends with it already.
pub open spec fn spec_with_ending(name: Seq<char>, ending: Seq<char>) -> Seq<char> {
    if ends_with(name, ending) {
        name
    } else {
        name + ending
    }
}

/// Whether a file name has an ending.
pub fn has_ending(name: &str, ending: &str) -> (r: bool)
    ensures
        r == ends_with(name@, ending@),
{
    let n = name.unicode_len();
    let m = ending.unicode_len();
    if n < m {
        return false;
    }
    let mut i: usize = 0;
    while i < m
        invariant
            0 <= i <= m,
            m <= n,
            n == name@.len(),
            m == ending@.len(),
            forall|k: int| 0 <= k < i ==> name@[n - m + k] == ending@[k],
        decreases m - i,
    {
        if name.get_char(n - m + i) != ending.get_char(i) {
            assert(name@.subrange(n - m, n as int)[i as int] != ending@[i as int]);
            return false;
        }
        i = i + 1;
    }
    assert(name@.subrange(n - m, n as int) =~= ending@);
    true
}

/// A file name with an ending: the ending is added where it is missing.
pub fn with_ending(name: &str, ending: &str) -> (r: String)
    ensures
        r@ == spec_with_ending(name@, ending@),
{
    let mut r = name.to_owned();
    if !has_ending(name, ending) {
        r.append(ending);
    }
    r
}

/// The name of the file that holds a snapshot.
pub fn snapshot_path(path: &str) -> (r: String)
    ensures
        r@ == spec_with_ending(path@, ".slc"@),
{
    with_ending(path, ".slc")
}

/// The name of the file that holds a picture.
pub fn picture_path(path: &str) -> (r: String)
    ensures
        r@ == spec_with_ending(path@, ".png"@),
{
    with_ending(path, ".png")
}

} // verus!
