//! Which cache names stand for a single file inside the base directory.

use vstd::prelude::*;

verus! {

/// A character that no cache name may hold: a path separator of either
/// kind, or the character that ends a path.
pub open spec fn is_forbidden(c: char) -> bool {
    c == '/' || c == '\\' || c == '\0'
}

/// A name is valid when it is a single path segment that names a file of
/// its own: not empty, neither `.` nor `..`, and free of forbidden
/// characters.
pub open spec fn valid_name(name: Seq<char>) -> bool {
    &&& name.len() > 0
    &&& name != seq!['.']
    &&& name != seq!['.', '.']
    &&& forall|i: int| 0 <= i < name.len() ==> !is_forbidden(#[trigger] name[i])
}

/// Says whether `name` is a valid cache name.
pub fn is_valid_name(name: &str) -> (valid: bool)
    ensures
        valid == valid_name(name@),
{
    let mut count: usize = 0;
    let mut only_dots = true;
    let mut clean = true;
    for c in it: name.chars()
        invariant
            it.seq() == name@,
            count == if it.index() < 3 { it.index() } else { 3 },
            only_dots == (forall|i: int| 0 <= i < it.index() ==> name@[i] == '.'),
            clean == (forall|i: int| 0 <= i < it.index() ==> !is_forbidden(#[trigger] name@[i])),
    {
        if count < 3 {
            count = count + 1;
        }
        if c != '.' {
            only_dots = false;
        }
        if c == '/' || c == '\\' || c == '\0' {
            clean = false;
        }
    }
    let dots = only_dots && count <= 2;
    proof {
        if name@.len() == 1 {
            assert(only_dots == (name@ =~= seq!['.']));
        }
        if name@.len() == 2 {
            assert(only_dots == (name@ =~= seq!['.', '.']));
        }
    }
    count > 0 && clean && !dots
}

} // verus!
