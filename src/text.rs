use vstd::prelude::*;

verus! {

/// Whether `a` holds exactly the characters of `b`.
pub fn same_text(a: &str, b: &str) -> (r: bool)
    ensures
        r == (a@ == b@),
{
    a.to_owned() == b.to_owned()
}

} // verus!
