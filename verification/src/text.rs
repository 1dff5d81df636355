//! Small verified text utilities shared by the store and the router.

use vstd::prelude::*;

verus! {

/// String equality with its meaning pinned to the character sequences.
pub fn str_eq(a: &str, b: &str) -> (r: bool)
    ensures
        r == (a@ == b@),
{
    let x: String = a.to_owned();
    let y: String = b.to_owned();
    x == y
}

} // verus!
