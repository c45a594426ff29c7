//! Filling a vector that is only borrowed: the original stays untouched.

use vstd::prelude::*;

verus! {

/// Returns a copy of the borrowed vector with the value 88 appended; the
/// vector itself is left as it was.
pub fn fill_vec(vec: &Vec<i32>) -> (r: Vec<i32>)
    ensures
        r@ == vec@.push(88i32),
{
    let mut filled = vec.clone();
    proof {
        assert(filled@ =~= vec@);
    }
    filled.push(88);
    filled
}

} // verus!
