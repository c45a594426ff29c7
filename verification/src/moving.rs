//! Filling a vector that is handed over by value.

use vstd::prelude::*;

verus! {

/// Appends the value 88 to the vector it is given and returns it.
pub fn fill_vec(vec: Vec<i32>) -> (r: Vec<i32>)
    ensures
        r@ == vec@.push(88i32),
{
    let mut filled = vec;
    filled.push(88);
    filled
}

} // verus!
