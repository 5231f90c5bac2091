use vstd::prelude::*;

verus! {

/// Takes ownership of `data` and hands it straight back, unchanged.
pub fn pass_thru(data: Vec<i32>) -> (r: Vec<i32>)
    ensures
        r@ == data@,
{
    data
}

/// Takes ownership of `data` and releases it.
pub fn consume(_data: Vec<i32>) {
}

} // verus!
