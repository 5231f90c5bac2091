use vstd::prelude::*;

verus! {

/// A plain counter held by value.
#[derive(Debug, PartialEq, Eq, Structural)]
pub struct MyCopyData {
    pub count: u32,
}

/// The sample integers that the heap-data example holds, in order.
pub open spec fn heap_sample() -> Seq<i32> {
    seq![1701i32, 401i32, 8675309i32]
}

/// Builds a freshly allocated vector holding the sample integers
/// `1701, 401, 8675309`, in that order.
pub fn build_heap_data() -> (r: Vec<i32>)
    ensures
        r@ == heap_sample(),
{
    let mut my_data: Vec<i32> = Vec::new();
    my_data.push(1701);
    my_data.push(401);
    my_data.push(8675309);
    proof {
        assert(my_data@ =~= heap_sample());
    }
    my_data
}

/// Builds the sample counter, whose count is 42.
pub fn build_copy_data() -> (r: MyCopyData)
    ensures
        r.count == 42,
{
    MyCopyData { count: 42 }
}

} // verus!
