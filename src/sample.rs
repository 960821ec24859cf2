use vstd::prelude::*;

verus! {

/// Returns the fixed value 42.
pub fn example_with_warnings() -> (r: i32)
    ensures
        r == 42,
{
    let x: i32 = 42;
    x
}

} // verus!
