use vstd::prelude::*;

verus! {

/// The largest element of a vector, or `None` when it is empty. The
/// result, when there is one, is an element of the vector and no element
/// exceeds it.
pub fn max_of(numbers: &Vec<i32>) -> (r: Option<i32>)
    ensures
        (r is None) == (numbers@.len() == 0),
        r matches Some(m) ==> numbers@.contains(m) && forall|i: int|
            0 <= i < numbers@.len() ==> numbers@[i] <= m,
{
    if numbers.len() == 0 {
        return None;
    }
    let mut best: i32 = numbers[0];
    let mut k: usize = 1;
    while k < numbers.len()
        invariant
            1 <= k <= numbers@.len(),
            numbers@.contains(best),
            forall|i: int| 0 <= i < k ==> numbers@[i] <= best,
        decreases numbers@.len() - k,
    {
        if numbers[k] > best {
            best = numbers[k];
        }
        k = k + 1;
    }
    Some(best)
}

} // verus!
