//! Locating the smallest and the largest element of a dataset.
use vstd::prelude::*;
use core::cmp::Ordering;
use vstd::std_specs::cmp::PartialOrdSpec;

verus! {

/// `a < b`, as the type's specified comparison has it.
pub open spec fn less<T: PartialOrd>(a: T, b: T) -> bool {
    a.partial_cmp_spec(&b) == Some(Ordering::Less)
}

/// `<` is a strict order on the elements of `s`: no element is below itself,
/// and it is transitive.
pub open spec fn strict_order_on<T: PartialOrd>(s: Seq<T>) -> bool {
    &&& forall|i: int| 0 <= i < s.len() ==> !less(#[trigger] s[i], s[i])
    &&& forall|i: int, j: int, k: int|
        0 <= i < s.len() && 0 <= j < s.len() && 0 <= k < s.len() && #[trigger] less(s[i], s[j])
            && #[trigger] less(s[j], s[k]) ==> less(s[i], s[k])
}

/// Scans `data` once, keeping the smallest and the largest element seen so
/// far, and replacing either only on a strict comparison (so an element
/// that compares with nothing, such as NaN, never displaces the first).
/// Returns the positions `(smallest, largest)`.
pub fn extremes<T: PartialOrd>(data: &Vec<T>) -> (r: (usize, usize))
    requires
        data@.len() > 0,
    ensures
        r.0 < data@.len(),
        r.1 < data@.len(),
        T::obeys_partial_cmp_spec() && strict_order_on(data@) ==> {
            &&& forall|j: int| 0 <= j < data@.len() ==> !less(#[trigger] data@[j], data@[r.0 as int])
            &&& forall|j: int| 0 <= j < data@.len() ==> !less(data@[r.1 as int], #[trigger] data@[j])
        },
{
    let ghost s = data@;
    let mut smallest: usize = 0;
    let mut largest: usize = 0;
    let mut i: usize = 0;
    while i < data.len()
        invariant
            s == data@,
            i <= s.len(),
            smallest < s.len(),
            largest < s.len(),
            T::obeys_partial_cmp_spec() && strict_order_on(s) ==> {
                &&& forall|j: int| 0 <= j < i ==> !less(#[trigger] s[j], s[smallest as int])
                &&& forall|j: int| 0 <= j < i ==> !less(s[largest as int], #[trigger] s[j])
            },
        decreases s.len() - i,
    {
        let previous_largest = largest;
        let previous_smallest = smallest;
        let grows = data[largest] < data[i];
        if grows {
            largest = i;
        }
        let shrinks = data[i] < data[smallest];
        if shrinks {
            smallest = i;
        }
        proof {
            if T::obeys_partial_cmp_spec() && strict_order_on(s) {
                let (l, m) = (previous_largest as int, previous_smallest as int);
                assert(grows == less(s[l], s[i as int]));
                assert(shrinks == less(s[i as int], s[m]));
                assert forall|j: int| 0 <= j <= i implies !less(#[trigger] s[j], s[smallest as int]) by {
                    if shrinks && j < i && less(s[j], s[i as int]) {
                        assert(less(s[j], s[m]));
                    }
                }
                assert forall|j: int| 0 <= j <= i implies !less(s[largest as int], #[trigger] s[j]) by {
                    if grows && j < i && less(s[i as int], s[j]) {
                        assert(less(s[l], s[j]));
                    }
                }
            }
        }
        i = i + 1;
    }
    (smallest, largest)
}

} // verus!
