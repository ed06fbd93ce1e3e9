//! Locating the middle of a sorted dataset.
use vstd::prelude::*;

verus! {

/// The middle of a non-empty dataset: one element when its length is odd,
/// the two central elements (lower, upper) when it is even.
#[derive(Debug, Clone, Copy, PartialEq, Eq)]
pub enum Middle<T> {
    One(T),
    Two(T, T),
}

/// The element at the centre of an odd-length sequence, or the one just
/// below the centre of an even-length sequence.
pub open spec fn lower_middle_index(n: nat) -> int {
    if n % 2 == 1 {
        (n - 1) / 2
    } else {
        n / 2 - 1
    }
}

/// The element at the centre of an odd-length sequence, or the one just
/// above the centre of an even-length sequence.
pub open spec fn upper_middle_index(n: nat) -> int {
    if n % 2 == 1 {
        (n - 1) / 2
    } else {
        (n / 2) as int
    }
}

/// What the middle of `s` is, as a `Middle` value.
pub open spec fn middle_of<T>(s: Seq<T>) -> Middle<T> {
    if s.len() % 2 == 1 {
        Middle::One(s[lower_middle_index(s.len())])
    } else {
        Middle::Two(s[lower_middle_index(s.len())], s[upper_middle_index(s.len())])
    }
}

/// Picks the central element (odd length) or the two central elements
/// (even length) of `data`, which the caller has already sorted.
pub fn middle_from_sorted<T: Copy>(data: &Vec<T>) -> (r: Middle<T>)
    requires
        data@.len() > 0,
    ensures
        r == middle_of(data@),
{
    let n = data.len();
    if n % 2 == 1 {
        Middle::One(data[(n - 1) / 2])
    } else {
        let upper_index = n / 2;
        let lower_index = upper_index - 1;
        Middle::Two(data[lower_index], data[upper_index])
    }
}

} // verus!
