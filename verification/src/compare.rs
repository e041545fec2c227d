//! Comparison of two strings by their natural-sort keys.
use vstd::prelude::*;
use std::cmp::Ordering;
use crate::api::{natsort_key_of, parts_of};
use crate::ns::Ns;
use crate::order::{compare_keys, key_order};
use crate::unicode::UnicodeTables;

verus! {

/// The `Ordering` that a three-way comparison result stands for.
pub open spec fn ordering_of(o: int) -> Ordering {
    if o < 0 {
        Ordering::Less
    } else if o == 0 {
        Ordering::Equal
    } else {
        Ordering::Greater
    }
}

/// The order of `a` and `b` by their natural-sort keys under `alg`.
pub open spec fn nat_order(a: Seq<char>, b: Seq<char>, alg: Ns) -> int {
    key_order(natsort_key_of(a, alg), natsort_key_of(b, alg))
}

/// Compares two strings by their natural-sort keys under `alg`.
pub fn natcmp(a: &str, b: &str, alg: Ns) -> (r: Ordering)
    ensures
        r == ordering_of(nat_order(a@, b@, alg)),
{
    let t = UnicodeTables::new();
    let ka = parts_of(&t, a, alg);
    let kb = parts_of(&t, b, alg);
    let o = compare_keys(&ka, &kb);
    if o < 0 {
        Ordering::Less
    } else if o == 0 {
        Ordering::Equal
    } else {
        Ordering::Greater
    }
}

/// The comparison of `a` and `b` written as the command line prints it:
/// `-1`, `0` or `1`.
pub fn compare_to_str(a: &str, b: &str, alg: Ns) -> (r: String)
    ensures
        r@ == (if nat_order(a@, b@, alg) < 0 {
            "-1"@
        } else if nat_order(a@, b@, alg) == 0 {
            "0"@
        } else {
            "1"@
        }),
{
    match natcmp(a, b, alg) {
        Ordering::Less => "-1".to_owned(),
        Ordering::Equal => "0".to_owned(),
        Ordering::Greater => "1".to_owned(),
    }
}

} // verus!
