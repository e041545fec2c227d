//! Properties of the library as a whole: the comparison is a total preorder,
//! keys alternate text and numbers, and sorting is a stable, unique and
//! idempotent rearrangement.
use vstd::prelude::*;
use vstd::set_lib::{lemma_int_range, lemma_subset_equality, set_int_range};
use crate::api::{
    arranged, ignorecase_ns, is_natsorted_desc, is_human_sorted, is_natsorted, human_sort_key, human_sort_keys, nat_sort_key,
    nat_sort_keys, natsort_key_of, sorted_by_keys,
};
use crate::compare::nat_order;
use crate::key::{PartV, key_of, scan};
use crate::ns::{Ns, default_ns};
use crate::order::{key_order, lemma_key_order, lemma_text_order, text_order, part_order};
use crate::sort::{SortKeyV, before, before_dir, is_stable_sort, is_stable_sort_dir, lemma_before, lemma_sort_key_order, sort_key_order};
use crate::text::{
    all_ascii, fold_all, fold_of, group_all, normalized, swap_case, transform, transform_char,
};
use crate::unicode::fold_entry;
use crate::unicode_data::casefold_specials;

verus! {

/// Comparing `a` with `b` gives the opposite of comparing `b` with `a`.
pub proof fn law_natcmp_antisymmetric(a: Seq<char>, b: Seq<char>, alg: Ns)
    ensures
        nat_order(a, b, alg) == -nat_order(b, a, alg),
{
    lemma_key_order(natsort_key_of(a, alg), natsort_key_of(b, alg), natsort_key_of(a, alg));
}

/// Every string compares equal to itself.
pub proof fn law_natcmp_reflexive(a: Seq<char>, alg: Ns)
    ensures
        nat_order(a, a, alg) == 0,
{
    lemma_key_order(natsort_key_of(a, alg), natsort_key_of(a, alg), natsort_key_of(a, alg));
}

/// If `a` is not after `b` and `b` is not after `c`, then `a` is not after `c`
/// (and it is before `c` if either step is strict).
pub proof fn law_natcmp_transitive(a: Seq<char>, b: Seq<char>, c: Seq<char>, alg: Ns)
    ensures
        nat_order(a, b, alg) <= 0 && nat_order(b, c, alg) <= 0 ==> nat_order(a, c, alg) <= 0,
        nat_order(a, b, alg) < 0 && nat_order(b, c, alg) <= 0 ==> nat_order(a, c, alg) < 0,
        nat_order(a, b, alg) <= 0 && nat_order(b, c, alg) < 0 ==> nat_order(a, c, alg) < 0,
{
    lemma_key_order(natsort_key_of(a, alg), natsort_key_of(b, alg), natsort_key_of(c, alg));
}

/// A key alternates text and numbers: text at even positions, numbers at odd
/// positions.
pub open spec fn alternates(k: Seq<PartV>) -> bool {
    forall|j: int| 0 <= j < k.len() ==> ((j % 2 == 0) <==> (#[trigger] k[j] is Text))
}

/// Every number of a key is a real when `float`, an integer otherwise.
pub open spec fn numbers_typed(k: Seq<PartV>, float: bool) -> bool {
    forall|j: int| 0 <= j < k.len() && !(#[trigger] k[j] is Text) ==> (if float { k[j] is Real } else { k[j] is Int })
}

/// A key of odd length that holds a number (or, when `emitted`, any key of
/// odd length) ends in a non-empty text.
pub open spec fn ends_in_text(k: Seq<PartV>, emitted: bool) -> bool {
    k.len() % 2 == 1 && (emitted || k.len() >= 3) ==> (k.last() is Text && k.last()->Text_0.len() > 0)
}

proof fn lemma_fold_entry_nonempty(table: Seq<(u32, u8, char, char, char)>, cp: u32)
    ensures
        fold_entry(table, cp) matches Some(f) ==> f.len() >= 1,
    decreases table.len(),
{
    if table.len() > 0 && table[0].0 != cp {
        lemma_fold_entry_nonempty(table.drop_first(), cp);
    }
}

proof fn lemma_transform_nonempty(s: Seq<char>, alg: Ns)
    requires
        s.len() > 0,
    ensures
        transform(s, alg).len() > 0,
{
    let c = s.last();
    lemma_fold_entry_nonempty(casefold_specials(), c as u32);
    let swapped = if alg.lowercasefirst { swap_case(c) } else { seq![c] };
    assert(swapped.len() >= 1);
    lemma_fold_entry_nonempty(casefold_specials(), swapped.last() as u32);
    assert(fold_of(swapped.last()).len() >= 1);
    assert(fold_all(swapped).len() >= 1);
    let folded = if alg.ignorecase { fold_all(swapped) } else { swapped };
    assert(folded.len() >= 1);
    assert(group_all(folded).len() >= 1);
    assert(transform_char(c, alg).len() >= 1);
}

proof fn lemma_scan_alternates(chars: Seq<char>, i: int, pending: Seq<char>, emitted: bool, alg: Ns)
    ensures
        alternates(scan(chars, i, pending, emitted, alg)),
        scan(chars, i, pending, emitted, alg).len() == 0 ==> emitted,
        numbers_typed(scan(chars, i, pending, emitted, alg), alg.spec_numbers_are_float()),
        ends_in_text(scan(chars, i, pending, emitted, alg), emitted),
    decreases chars.len() - i,
{
    let r = scan(chars, i, pending, emitted, alg);
    let f = alg.spec_numbers_are_float();
    if i >= chars.len() || i < 0 {
        if pending.len() > 0 {
            lemma_transform_nonempty(pending, alg);
        }
    } else if f && crate::unicode::numeric_value(chars[i]) is Some {
        lemma_scan_alternates(chars, i + 1, Seq::empty(), true, alg);
        lemma_alternates_prepend(r, scan(chars, i + 1, Seq::empty(), true, alg), f);
    } else if crate::unicode::isolated_value(chars[i]) is Some {
        lemma_scan_alternates(chars, i + 1, Seq::empty(), true, alg);
        lemma_alternates_prepend(r, scan(chars, i + 1, Seq::empty(), true, alg), f);
    } else {
        match crate::key::number_at(chars, i, alg) {
            Some((p, n)) => {
                crate::key::lemma_number_at_len(chars, i, alg);
                lemma_scan_alternates(chars, i + n, Seq::empty(), true, alg);
                lemma_alternates_prepend(r, scan(chars, i + n, Seq::empty(), true, alg), f);
            },
            None => {
                lemma_scan_alternates(chars, i + 1, pending.push(chars[i]), emitted, alg);
            },
        }
    }
}

proof fn lemma_alternates_prepend(r: Seq<PartV>, rest: Seq<PartV>, float: bool)
    requires
        alternates(rest),
        numbers_typed(rest, float),
        ends_in_text(rest, true),
        r.len() == rest.len() + 2,
        r[0] is Text,
        !(r[1] is Text),
        if float { r[1] is Real } else { r[1] is Int },
        forall|j: int| 0 <= j < rest.len() ==> r[j + 2] == rest[j],
    ensures
        alternates(r),
        numbers_typed(r, float),
        ends_in_text(r, true),
{
    assert forall|j: int| 0 <= j < r.len() implies ((j % 2 == 0) <==> (#[trigger] r[j] is Text)) by {
        if j >= 2 {
            assert(r[j] == rest[j - 2]);
            assert((j - 2) % 2 == j % 2);
        }
    }
    assert forall|j: int| 0 <= j < r.len() && !(#[trigger] r[j] is Text) implies (if float { r[j] is Real } else { r[j] is Int }) by {
        if j >= 2 {
            assert(r[j] == rest[j - 2]);
        }
    }
    if rest.len() > 0 {
        assert(r.last() == rest[rest.len() - 1]);
    }
}

/// Every key starts with a (possibly empty) text element and then alternates
/// numbers and texts; its numbers are reals exactly when the algorithm reads
/// reals and integers otherwise; and a key that holds a number and has odd
/// length ends in a non-empty text.
pub proof fn law_key_alternates(s: Seq<char>, alg: Ns)
    ensures
        natsort_key_of(s, alg).len() >= 1,
        natsort_key_of(s, alg)[0] is Text,
        alternates(natsort_key_of(s, alg)),
        numbers_typed(natsort_key_of(s, alg), alg.real || alg.float),
        natsort_key_of(s, alg).len() >= 3 && natsort_key_of(s, alg).len() % 2 == 1 ==> (
            natsort_key_of(s, alg).last() is Text && natsort_key_of(s, alg).last()->Text_0.len() > 0),
{
    lemma_scan_alternates(normalized(s), 0, Seq::empty(), false, alg);
}

/// The key of an empty text comes first among all keys.
pub proof fn law_empty_key_first(chars: Seq<char>, alg: Ns)
    ensures
        key_order(key_of(Seq::empty(), alg), key_of(chars, alg)) <= 0,
{
    let e = key_of(Seq::empty(), alg);
    let k = key_of(chars, alg);
    assert(transform(Seq::<char>::empty(), alg) =~= Seq::<char>::empty());
    assert(e == seq![PartV::Text(Seq::empty())]);
    lemma_scan_alternates(chars, 0, Seq::empty(), false, alg);
    let t = k[0]->Text_0;
    assert(k[0] == PartV::Text(t));
    lemma_text_order(Seq::empty(), t, t);
    assert(part_order(e[0], k[0]) == text_order(Seq::empty(), t));
    assert(text_order(Seq::<char>::empty(), t) <= 0);
    let e1 = e.drop_first();
    let k1 = k.drop_first();
    assert(e1.len() == 0);
    assert(key_order(e1, k1) <= 0);
    assert(key_order(e, k) == (if part_order(e[0], k[0]) != 0 { part_order(e[0], k[0]) } else { key_order(e1, k1) }));
}

/// The empty string comes first: it is never after any string.
pub proof fn law_empty_string_first(s: Seq<char>, alg: Ns)
    ensures
        nat_order(Seq::empty(), s, alg) <= 0,
{
    assert(all_ascii(Seq::<char>::empty()));
    law_empty_key_first(normalized(s), alg);
}

// ---------------------------------------------------------------------------
// Sorting.

proof fn lemma_sorted_no_duplicates(keys: Seq<SortKeyV>, p: Seq<usize>)
    requires
        is_stable_sort(keys, p),
    ensures
        p.no_duplicates(),
{
    assert forall|a: int, b: int| 0 <= a < p.len() && 0 <= b < p.len() && a != b implies p[a] != p[b] by {
        if a < b {
            assert(before(keys, p[a] as int, p[b] as int));
        } else {
            assert(before(keys, p[b] as int, p[a] as int));
        }
        lemma_before(keys, p[a] as int, p[a] as int, p[a] as int);
    }
}

/// A list of `n` distinct indices below `n` holds every index below `n`.
proof fn lemma_distinct_indices_cover(p: Seq<usize>, n: int)
    requires
        p.no_duplicates(),
        p.len() == n,
        forall|k: int| 0 <= k < p.len() ==> #[trigger] p[k] < n,
    ensures
        n <= usize::MAX + 1,
        forall|i: int| 0 <= i < n ==> #[trigger] p.contains(i as usize),
{
    broadcast use vstd::seq_lib::seq_to_set_is_finite;

    let pi = p.map_values(|x: usize| x as int);
    assert(pi.no_duplicates()) by {
        assert forall|a: int, b: int| 0 <= a < pi.len() && 0 <= b < pi.len() && a != b implies pi[a] != pi[b] by {
            assert(p[a] != p[b]);
        }
    }
    pi.unique_seq_to_set();
    lemma_int_range(0, n);
    assert(pi.to_set().subset_of(set_int_range(0, n))) by {
        assert forall|x: int| pi.to_set().contains(x) implies set_int_range(0, n).contains(x) by {
            let k = choose|k: int| 0 <= k < pi.len() && pi[k] == x;
            assert(p[k] < n);
        }
    }
    lemma_subset_equality(pi.to_set(), set_int_range(0, n));
    if n > 0 {
        assert(set_int_range(0, n).contains(n - 1));
        let k = choose|k: int| 0 <= k < pi.len() && pi[k] == n - 1;
        assert(pi[k] == p[k] as int);
    }
    assert forall|i: int| 0 <= i < n implies #[trigger] p.contains(i as usize) by {
        assert(set_int_range(0, n).contains(i));
        assert(pi.to_set().contains(i));
        let k = choose|k: int| 0 <= k < pi.len() && pi[k] == i;
        assert(p[k] == i as usize);
    }
}

/// A stable sort lists every index exactly once.
pub proof fn law_stable_sort_is_permutation(keys: Seq<SortKeyV>, p: Seq<usize>)
    requires
        is_stable_sort(keys, p),
    ensures
        p.no_duplicates(),
        forall|i: int| 0 <= i < keys.len() ==> #[trigger] p.contains(i as usize),
{
    lemma_sorted_no_duplicates(keys, p);
    lemma_distinct_indices_cover(p, keys.len() as int);
}

/// Rearranging a list by a list of distinct indices, one per item, keeps its
/// items with their multiplicities.
proof fn lemma_arranged_multiset(items: Seq<String>, p: Seq<usize>, r: Seq<String>)
    requires
        p.no_duplicates(),
        p.len() == items.len(),
        forall|k: int| 0 <= k < p.len() ==> #[trigger] p[k] < items.len(),
        arranged(items, p, r),
    ensures
        r.to_multiset() =~= items.to_multiset(),
    decreases items.len(),
{
    broadcast use vstd::seq_lib::group_to_multiset_ensures;

    let n = items.len() as int;
    if n == 0 {
        assert(r =~= Seq::<String>::empty());
        assert(items =~= Seq::<String>::empty());
    } else {
        lemma_distinct_indices_cover(p, n);
        assert(p.contains((n - 1) as usize));
        let k = choose|k: int| 0 <= k < p.len() && p[k] == (n - 1) as usize;
        let p2 = p.remove(k);
        let r2 = r.remove(k);
        let items2 = items.drop_last();
        assert(p2.no_duplicates()) by {
            assert forall|a: int, b: int| 0 <= a < p2.len() && 0 <= b < p2.len() && a != b implies p2[a] != p2[b] by {
                let a1 = if a < k { a } else { a + 1 };
                let b1 = if b < k { b } else { b + 1 };
                assert(p2[a] == p[a1] && p2[b] == p[b1]);
            }
        }
        assert forall|j: int| 0 <= j < p2.len() implies #[trigger] p2[j] < items2.len() by {
            let j1 = if j < k { j } else { j + 1 };
            assert(p2[j] == p[j1]);
            assert(j1 != k);
            assert(p[j1] != p[k]);
        }
        assert(arranged(items2, p2, r2)) by {
            assert forall|j: int| 0 <= j < p2.len() implies #[trigger] r2[j] == items2[p2[j] as int] by {
                let j1 = if j < k { j } else { j + 1 };
                assert(p2[j] == p[j1]);
                assert(r2[j] == r[j1]);
                assert(r[j1] == items[p[j1] as int]);
            }
        }
        lemma_arranged_multiset(items2, p2, r2);
        assert(r[k] == items[n - 1]);
        assert(r.contains(r[k]));
        assert(r2.to_multiset() =~= r.to_multiset().remove(r[k]));
        assert(r.to_multiset().count(r[k]) > 0);
        assert(r.to_multiset() =~= r2.to_multiset().insert(r[k]));
        assert(items2.push(items[n - 1]) =~= items);
        assert(items.to_multiset() =~= items2.to_multiset().insert(items[n - 1]));
    }
}

/// A sort by keys keeps the items with their multiplicities.
proof fn lemma_sorted_is_permutation(items: Seq<String>, keys: Seq<SortKeyV>, r: Seq<String>)
    requires
        sorted_by_keys(items, keys, r),
        keys.len() == items.len(),
    ensures
        r.to_multiset() =~= items.to_multiset(),
{
    let p = choose|p: Seq<usize>| is_stable_sort(keys, p) && arranged(items, p, r);
    lemma_sorted_no_duplicates(keys, p);
    lemma_arranged_multiset(items, p, r);
}

/// A natural sort keeps the items: the result holds each item exactly as
/// many times as the input.
pub proof fn law_natsorted_is_permutation(items: Seq<String>, alg: Ns, r: Seq<String>)
    requires
        is_natsorted(items, alg, r),
    ensures
        r.len() == items.len(),
        r.to_multiset() =~= items.to_multiset(),
{
    lemma_sorted_is_permutation(items, nat_sort_keys(items, alg), r);
    let p = choose|p: Seq<usize>| is_stable_sort(nat_sort_keys(items, alg), p) && arranged(items, p, r);
}

/// A case-insensitive sort keeps the items: the result holds each item
/// exactly as many times as the input.
pub proof fn law_human_sorted_is_permutation(items: Seq<String>, presort: bool, r: Seq<String>)
    requires
        is_human_sorted(items, presort, r),
    ensures
        r.len() == items.len(),
        r.to_multiset() =~= items.to_multiset(),
{
    lemma_sorted_is_permutation(items, human_sort_keys(items, presort), r);
    let p = choose|p: Seq<usize>| is_stable_sort(human_sort_keys(items, presort), p) && arranged(items, p, r);
}

proof fn lemma_unique_upto(keys: Seq<SortKeyV>, p: Seq<usize>, q: Seq<usize>, k: int)
    requires
        is_stable_sort(keys, p),
        is_stable_sort(keys, q),
        p.no_duplicates(),
        q.no_duplicates(),
        forall|i: int| 0 <= i < keys.len() ==> #[trigger] p.contains(i as usize),
        forall|i: int| 0 <= i < keys.len() ==> #[trigger] q.contains(i as usize),
        0 <= k < p.len(),
    ensures
        forall|m: int| 0 <= m <= k ==> p[m] == q[m],
    decreases k,
{
    if k > 0 {
        lemma_unique_upto(keys, p, q, k - 1);
    }
    let x = p[k];
    let y = q[k];
    if x != y {
        assert(q.contains(x as usize)) by {
            assert(p[k] < keys.len());
        }
        let m = choose|m: int| 0 <= m < q.len() && q[m] == x;
        assert(p.contains(y as usize)) by {
            assert(q[k] < keys.len());
        }
        let m2 = choose|m2: int| 0 <= m2 < p.len() && p[m2] == y;
        if m < k {
            assert(p[m] == q[m]);
        }
        if m2 < k {
            assert(p[m2] == q[m2]);
        }
        assert(m > k);
        assert(m2 > k);
        assert(before(keys, q[k] as int, q[m] as int));
        assert(before(keys, p[k] as int, p[m2] as int));
        lemma_before(keys, x as int, y as int, x as int);
    }
}

/// There is only one stable sort of a list of keys.
pub proof fn law_stable_sort_unique(keys: Seq<SortKeyV>, p: Seq<usize>, q: Seq<usize>)
    requires
        is_stable_sort(keys, p),
        is_stable_sort(keys, q),
    ensures
        p == q,
{
    law_stable_sort_is_permutation(keys, p);
    law_stable_sort_is_permutation(keys, q);
    if p.len() > 0 {
        lemma_unique_upto(keys, p, q, p.len() - 1);
    }
    assert(p =~= q);
}

/// The keys of the items, each computed from the item alone by `kf`.
pub open spec fn item_keys(items: Seq<String>, kf: spec_fn(Seq<char>) -> SortKeyV) -> Seq<SortKeyV> {
    items.map_values(|s: String| kf(s@))
}

/// The positions `0..n` in order.
pub open spec fn identity(n: nat) -> Seq<usize> {
    Seq::new(n, |i: int| i as usize)
}

/// A list sorted by keys, read back through a stable-sort index list, is the
/// list sorted by keys.
proof fn lemma_index_then_order(items: Seq<String>, keys: Seq<SortKeyV>, idx: Seq<usize>, r: Seq<String>)
    requires
        is_stable_sort(keys, idx),
        sorted_by_keys(items, keys, r),
    ensures
        arranged(items, idx, r),
{
    let p = choose|p: Seq<usize>| is_stable_sort(keys, p) && arranged(items, p, r);
    law_stable_sort_unique(keys, p, idx);
}

/// The items of a sorted list are in key order.
proof fn lemma_sorted_in_order(items: Seq<String>, kf: spec_fn(Seq<char>) -> SortKeyV, r: Seq<String>)
    requires
        sorted_by_keys(items, item_keys(items, kf), r),
    ensures
        forall|a: int, b: int| 0 <= a < b < r.len() ==> sort_key_order(kf(#[trigger] r[a]@), kf(#[trigger] r[b]@)) <= 0,
{
    let keys = item_keys(items, kf);
    let p = choose|p: Seq<usize>| is_stable_sort(keys, p) && arranged(items, p, r);
    assert forall|a: int, b: int| 0 <= a < b < r.len() implies sort_key_order(kf(#[trigger] r[a]@), kf(#[trigger] r[b]@)) <= 0 by {
        assert(before(keys, p[a] as int, p[b] as int));
        assert(p[a] < keys.len() && p[b] < keys.len());
        assert(r[a] == items[p[a] as int]);
        assert(r[b] == items[p[b] as int]);
        assert(keys[p[a] as int] == kf(items[p[a] as int]@));
        assert(keys[p[b] as int] == kf(items[p[b] as int]@));
    }
}

/// Sorting a sorted list changes nothing.
proof fn lemma_sorted_idempotent(items: Seq<String>, kf: spec_fn(Seq<char>) -> SortKeyV, r: Seq<String>, r2: Seq<String>)
    requires
        sorted_by_keys(items, item_keys(items, kf), r),
        sorted_by_keys(r, item_keys(r, kf), r2),
        r.len() <= usize::MAX,
    ensures
        r2 == r,
{
    lemma_sorted_in_order(items, kf, r);
    let kr = item_keys(r, kf);
    let id = identity(r.len());
    assert(is_stable_sort(kr, id)) by {
        assert forall|a: int, b: int| 0 <= a < b < id.len() implies before(kr, #[trigger] id[a] as int, #[trigger] id[b] as int) by {
            assert(id[a] as int == a && id[b] as int == b);
            assert(kr[a] == kf(r[a]@));
            assert(kr[b] == kf(r[b]@));
        }
    }
    lemma_index_then_order(r, kr, id, r2);
    assert forall|k: int| 0 <= k < r.len() implies r2[k] == r[k] by {
        assert(id[k] as int == k);
    }
    assert(r2 =~= r);
}

/// Sorting naturally is idempotent: sorting the result again changes nothing.
pub proof fn law_natsorted_idempotent(items: Seq<String>, alg: Ns, r: Seq<String>, r2: Seq<String>)
    requires
        is_natsorted(items, alg, r),
        is_natsorted(r, alg, r2),
        items.len() <= usize::MAX,
    ensures
        r2 == r,
{
    let kf = |s: Seq<char>| nat_sort_key(s, alg);
    assert(nat_sort_keys(items, alg) =~= item_keys(items, kf));
    assert(nat_sort_keys(r, alg) =~= item_keys(r, kf));
    lemma_sorted_idempotent(items, kf, r, r2);
}

/// The result of a natural sort is in natural order.
pub proof fn law_natsorted_in_order(items: Seq<String>, alg: Ns, r: Seq<String>)
    requires
        is_natsorted(items, alg, r),
    ensures
        forall|a: int, b: int| 0 <= a < b < r.len() ==> nat_order(#[trigger] r[a]@, #[trigger] r[b]@, alg) <= 0,
{
    let kf = |s: Seq<char>| nat_sort_key(s, alg);
    assert(nat_sort_keys(items, alg) =~= item_keys(items, kf));
    lemma_sorted_in_order(items, kf, r);
    assert forall|a: int, b: int| 0 <= a < b < r.len() implies nat_order(#[trigger] r[a]@, #[trigger] r[b]@, alg) <= 0 by {
        assert(sort_key_order(kf(r[a]@), kf(r[b]@)) <= 0);
    }
}

/// The result of a descending natural sort is in descending natural order.
pub proof fn law_natsorted_desc_in_order(items: Seq<String>, alg: Ns, r: Seq<String>)
    requires
        is_natsorted_desc(items, alg, r),
    ensures
        r.len() == items.len(),
        forall|a: int, b: int| 0 <= a < b < r.len() ==> nat_order(#[trigger] r[a]@, #[trigger] r[b]@, alg) >= 0,
{
    let keys = nat_sort_keys(items, alg);
    let p = choose|p: Seq<usize>| is_stable_sort_dir(keys, p, true) && arranged(items, p, r);
    assert forall|a: int, b: int| 0 <= a < b < r.len() implies nat_order(#[trigger] r[a]@, #[trigger] r[b]@, alg) >= 0 by {
        assert(before_dir(keys, p[a] as int, p[b] as int, true));
        assert(p[a] < keys.len() && p[b] < keys.len());
        assert(keys[p[a] as int] == nat_sort_key(items[p[a] as int]@, alg));
        assert(keys[p[b] as int] == nat_sort_key(items[p[b] as int]@, alg));
        lemma_key_order(Seq::<PartV>::empty(), Seq::<PartV>::empty(), Seq::<PartV>::empty());
    }
}

/// Under `presort`, items whose natural keys tie come out in string order.
pub proof fn law_presort_ties_in_string_order(items: Seq<String>, alg: Ns, r: Seq<String>)
    requires
        alg.presort,
        is_natsorted(items, alg, r),
    ensures
        forall|a: int, b: int|
            0 <= a < b < r.len() && nat_order(#[trigger] r[a]@, #[trigger] r[b]@, alg) == 0
                ==> text_order(r[a]@, r[b]@) <= 0,
{
    let kf = |s: Seq<char>| nat_sort_key(s, alg);
    assert(nat_sort_keys(items, alg) =~= item_keys(items, kf));
    lemma_sorted_in_order(items, kf, r);
    assert forall|a: int, b: int|
        0 <= a < b < r.len() && nat_order(#[trigger] r[a]@, #[trigger] r[b]@, alg) == 0
            implies text_order(r[a]@, r[b]@) <= 0 by {
        assert(sort_key_order(kf(r[a]@), kf(r[b]@)) <= 0);
        lemma_key_order(Seq::<PartV>::empty(), Seq::<PartV>::empty(), Seq::<PartV>::empty());
    }
}

/// The result of a case-insensitive sort is in case-insensitive natural
/// order, and items whose folded keys tie are in plain natural order.
pub proof fn law_human_sorted_in_order(items: Seq<String>, presort: bool, r: Seq<String>)
    requires
        is_human_sorted(items, presort, r),
    ensures
        forall|a: int, b: int|
            0 <= a < b < r.len() ==> nat_order(#[trigger] r[a]@, #[trigger] r[b]@, ignorecase_ns()) <= 0,
        forall|a: int, b: int|
            0 <= a < b < r.len() && nat_order(#[trigger] r[a]@, #[trigger] r[b]@, ignorecase_ns()) == 0
                ==> nat_order(r[a]@, r[b]@, default_ns()) <= 0,
{
    let kf = |s: Seq<char>| human_sort_key(s, presort);
    assert(human_sort_keys(items, presort) =~= item_keys(items, kf));
    lemma_sorted_in_order(items, kf, r);
    assert forall|a: int, b: int| 0 <= a < b < r.len() implies nat_order(#[trigger] r[a]@, #[trigger] r[b]@, ignorecase_ns()) <= 0 by {
        assert(sort_key_order(kf(r[a]@), kf(r[b]@)) <= 0);
    }
    assert forall|a: int, b: int|
        0 <= a < b < r.len() && nat_order(#[trigger] r[a]@, #[trigger] r[b]@, ignorecase_ns()) == 0
            implies nat_order(r[a]@, r[b]@, default_ns()) <= 0 by {
        assert(sort_key_order(kf(r[a]@), kf(r[b]@)) <= 0);
    }
}

/// Reordering the items by the natural-sort index list gives the natural
/// sort (`order_by_index(items, index_natsorted(items))`).
pub proof fn law_index_natsorted_orders(items: Seq<String>, alg: Ns, idx: Seq<usize>, r: Seq<String>)
    requires
        is_stable_sort(nat_sort_keys(items, alg), idx),
        is_natsorted(items, alg, r),
    ensures
        arranged(items, idx, r),
{
    lemma_index_then_order(items, nat_sort_keys(items, alg), idx, r);
}

/// Case-insensitive sorting is idempotent.
pub proof fn law_human_sorted_idempotent(items: Seq<String>, presort: bool, r: Seq<String>, r2: Seq<String>)
    requires
        is_human_sorted(items, presort, r),
        is_human_sorted(r, presort, r2),
        items.len() <= usize::MAX,
    ensures
        r2 == r,
{
    let kf = |s: Seq<char>| human_sort_key(s, presort);
    assert(human_sort_keys(items, presort) =~= item_keys(items, kf));
    assert(human_sort_keys(r, presort) =~= item_keys(r, kf));
    lemma_sorted_idempotent(items, kf, r, r2);
}

/// Reordering the items by the case-insensitive index list gives the
/// case-insensitive sort.
pub proof fn law_index_human_sorted_orders(items: Seq<String>, presort: bool, idx: Seq<usize>, r: Seq<String>)
    requires
        is_stable_sort(human_sort_keys(items, presort), idx),
        is_human_sorted(items, presort, r),
    ensures
        arranged(items, idx, r),
{
    lemma_index_then_order(items, human_sort_keys(items, presort), idx, r);
}

} // verus!
