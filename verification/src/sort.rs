//! Stable sorting of items by precomputed keys (decorate, sort, undecorate).
use vstd::prelude::*;
use crate::key::{Part, PartV, parts_view};
use crate::order::{
    key_order, text_order, compare_keys, compare_text, lemma_key_order, lemma_text_order,
};

verus! {

/// What an item is sorted by: a primary key, a secondary key that breaks
/// ties of the primary one, and a text that breaks the remaining ties.
pub struct SortKeyV {
    pub primary: Seq<PartV>,
    pub secondary: Seq<PartV>,
    pub text: Seq<char>,
}

/// The executable form of [`SortKeyV`].
pub struct SortKey {
    pub primary: Vec<Part>,
    pub secondary: Vec<Part>,
    pub text: Vec<char>,
}

impl View for SortKey {
    type V = SortKeyV;

    open spec fn view(&self) -> SortKeyV {
        SortKeyV {
            primary: parts_view(self.primary@),
            secondary: parts_view(self.secondary@),
            text: self.text@,
        }
    }
}

pub open spec fn keys_view(ks: Seq<SortKey>) -> Seq<SortKeyV> {
    ks.map_values(|k: SortKey| k@)
}

/// The order of sort keys, ascending or descending: primary key, then
/// secondary key (both reversed when `desc`), then text (never reversed).
pub open spec fn sort_key_order_dir(a: SortKeyV, b: SortKeyV, desc: bool) -> int {
    let o1 = key_order(a.primary, b.primary);
    let o12 = if o1 != 0 { o1 } else { key_order(a.secondary, b.secondary) };
    if o12 != 0 {
        if desc { -o12 } else { o12 }
    } else {
        text_order(a.text, b.text)
    }
}

/// The order of sort keys: primary key, then secondary key, then text.
pub open spec fn sort_key_order(a: SortKeyV, b: SortKeyV) -> int {
    sort_key_order_dir(a, b, false)
}

/// Item `i` comes before item `j` in a stable sort by `keys` in direction
/// `desc`: its key comes first, or the keys tie and it came first.
pub open spec fn before_dir(keys: Seq<SortKeyV>, i: int, j: int, desc: bool) -> bool {
    let o = sort_key_order_dir(keys[i], keys[j], desc);
    o < 0 || (o == 0 && i < j)
}

/// Item `i` comes before item `j` in an ascending stable sort by `keys`.
pub open spec fn before(keys: Seq<SortKeyV>, i: int, j: int) -> bool {
    before_dir(keys, i, j, false)
}

/// Each pair of entries of `p` is in the order `before_dir`.
pub open spec fn sorted_before_dir(keys: Seq<SortKeyV>, p: Seq<usize>, desc: bool) -> bool {
    forall|a: int, b: int| 0 <= a < b < p.len() ==> before_dir(keys, #[trigger] p[a] as int, #[trigger] p[b] as int, desc)
}

/// `p` lists the indices of `keys` in the order of a stable sort in
/// direction `desc`: one entry per item, each an index of an item, sorted by
/// `before_dir` (hence no index twice, and every index once).
pub open spec fn is_stable_sort_dir(keys: Seq<SortKeyV>, p: Seq<usize>, desc: bool) -> bool {
    &&& p.len() == keys.len()
    &&& forall|k: int| 0 <= k < p.len() ==> #[trigger] p[k] < keys.len()
    &&& sorted_before_dir(keys, p, desc)
}

/// `p` lists the indices of `keys` in the order of an ascending stable sort.
pub open spec fn is_stable_sort(keys: Seq<SortKeyV>, p: Seq<usize>) -> bool {
    is_stable_sort_dir(keys, p, false)
}

/// `sort_key_order_dir` is a total preorder in either direction.
pub proof fn lemma_sort_key_order_dir(a: SortKeyV, b: SortKeyV, c: SortKeyV, desc: bool)
    ensures
        sort_key_order_dir(a, b, desc) == -sort_key_order_dir(b, a, desc),
        sort_key_order_dir(a, a, desc) == 0,
        sort_key_order_dir(a, b, desc) <= 0 && sort_key_order_dir(b, c, desc) <= 0 ==> sort_key_order_dir(a, c, desc) <= 0,
        sort_key_order_dir(a, b, desc) < 0 && sort_key_order_dir(b, c, desc) <= 0 ==> sort_key_order_dir(a, c, desc) < 0,
        sort_key_order_dir(a, b, desc) <= 0 && sort_key_order_dir(b, c, desc) < 0 ==> sort_key_order_dir(a, c, desc) < 0,
{
    lemma_key_order(a.primary, b.primary, c.primary);
    lemma_key_order(b.primary, c.primary, a.primary);
    lemma_key_order(a.primary, c.primary, b.primary);
    lemma_key_order(a.secondary, b.secondary, c.secondary);
    lemma_key_order(b.secondary, c.secondary, a.secondary);
    lemma_key_order(a.secondary, c.secondary, b.secondary);
    lemma_text_order(a.text, b.text, c.text);
    lemma_text_order(b.text, c.text, a.text);
    lemma_text_order(a.text, c.text, b.text);
}

/// `before_dir` is a strict total order on the indices.
pub proof fn lemma_before_dir(keys: Seq<SortKeyV>, i: int, j: int, k: int, desc: bool)
    ensures
        !before_dir(keys, i, i, desc),
        i != j ==> (before_dir(keys, i, j, desc) <==> !before_dir(keys, j, i, desc)),
        before_dir(keys, i, j, desc) && before_dir(keys, j, k, desc) ==> before_dir(keys, i, k, desc),
{
    lemma_sort_key_order_dir(keys[i], keys[j], keys[k], desc);
    lemma_sort_key_order_dir(keys[j], keys[k], keys[i], desc);
}

/// `sort_key_order` is a total preorder.
pub proof fn lemma_sort_key_order(a: SortKeyV, b: SortKeyV, c: SortKeyV)
    ensures
        sort_key_order(a, b) == -sort_key_order(b, a),
        sort_key_order(a, a) == 0,
        sort_key_order(a, b) <= 0 && sort_key_order(b, c) <= 0 ==> sort_key_order(a, c) <= 0,
        sort_key_order(a, b) < 0 && sort_key_order(b, c) <= 0 ==> sort_key_order(a, c) < 0,
        sort_key_order(a, b) <= 0 && sort_key_order(b, c) < 0 ==> sort_key_order(a, c) < 0,
{
    lemma_sort_key_order_dir(a, b, c, false);
}

/// `before` is a strict total order on the indices.
pub proof fn lemma_before(keys: Seq<SortKeyV>, i: int, j: int, k: int)
    ensures
        !before(keys, i, i),
        i != j ==> (before(keys, i, j) <==> !before(keys, j, i)),
        before(keys, i, j) && before(keys, j, k) ==> before(keys, i, k),
{
    lemma_before_dir(keys, i, j, k, false);
}

/// Three-way comparison of sort keys in direction `desc`.
pub fn compare_sort_keys(a: &SortKey, b: &SortKey, desc: bool) -> (r: i8)
    ensures
        r == sort_key_order_dir(a@, b@, desc),
{
    let o1 = compare_keys(&a.primary, &b.primary);
    let o12 = if o1 != 0 {
        o1
    } else {
        compare_keys(&a.secondary, &b.secondary)
    };
    if o12 != 0 {
        proof {
            lemma_key_order(a@.primary, b@.primary, a@.primary);
            lemma_key_order(a@.secondary, b@.secondary, a@.secondary);
        }
        return if desc { -o12 } else { o12 };
    }
    compare_text(&a.text, &b.text)
}

/// Merges two index lists sorted by `before` into one.
fn merge(keys: &Vec<SortKey>, left: Vec<usize>, right: Vec<usize>, lo: usize, mid: usize, hi: usize, desc: bool) -> (r: Vec<usize>)
    requires
        lo <= mid <= hi <= keys.len(),
        sorted_before_dir(keys_view(keys@), left@, desc),
        sorted_before_dir(keys_view(keys@), right@, desc),
        forall|k: int| 0 <= k < left.len() ==> lo <= #[trigger] left@[k] < mid,
        forall|k: int| 0 <= k < right.len() ==> mid <= #[trigger] right@[k] < hi,
    ensures
        r.len() == left.len() + right.len(),
        sorted_before_dir(keys_view(keys@), r@, desc),
        forall|k: int| 0 <= k < r.len() ==> lo <= #[trigger] r@[k] < hi,
{
    let ghost kv = keys_view(keys@);
    let mut out: Vec<usize> = Vec::new();
    let mut i: usize = 0;
    let mut j: usize = 0;
    while i < left.len() || j < right.len()
        invariant
            kv == keys_view(keys@),
            lo <= mid <= hi <= keys.len(),
            i <= left.len(),
            j <= right.len(),
            out.len() == i + j,
            sorted_before_dir(kv, left@, desc),
            sorted_before_dir(kv, right@, desc),
            forall|k: int| 0 <= k < left.len() ==> lo <= #[trigger] left@[k] < mid,
            forall|k: int| 0 <= k < right.len() ==> mid <= #[trigger] right@[k] < hi,
            sorted_before_dir(kv, out@, desc),
            forall|k: int| 0 <= k < out.len() ==> lo <= #[trigger] out@[k] < hi,
            forall|a: int, b: int|
                0 <= a < out.len() && i <= b < left.len() ==> before_dir(kv, #[trigger] out@[a] as int, #[trigger] left@[b] as int, desc),
            forall|a: int, b: int|
                0 <= a < out.len() && j <= b < right.len() ==> before_dir(kv, #[trigger] out@[a] as int, #[trigger] right@[b] as int, desc),
        decreases left.len() + right.len() - i - j,
    {
        let take_left = if i < left.len() && j < right.len() {
            let l = left[i];
            let rr = right[j];
            compare_sort_keys(&keys[l], &keys[rr], desc) < 0 || (compare_sort_keys(&keys[l], &keys[rr], desc) == 0 && l < rr)
        } else {
            i < left.len()
        };
        let x = if take_left { left[i] } else { right[j] };
        proof {
            assert(keys@[x as int]@ == kv[x as int]);
            if i < left.len() && j < right.len() {
                assert(keys@[left@[i as int] as int]@ == kv[left@[i as int] as int]);
                assert(keys@[right@[j as int] as int]@ == kv[right@[j as int] as int]);
                lemma_before_dir(kv, left@[i as int] as int, right@[j as int] as int, 0, desc);
            }
            // x comes before every element still waiting in either list.
            assert forall|b: int| (if take_left { i + 1 } else { i as int }) <= b < left.len() implies before_dir(kv, x as int, #[trigger] left@[b] as int, desc) by {
                if !take_left {
                    lemma_before_dir(kv, x as int, left@[i as int] as int, left@[b] as int, desc);
                }
            }
            assert forall|b: int| (if take_left { j as int } else { j + 1 }) <= b < right.len() implies before_dir(kv, x as int, #[trigger] right@[b] as int, desc) by {
                if take_left {
                    lemma_before_dir(kv, x as int, right@[j as int] as int, right@[b] as int, desc);
                }
            }
        }
        let ghost old_out = out@;
        out.push(x);
        if take_left {
            i = i + 1;
        } else {
            j = j + 1;
        }
        proof {
            assert forall|a: int, b: int| 0 <= a < b < out.len() implies before_dir(kv, #[trigger] out@[a] as int, #[trigger] out@[b] as int, desc) by {
                if b < old_out.len() {
                    assert(out@[a] == old_out[a] && out@[b] == old_out[b]);
                } else {
                    assert(out@[a] == old_out[a]);
                    assert(out@[b] == x);
                }
            }
            assert forall|a: int, b: int| 0 <= a < out.len() && i <= b < left.len() implies before_dir(kv, #[trigger] out@[a] as int, #[trigger] left@[b] as int, desc) by {
                if a < old_out.len() {
                    assert(out@[a] == old_out[a]);
                }
            }
            assert forall|a: int, b: int| 0 <= a < out.len() && j <= b < right.len() implies before_dir(kv, #[trigger] out@[a] as int, #[trigger] right@[b] as int, desc) by {
                if a < old_out.len() {
                    assert(out@[a] == old_out[a]);
                }
            }
        }
    }
    out
}

/// The indices `lo..hi` sorted by `before_dir`.
fn sort_range(keys: &Vec<SortKey>, lo: usize, hi: usize, desc: bool) -> (r: Vec<usize>)
    requires
        lo <= hi <= keys.len(),
    ensures
        r.len() == hi - lo,
        sorted_before_dir(keys_view(keys@), r@, desc),
        forall|k: int| 0 <= k < r.len() ==> lo <= #[trigger] r@[k] < hi,
    decreases hi - lo,
{
    if hi - lo == 0 {
        return Vec::new();
    }
    if hi - lo == 1 {
        let mut v = Vec::new();
        v.push(lo);
        return v;
    }
    let mid = lo + (hi - lo) / 2;
    let left = sort_range(keys, lo, mid, desc);
    let right = sort_range(keys, mid, hi, desc);
    merge(keys, left, right, lo, mid, hi, desc)
}

/// The indices of `keys` in the order of a stable sort by key, ascending or
/// (`desc`) descending.
pub fn stable_sort_dir(keys: &Vec<SortKey>, desc: bool) -> (r: Vec<usize>)
    ensures
        is_stable_sort_dir(keys_view(keys@), r@, desc),
{
    sort_range(keys, 0, keys.len(), desc)
}

/// The indices of `keys` in the order of an ascending stable sort by key.
pub fn stable_sort(keys: &Vec<SortKey>) -> (r: Vec<usize>)
    ensures
        is_stable_sort(keys_view(keys@), r@),
{
    stable_sort_dir(keys, false)
}

} // verus!
