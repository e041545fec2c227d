//! The public sorting functions: natural, real, case-insensitive and
//! file-manager orders, their index forms, and keys.
use vstd::prelude::*;
use crate::decimal::RealNum;
use crate::key::{Part, PartV, key_of, key_parts, parts_view};
use crate::ns::{Ns, default_ns, real_ns};
use crate::order::{key_order, compare_keys, lemma_text_order, part_order};
use crate::sort::{SortKey, SortKeyV, is_stable_sort, is_stable_sort_dir, keys_view, stable_sort, stable_sort_dir};
use crate::text::{chars_of, nfd_chars, normalized, string_from_chars};
use crate::unicode::UnicodeTables;

verus! {

/// One chunk of a natural-sort key.
#[derive(Debug, Clone)]
pub enum Chunk {
    /// A run of transformed text.
    Text(String),
    /// An integer (integer algorithms), exact however many digits it has.
    Int(RealNum),
    /// A real number (real algorithms).
    Real(RealNum),
}

impl View for Chunk {
    type V = PartV;

    open spec fn view(&self) -> PartV {
        match self {
            Chunk::Text(t) => PartV::Text(t@),
            Chunk::Int(v) => PartV::Int(v@),
            Chunk::Real(r) => PartV::Real(r@),
        }
    }
}

impl PartialEq for Chunk {
    fn eq(&self, other: &Self) -> (r: bool) {
        match (self, other) {
            (Chunk::Text(a), Chunk::Text(b)) => {
                proof {
                    lemma_text_order(a@, b@, a@);
                }
                a.eq(b)
            },
            (Chunk::Text(_), _) => false,
            (_, Chunk::Text(_)) => false,
            (Chunk::Int(a), Chunk::Int(b)) => a.compare(b) == 0,
            (Chunk::Int(a), Chunk::Real(b)) => a.compare(b) == 0,
            (Chunk::Real(a), Chunk::Int(b)) => a.compare(b) == 0,
            (Chunk::Real(a), Chunk::Real(b)) => a.compare(b) == 0,
        }
    }
}

impl vstd::std_specs::cmp::PartialEqSpecImpl for Chunk {
    open spec fn obeys_eq_spec() -> bool {
        true
    }

    /// Equal as key elements: the same text, or numbers of the same value
    /// (an integer and a real compare by value too).
    open spec fn eq_spec(&self, other: &Self) -> bool {
        part_order(self@, other@) == 0
    }
}

impl Eq for Chunk {
}

pub open spec fn chunks_view(cs: Seq<Chunk>) -> Seq<PartV> {
    cs.map_values(|c: Chunk| c@)
}

/// The natural-sort key of a string: its canonical decomposition, split
/// into text and numbers.
pub open spec fn natsort_key_of(s: Seq<char>, alg: Ns) -> Seq<PartV> {
    key_of(normalized(s), alg)
}

/// The parts of the key of `s`.
pub(crate) fn parts_of(t: &UnicodeTables, s: &str, alg: Ns) -> (r: Vec<Part>)
    requires
        t.wf(),
    ensures
        parts_view(r@) == natsort_key_of(s@, alg),
{
    let chars = nfd_chars(s);
    key_parts(t, &chars, alg)
}

/// The natural-sort key of `s` under `alg`.
pub fn natsort_key(s: &str, alg: Ns) -> (r: Vec<Chunk>)
    ensures
        chunks_view(r@) == natsort_key_of(s@, alg),
{
    let t = UnicodeTables::new();
    let parts = parts_of(&t, s, alg);
    let mut out: Vec<Chunk> = Vec::new();
    let mut i: usize = 0;
    while i < parts.len()
        invariant
            i <= parts.len(),
            out.len() == i,
            chunks_view(out@) == parts_view(parts@).take(i as int),
        decreases parts.len() - i,
    {
        let c = match &parts[i] {
            Part::Text(t) => Chunk::Text(string_from_chars(t)),
            Part::Int(v) => Chunk::Int(v.clone()),
            Part::Real(x) => Chunk::Real(x.clone()),
        };
        assert(c@ == parts@[i as int]@);
        let ghost old_out = out@;
        out.push(c);
        i = i + 1;
        assert forall|j: int| 0 <= j < i implies #[trigger] chunks_view(out@)[j] == parts_view(parts@).take(i as int)[j] by {
            if j < i - 1 {
                assert(out@[j] == old_out[j]);
                assert(chunks_view(old_out)[j] == parts_view(parts@).take(i - 1)[j]);
            }
        }
        assert(chunks_view(out@) =~= parts_view(parts@).take(i as int));
    }
    assert(parts_view(parts@).take(parts.len() as int) =~= parts_view(parts@));
    out
}

// ---------------------------------------------------------------------------
// Sorting.

/// The sort key of an item in a natural sort: its natural-sort key, and under
/// `presort` its own text to break ties.
pub open spec fn nat_sort_key(s: Seq<char>, alg: Ns) -> SortKeyV {
    SortKeyV {
        primary: natsort_key_of(s, alg),
        secondary: Seq::empty(),
        text: if alg.presort { s } else { Seq::empty() },
    }
}

pub open spec fn nat_sort_keys(items: Seq<String>, alg: Ns) -> Seq<SortKeyV> {
    items.map_values(|s: String| nat_sort_key(s@, alg))
}

/// The algorithm `humansorted` and `os_sorted` fold text with.
pub open spec fn ignorecase_ns() -> Ns {
    Ns { ignorecase: true, ..default_ns() }
}

/// The sort key of an item in a case-insensitive sort: its case-folded key,
/// then its plain key, then, under `presort`, its own text (so that ties
/// break by string order rather than by input order).
pub open spec fn human_sort_key(s: Seq<char>, presort: bool) -> SortKeyV {
    SortKeyV {
        primary: natsort_key_of(s, ignorecase_ns()),
        secondary: natsort_key_of(s, default_ns()),
        text: if presort { s } else { Seq::empty() },
    }
}

pub open spec fn human_sort_keys(items: Seq<String>, presort: bool) -> Seq<SortKeyV> {
    items.map_values(|s: String| human_sort_key(s@, presort))
}

/// `r` is `items` rearranged by the index list `p`.
pub open spec fn arranged(items: Seq<String>, p: Seq<usize>, r: Seq<String>) -> bool {
    &&& r.len() == p.len()
    &&& forall|k: int| 0 <= k < p.len() ==> #[trigger] r[k] == items[p[k] as int]
}

/// `r` is `items` in the order of the stable sort by `keys`.
pub open spec fn sorted_by_keys(items: Seq<String>, keys: Seq<SortKeyV>, r: Seq<String>) -> bool {
    exists|p: Seq<usize>| is_stable_sort(keys, p) && arranged(items, p, r)
}

/// `r` is `natsorted_alg(items, alg)`.
pub open spec fn is_natsorted(items: Seq<String>, alg: Ns, r: Seq<String>) -> bool {
    sorted_by_keys(items, nat_sort_keys(items, alg), r)
}

fn nat_keys(items: &[String], alg: Ns) -> (r: Vec<SortKey>)
    ensures
        keys_view(r@) == nat_sort_keys(items@, alg),
        r@.len() == items@.len(),
{
    let t = UnicodeTables::new();
    let mut keys: Vec<SortKey> = Vec::new();
    let mut i: usize = 0;
    while i < items.len()
        invariant
            t.wf(),
            i <= items.len(),
            keys.len() == i,
            keys_view(keys@) == nat_sort_keys(items@, alg).take(i as int),
        decreases items.len() - i,
    {
        let s = items[i].as_str();
        let primary = parts_of(&t, s, alg);
        let text = if alg.presort {
            chars_of(s)
        } else {
            Vec::new()
        };
        let k = SortKey { primary, secondary: Vec::new(), text };
        proof {
            assert(parts_view(Seq::<Part>::empty()) =~= Seq::<PartV>::empty());
            assert(k@ == nat_sort_key(items@[i as int]@, alg));
        }
        let ghost old_keys = keys@;
        keys.push(k);
        i = i + 1;
        assert forall|j: int| 0 <= j < i implies #[trigger] keys_view(keys@)[j] == nat_sort_keys(items@, alg).take(i as int)[j] by {
            if j < i - 1 {
                assert(keys@[j] == old_keys[j]);
                assert(keys_view(old_keys)[j] == nat_sort_keys(items@, alg).take(i - 1)[j]);
            }
        }
        assert(keys_view(keys@) =~= nat_sort_keys(items@, alg).take(i as int));
    }
    assert(nat_sort_keys(items@, alg).take(items.len() as int) =~= nat_sort_keys(items@, alg));
    assert(keys_view(keys@).len() == keys@.len());
    keys
}

fn human_keys(items: &[String], presort: bool) -> (r: Vec<SortKey>)
    ensures
        keys_view(r@) == human_sort_keys(items@, presort),
        r@.len() == items@.len(),
{
    let folded = Ns { ignorecase: true, ..Ns::default() };
    let plain = Ns::default();
    let t = UnicodeTables::new();
    let mut keys: Vec<SortKey> = Vec::new();
    let mut i: usize = 0;
    while i < items.len()
        invariant
            t.wf(),
            i <= items.len(),
            folded == ignorecase_ns(),
            plain == default_ns(),
            keys.len() == i,
            keys_view(keys@) == human_sort_keys(items@, presort).take(i as int),
        decreases items.len() - i,
    {
        let s = items[i].as_str();
        let primary = parts_of(&t, s, folded);
        let secondary = parts_of(&t, s, plain);
        let text = if presort {
            chars_of(s)
        } else {
            Vec::new()
        };
        let k = SortKey { primary, secondary, text };
        proof {
            assert(k@ == human_sort_key(items@[i as int]@, presort));
        }
        let ghost old_keys = keys@;
        keys.push(k);
        i = i + 1;
        assert forall|j: int| 0 <= j < i implies #[trigger] keys_view(keys@)[j] == human_sort_keys(items@, presort).take(i as int)[j] by {
            if j < i - 1 {
                assert(keys@[j] == old_keys[j]);
                assert(keys_view(old_keys)[j] == human_sort_keys(items@, presort).take(i - 1)[j]);
            }
        }
        assert(keys_view(keys@) =~= human_sort_keys(items@, presort).take(i as int));
    }
    assert(human_sort_keys(items@, presort).take(items.len() as int) =~= human_sort_keys(items@, presort));
    assert(keys_view(keys@).len() == keys@.len());
    keys
}

/// `items` reordered by `index`.
pub fn order_by_index(items: &[String], index: &[usize]) -> (r: Vec<String>)
    requires
        forall|k: int| 0 <= k < index@.len() ==> #[trigger] index@[k] < items@.len(),
    ensures
        arranged(items@, index@, r@),
{
    let mut out: Vec<String> = Vec::new();
    let mut k: usize = 0;
    while k < index.len()
        invariant
            k <= index.len(),
            forall|j: int| 0 <= j < index@.len() ==> #[trigger] index@[j] < items@.len(),
            out.len() == k,
            forall|j: int| 0 <= j < k ==> #[trigger] out@[j] == items@[index@[j] as int],
        decreases index.len() - k,
    {
        let s = items[index[k]].clone();
        out.push(s);
        k = k + 1;
    }
    out
}

/// `items` in the order of the stable sort by `keys`.
fn sort_items(items: &[String], keys: &Vec<SortKey>) -> (r: Vec<String>)
    requires
        keys@.len() == items@.len(),
    ensures
        sorted_by_keys(items@, keys_view(keys@), r@),
{
    assert(keys_view(keys@).len() == keys@.len());
    let idx = stable_sort(keys);
    let r = order_by_index(items, idx.as_slice());
    assert(is_stable_sort(keys_view(keys@), idx@) && arranged(items@, idx@, r@));
    r
}

/// Natural sort under `alg`: stable, so items with equal keys keep their
/// order (under `presort`, ties break by string order first).
pub fn natsorted_alg(items: &[String], alg: Ns) -> (r: Vec<String>)
    ensures
        is_natsorted(items@, alg, r@),
{
    let keys = nat_keys(items, alg);
    sort_items(items, &keys)
}

/// Natural sort under the default algorithm.
pub fn natsorted(items: &[String]) -> (r: Vec<String>)
    ensures
        is_natsorted(items@, default_ns(), r@),
{
    natsorted_alg(items, Ns::default())
}

/// Natural sort reading numbers as signed reals.
pub fn realsorted(items: &[String]) -> (r: Vec<String>)
    ensures
        is_natsorted(items@, real_ns(), r@),
{
    natsorted_alg(items, Ns::real_flags())
}

/// The indices that sort `items` naturally under `alg`.
pub fn index_natsorted_alg(items: &[String], alg: Ns) -> (r: Vec<usize>)
    ensures
        is_stable_sort(nat_sort_keys(items@, alg), r@),
{
    let keys = nat_keys(items, alg);
    stable_sort(&keys)
}

/// The indices that sort `items` naturally.
pub fn index_natsorted(items: &[String]) -> (r: Vec<usize>)
    ensures
        is_stable_sort(nat_sort_keys(items@, default_ns()), r@),
{
    index_natsorted_alg(items, Ns::default())
}

/// The indices that sort `items` with `realsorted`.
pub fn index_realsorted(items: &[String]) -> (r: Vec<usize>)
    ensures
        is_stable_sort(nat_sort_keys(items@, real_ns()), r@),
{
    index_natsorted_alg(items, Ns::real_flags())
}

/// `r` is `items` in the order of the descending stable sort by their
/// natural-sort keys: larger keys first, tied items in their input order
/// (under `presort`, ties break by ascending string order first).
pub open spec fn is_natsorted_desc(items: Seq<String>, alg: Ns, r: Seq<String>) -> bool {
    exists|p: Seq<usize>| is_stable_sort_dir(nat_sort_keys(items, alg), p, true) && arranged(items, p, r)
}

/// Natural sort, descending when `reverse` is set (as a reverse sort does:
/// tied items keep their input order).
pub fn natsorted_reverse(items: &[String], alg: Ns, reverse: bool) -> (r: Vec<String>)
    ensures
        reverse ==> is_natsorted_desc(items@, alg, r@),
        !reverse ==> is_natsorted(items@, alg, r@),
{
    if !reverse {
        return natsorted_alg(items, alg);
    }
    let keys = nat_keys(items, alg);
    let idx = stable_sort_dir(&keys, true);
    let r = order_by_index(items, idx.as_slice());
    assert(is_stable_sort_dir(nat_sort_keys(items@, alg), idx@, true) && arranged(items@, idx@, r@));
    r
}

/// `r` is `os_sorted_presort(items, presort)`: ties of both keys keep their
/// input order, or under `presort` break by string order (`humansorted` is
/// this order with `presort` on).
pub open spec fn is_human_sorted(items: Seq<String>, presort: bool, r: Seq<String>) -> bool {
    sorted_by_keys(items, human_sort_keys(items, presort), r)
}

/// Case-insensitive natural sort; ties of the folded keys break by the plain
/// natural keys, and exact ties by the text, so distinct strings never tie.
pub fn humansorted(items: &[String]) -> (r: Vec<String>)
    ensures
        is_human_sorted(items@, true, r@),
{
    let keys = human_keys(items, true);
    sort_items(items, &keys)
}

/// The indices that sort `items` with `humansorted`.
pub fn index_humansorted(items: &[String]) -> (r: Vec<usize>)
    ensures
        is_stable_sort(human_sort_keys(items@, true), r@),
{
    let keys = human_keys(items, true);
    stable_sort(&keys)
}

/// The order of a file manager: case-insensitive natural sort, ties broken
/// by the plain natural key, then under `presort` by string order; other
/// ties keep their input order.
pub fn os_sorted_presort(items: &[String], presort: bool) -> (r: Vec<String>)
    ensures
        is_human_sorted(items@, presort, r@),
{
    let keys = human_keys(items, presort);
    sort_items(items, &keys)
}

/// The order of a file manager.
pub fn os_sorted(items: &[String]) -> (r: Vec<String>)
    ensures
        is_human_sorted(items@, false, r@),
{
    os_sorted_presort(items, false)
}

/// The indices that sort `items` with `os_sorted_presort`.
pub fn index_os_sorted_presort(items: &[String], presort: bool) -> (r: Vec<usize>)
    ensures
        is_stable_sort(human_sort_keys(items@, presort), r@),
{
    let keys = human_keys(items, presort);
    stable_sort(&keys)
}

/// The indices that sort `items` with `os_sorted`.
pub fn index_os_sorted(items: &[String]) -> (r: Vec<usize>)
    ensures
        is_stable_sort(human_sort_keys(items@, false), r@),
{
    index_os_sorted_presort(items, false)
}

/// The ASCII regular expression for the numbers `alg` reads: reals (with an
/// optional sign when signs attach), signed integers, or plain integers.
pub open spec fn numeric_regex(alg: Ns) -> Seq<char> {
    if alg.spec_numbers_are_float() {
        if alg.spec_sign_attaches() {
            r"[-+]?(?:\d+\.?\d*|\.\d+)(?:[eE][-+]?\d+)?"@
        } else {
            r"(?:\d+\.?\d*|\.\d+)(?:[eE][-+]?\d+)?"@
        }
    } else if alg.signed {
        r"[-+]?\d+"@
    } else {
        r"\d+"@
    }
}

/// The regular expression (ASCII part) that matches a number under `alg`.
pub fn numeric_regex_chooser(alg: Ns) -> (r: &'static str)
    ensures
        r@ == numeric_regex(alg),
{
    if alg.numbers_are_float() {
        if alg.sign_attaches() {
            r"[-+]?(?:\d+\.?\d*|\.\d+)(?:[eE][-+]?\d+)?"
        } else {
            r"(?:\d+\.?\d*|\.\d+)(?:[eE][-+]?\d+)?"
        }
    } else if alg.signed {
        r"[-+]?\d+"
    } else {
        r"\d+"
    }
}

} // verus!
