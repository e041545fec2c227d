//! The order of keys: element by element, texts by code point, numbers by
//! value, a number before a text, and a proper prefix first.
use vstd::prelude::*;
use crate::decimal::{
    RealNum, RealV, int_order, real_order, lemma_real_order_antisym,
    lemma_real_order_refl, lemma_real_order_trans, pow10,
};
use crate::key::{Part, PartV, parts_view};

verus! {

/// Code-point order of characters.
pub open spec fn char_order(a: char, b: char) -> int {
    int_order(a as int, b as int)
}

/// Lexicographic order of texts by code point; a proper prefix comes first.
pub open spec fn text_order(a: Seq<char>, b: Seq<char>) -> int
    decreases a.len(),
{
    if a.len() == 0 {
        if b.len() == 0 { 0 } else { -1 }
    } else if b.len() == 0 {
        1
    } else if a[0] != b[0] {
        char_order(a[0], b[0])
    } else {
        text_order(a.drop_first(), b.drop_first())
    }
}

/// Order of key elements: texts by `text_order`, numbers by value, and a
/// number before a text.
pub open spec fn part_order(a: PartV, b: PartV) -> int {
    match (a, b) {
        (PartV::Text(x), PartV::Text(y)) => text_order(x, y),
        (PartV::Int(x), PartV::Int(y)) => real_order(x, y),
        (PartV::Real(x), PartV::Real(y)) => real_order(x, y),
        (PartV::Int(x), PartV::Real(y)) => real_order(x, y),
        (PartV::Real(x), PartV::Int(y)) => real_order(x, y),
        (PartV::Text(_), _) => 1,
        (_, PartV::Text(_)) => -1,
    }
}

/// Order of keys: the first element that differs decides; otherwise the
/// shorter key comes first.
pub open spec fn key_order(a: Seq<PartV>, b: Seq<PartV>) -> int
    decreases a.len(),
{
    if a.len() == 0 {
        if b.len() == 0 { 0 } else { -1 }
    } else if b.len() == 0 {
        1
    } else if part_order(a[0], b[0]) != 0 {
        part_order(a[0], b[0])
    } else {
        key_order(a.drop_first(), b.drop_first())
    }
}

// ---------------------------------------------------------------------------
// The orders are total preorders.

pub proof fn lemma_text_order(a: Seq<char>, b: Seq<char>, c: Seq<char>)
    ensures
        text_order(a, b) == -text_order(b, a),
        text_order(a, a) == 0,
        text_order(a, b) == 0 <==> a == b,
        -1 <= text_order(a, b) <= 1,
        text_order(a, b) <= 0 && text_order(b, c) <= 0 ==> text_order(a, c) <= 0,
        text_order(a, b) < 0 && text_order(b, c) <= 0 ==> text_order(a, c) < 0,
        text_order(a, b) <= 0 && text_order(b, c) < 0 ==> text_order(a, c) < 0,
    decreases a.len(),
{
    if a.len() > 0 && b.len() > 0 && c.len() > 0 {
        lemma_text_order(a.drop_first(), b.drop_first(), c.drop_first());
    } else if a.len() > 0 && b.len() > 0 {
        lemma_text_order(a.drop_first(), b.drop_first(), a.drop_first());
    } else if a.len() > 0 && c.len() > 0 {
        lemma_text_order(a.drop_first(), a.drop_first(), c.drop_first());
    } else if a.len() > 0 {
        lemma_text_order(a.drop_first(), a.drop_first(), a.drop_first());
    }
    if a.len() > 0 && b.len() > 0 && a[0] == b[0] && text_order(a.drop_first(), b.drop_first()) == 0 {
        assert(a =~= seq![a[0]] + a.drop_first());
        assert(b =~= seq![b[0]] + b.drop_first());
    }
    if a.len() == 0 && b.len() == 0 {
        assert(a =~= b);
    }
}

/// The number in a numeric element, as a real.
pub open spec fn num_value(p: PartV) -> RealV {
    match p {
        PartV::Int(x) => x,
        PartV::Real(r) => r,
        PartV::Text(_) => RealV { neg: false, mant: 0, scale: 0 },
    }
}

proof fn lemma_part_order_numbers(a: PartV, b: PartV)
    requires
        !(a is Text),
        !(b is Text),
    ensures
        part_order(a, b) == real_order(num_value(a), num_value(b)),
{
}

pub proof fn lemma_part_order(a: PartV, b: PartV, c: PartV)
    ensures
        part_order(a, b) == -part_order(b, a),
        part_order(a, a) == 0,
        -1 <= part_order(a, b) <= 1,
        part_order(a, b) <= 0 && part_order(b, c) <= 0 ==> part_order(a, c) <= 0,
        part_order(a, b) < 0 && part_order(b, c) <= 0 ==> part_order(a, c) < 0,
        part_order(a, b) <= 0 && part_order(b, c) < 0 ==> part_order(a, c) < 0,
{
    if a is Text && b is Text && c is Text {
        lemma_text_order(a->Text_0, b->Text_0, c->Text_0);
    } else if a is Text && b is Text {
        lemma_text_order(a->Text_0, b->Text_0, a->Text_0);
    } else if a is Text {
        lemma_text_order(a->Text_0, a->Text_0, a->Text_0);
    } else if b is Text && c is Text {
        lemma_text_order(b->Text_0, c->Text_0, b->Text_0);
    } else if !(b is Text) && !(c is Text) {
        lemma_part_order_numbers(a, b);
        lemma_part_order_numbers(b, a);
        lemma_part_order_numbers(b, c);
        lemma_part_order_numbers(a, c);
        lemma_part_order_numbers(a, a);
        lemma_real_order_antisym(num_value(a), num_value(b));
        lemma_real_order_refl(num_value(a));
        lemma_real_order_trans(num_value(a), num_value(b), num_value(c));
    } else if !(b is Text) {
        lemma_part_order_numbers(a, b);
        lemma_part_order_numbers(b, a);
        lemma_part_order_numbers(a, a);
        lemma_real_order_antisym(num_value(a), num_value(b));
        lemma_real_order_refl(num_value(a));
    } else {
        lemma_part_order_numbers(a, a);
        lemma_real_order_refl(num_value(a));
    }
}

pub proof fn lemma_key_order(a: Seq<PartV>, b: Seq<PartV>, c: Seq<PartV>)
    ensures
        key_order(a, b) == -key_order(b, a),
        key_order(a, a) == 0,
        -1 <= key_order(a, b) <= 1,
        key_order(a, b) <= 0 && key_order(b, c) <= 0 ==> key_order(a, c) <= 0,
        key_order(a, b) < 0 && key_order(b, c) <= 0 ==> key_order(a, c) < 0,
        key_order(a, b) <= 0 && key_order(b, c) < 0 ==> key_order(a, c) < 0,
    decreases a.len(),
{
    if a.len() > 0 && b.len() > 0 && c.len() > 0 {
        lemma_key_order(a.drop_first(), b.drop_first(), c.drop_first());
        lemma_part_order(a[0], b[0], c[0]);
        lemma_part_order(b[0], c[0], a[0]);
        lemma_part_order(a[0], c[0], b[0]);
    } else if a.len() > 0 && b.len() > 0 {
        lemma_key_order(a.drop_first(), b.drop_first(), a.drop_first());
        lemma_part_order(a[0], b[0], a[0]);
    } else if a.len() > 0 {
        lemma_key_order(a.drop_first(), a.drop_first(), a.drop_first());
        lemma_part_order(a[0], a[0], a[0]);
    }
}

// ---------------------------------------------------------------------------
// Executable comparisons.

/// Lexicographic comparison of texts by code point: -1, 0 or 1.
pub fn compare_text(a: &Vec<char>, b: &Vec<char>) -> (r: i8)
    ensures
        r == text_order(a@, b@),
{
    let mut i: usize = 0;
    assert(a@.skip(0) =~= a@);
    assert(b@.skip(0) =~= b@);
    while i < a.len() && i < b.len()
        invariant
            i <= a.len(),
            i <= b.len(),
            text_order(a@, b@) == text_order(a@.skip(i as int), b@.skip(i as int)),
        decreases a.len() - i,
    {
        assert(a@.skip(i as int)[0] == a@[i as int]);
        assert(b@.skip(i as int)[0] == b@[i as int]);
        assert(a@.skip(i as int).drop_first() =~= a@.skip(i + 1));
        assert(b@.skip(i as int).drop_first() =~= b@.skip(i + 1));
        let x = a[i];
        let y = b[i];
        if x < y {
            return -1;
        }
        if x > y {
            return 1;
        }
        i = i + 1;
    }
    if a.len() == b.len() {
        0
    } else if i == a.len() {
        -1
    } else {
        1
    }
}

/// Three-way comparison of key elements.
pub fn compare_parts(a: &Part, b: &Part) -> (r: i8)
    ensures
        r == part_order(a@, b@),
{
    match (a, b) {
        (Part::Text(x), Part::Text(y)) => compare_text(x, y),
        (Part::Int(x), Part::Int(y)) => x.compare(y),
        (Part::Real(x), Part::Real(y)) => x.compare(y),
        (Part::Int(x), Part::Real(y)) => x.compare(y),
        (Part::Real(x), Part::Int(y)) => x.compare(y),
        (Part::Text(_), _) => 1,
        (_, Part::Text(_)) => -1,
    }
}

/// Three-way comparison of keys.
pub fn compare_keys(a: &Vec<Part>, b: &Vec<Part>) -> (r: i8)
    ensures
        r == key_order(parts_view(a@), parts_view(b@)),
{
    let mut i: usize = 0;
    assert(parts_view(a@).skip(0) =~= parts_view(a@));
    assert(parts_view(b@).skip(0) =~= parts_view(b@));
    while i < a.len() && i < b.len()
        invariant
            i <= a.len(),
            i <= b.len(),
            key_order(parts_view(a@), parts_view(b@)) == key_order(
                parts_view(a@).skip(i as int),
                parts_view(b@).skip(i as int),
            ),
        decreases a.len() - i,
    {
        assert(parts_view(a@).skip(i as int)[0] == a@[i as int]@);
        assert(parts_view(b@).skip(i as int)[0] == b@[i as int]@);
        assert(parts_view(a@).skip(i as int).drop_first() =~= parts_view(a@).skip(i + 1));
        assert(parts_view(b@).skip(i as int).drop_first() =~= parts_view(b@).skip(i + 1));
        let o = compare_parts(&a[i], &b[i]);
        if o != 0 {
            return o;
        }
        i = i + 1;
    }
    if a.len() == b.len() {
        0
    } else if i == a.len() {
        -1
    } else {
        1
    }
}

} // verus!
