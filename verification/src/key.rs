//! The natural-sort key of a string: an alternation of text and numbers,
//! always starting with a (possibly empty) text element.
use vstd::prelude::*;
use crate::decimal::{
    double_overflow, double_range, double_underflow, lemma_real_order_congruent,
    RealNum, RealV, all_digits, digits_value, pow10, real_order, SCALE_INPUT_LIMIT,
    lemma_digits_value_concat, lemma_pow10_positive,
};
use crate::ns::Ns;
use crate::text::{transform, transform_text};
use crate::unicode::{
    UnicodeTables, decimal_value, is_decimal, isolated_value, numeric_value, unicode_digit,
    is_digit_char, unicode_isolated_digit, unicode_numeric,
};

verus! {

/// Exponents beyond this magnitude (`10^20`) are read as this magnitude.
/// No text that fits in memory can tell: its mantissa has fewer than `10^20`
/// digits, so with such an exponent its value overflows or underflows a
/// double either way.
pub const EXP_LIMIT: u128 = 100_000_000_000_000_000_000u128;

/// Largest `i128`: the bound under which exponent digits are accumulated.
pub const INT_LIMIT: u128 = 0x7fff_ffff_ffff_ffff_ffff_ffff_ffff_ffffu128;

/// A key element, as a mathematical value.
pub enum PartV {
    Text(Seq<char>),
    /// An integer, exactly (its value has scale zero before canonical form).
    Int(RealV),
    Real(RealV),
}

/// One element of a key, as the scanner builds it.
#[derive(Debug)]
pub enum Part {
    Text(Vec<char>),
    Int(RealNum),
    Real(RealNum),
}

impl View for Part {
    type V = PartV;

    open spec fn view(&self) -> PartV {
        match self {
            Part::Text(t) => PartV::Text(t@),
            Part::Int(v) => PartV::Int(v@),
            Part::Real(r) => PartV::Real(r@),
        }
    }
}

pub open spec fn parts_view(ps: Seq<Part>) -> Seq<PartV> {
    ps.map_values(|p: Part| p@)
}

// ---------------------------------------------------------------------------
// The number grammar.

/// The canonical form of a value: trailing zeros of the mantissa moved into
/// the scale, and zero written as `+0 × 10^0`.
pub open spec fn canon(r: RealV) -> RealV
    decreases r.mant,
{
    if r.mant == 0 {
        RealV { neg: false, mant: 0, scale: 0 }
    } else if r.mant % 10 == 0 {
        canon(RealV { neg: r.neg, mant: r.mant / 10, scale: r.scale + 1 })
    } else {
        r
    }
}

pub open spec fn is_decimal_at(chars: Seq<char>, i: int) -> bool {
    0 <= i < chars.len() && is_decimal(chars[i])
}

/// The number of decimal digits in a row from position `i`.
pub open spec fn digit_run(chars: Seq<char>, i: int) -> nat
    decreases chars.len() - i,
{
    if is_decimal_at(chars, i) { 1 + digit_run(chars, i + 1) } else { 0 }
}

/// The value of a decimal digit character.
pub open spec fn digit_of(c: char) -> u8 {
    match decimal_value(c) {
        Some(d) => d,
        None => 0,
    }
}

/// The digit values of `chars[s..e]`.
pub open spec fn digits_at(chars: Seq<char>, s: int, e: int) -> Seq<u8> {
    chars.subrange(s, e).map_values(|c: char| digit_of(c))
}

pub open spec fn is_sign(c: char) -> bool {
    c == '+' || c == '-'
}

/// Length (0 or 1) of a sign at `i` that attaches to the number after it.
pub open spec fn sign_len(chars: Seq<char>, i: int, alg: Ns) -> nat {
    if alg.spec_sign_attaches() && 0 <= i < chars.len() && is_sign(chars[i]) && (is_decimal_at(
        chars,
        i + 1,
    ) || (alg.spec_numbers_are_float() && i + 1 < chars.len() && chars[i + 1] == '.'
        && is_decimal_at(chars, i + 2))) {
        1
    } else {
        0
    }
}

pub open spec fn min_nat(a: nat, b: nat) -> nat {
    if a <= b { a } else { b }
}

/// An integer chunk: the digits' exact value, with the sign applied.
pub open spec fn int_value(digits: Seq<u8>, negative: bool) -> RealV {
    canon(RealV { neg: negative, mant: digits_value(digits), scale: 0 })
}

/// The number that starts at `i` when numbers are integers, with the count
/// of characters it takes.
pub open spec fn int_number_at(chars: Seq<char>, i: int, alg: Ns) -> Option<(PartV, nat)> {
    let sl = sign_len(chars, i, alg);
    let j = i + sl;
    let r = digit_run(chars, j);
    if r == 0 {
        None
    } else {
        Some((PartV::Int(int_value(digits_at(chars, j, j + r), sl == 1 && chars[i] == '-')), sl + r))
    }
}

/// The parts of a real literal that starts at `i`: where its integer digits
/// start and end, whether a fractional part follows and where it ends, where
/// the mantissa ends, and whether an exponent follows.
pub open spec fn real_frac_dot(chars: Seq<char>, i: int, alg: Ns) -> bool {
    let j = i + sign_len(chars, i, alg);
    let ie = j + digit_run(chars, j);
    ie < chars.len() && chars[ie] == '.' && (ie > j || is_decimal_at(chars, ie + 1))
}

pub open spec fn real_int_end(chars: Seq<char>, i: int, alg: Ns) -> int {
    let j = i + sign_len(chars, i, alg);
    j + digit_run(chars, j)
}

pub open spec fn real_frac_len(chars: Seq<char>, i: int, alg: Ns) -> nat {
    if real_frac_dot(chars, i, alg) { digit_run(chars, real_int_end(chars, i, alg) + 1) } else { 0 }
}

pub open spec fn real_mant_end(chars: Seq<char>, i: int, alg: Ns) -> int {
    if real_frac_dot(chars, i, alg) {
        real_int_end(chars, i, alg) + 1 + real_frac_len(chars, i, alg)
    } else {
        real_int_end(chars, i, alg)
    }
}

/// Whether an `e`/`E` follows the mantissa.
pub open spec fn real_has_e(chars: Seq<char>, i: int, alg: Ns) -> bool {
    let m = real_mant_end(chars, i, alg);
    !alg.noexp && m < chars.len() && (chars[m] == 'e' || chars[m] == 'E')
}

/// Length (0 or 1) of the sign after the `e`.
pub open spec fn real_exp_sign_len(chars: Seq<char>, i: int, alg: Ns) -> nat {
    let k = real_mant_end(chars, i, alg) + 1;
    if real_has_e(chars, i, alg) && k < chars.len() && is_sign(chars[k]) { 1 } else { 0 }
}

pub open spec fn real_exp_start(chars: Seq<char>, i: int, alg: Ns) -> int {
    real_mant_end(chars, i, alg) + 1 + real_exp_sign_len(chars, i, alg)
}

/// The exponent is read: an `e`/`E`, an optional sign and at least one digit.
pub open spec fn real_has_exp(chars: Seq<char>, i: int, alg: Ns) -> bool {
    real_has_e(chars, i, alg) && digit_run(chars, real_exp_start(chars, i, alg)) > 0
}

pub open spec fn real_end(chars: Seq<char>, i: int, alg: Ns) -> int {
    if real_has_exp(chars, i, alg) {
        real_exp_start(chars, i, alg) + digit_run(chars, real_exp_start(chars, i, alg))
    } else {
        real_mant_end(chars, i, alg)
    }
}

/// The value of the exponent, its magnitude saturated at `EXP_LIMIT`.
pub open spec fn real_exp(chars: Seq<char>, i: int, alg: Ns) -> int {
    if real_has_exp(chars, i, alg) {
        let s = real_exp_start(chars, i, alg);
        let v = min_nat(digits_value(digits_at(chars, s, s + digit_run(chars, s))), EXP_LIMIT as nat)
            as int;
        if real_exp_sign_len(chars, i, alg) == 1 && chars[s - 1] == '-' { -v } else { v }
    } else {
        0
    }
}

/// The digits of the mantissa: integer digits, then fractional digits.
pub open spec fn real_mant_digits(chars: Seq<char>, i: int, alg: Ns) -> Seq<u8> {
    let j = i + sign_len(chars, i, alg);
    let ie = real_int_end(chars, i, alg);
    if real_frac_dot(chars, i, alg) {
        digits_at(chars, j, ie) + digits_at(chars, ie + 1, ie + 1 + real_frac_len(chars, i, alg))
    } else {
        digits_at(chars, j, ie)
    }
}

/// The number that starts at `i` when numbers are reals, with the count of
/// characters it takes: `[sign] digits [. digits] [e [sign] digits]`, with
/// digits before or after the dot. Its value is kept as a double keeps it
/// at the ends of the range (overflow and underflow); within the range it
/// is exact.
pub open spec fn real_number_at(chars: Seq<char>, i: int, alg: Ns) -> Option<(PartV, nat)> {
    let j = i + sign_len(chars, i, alg);
    if real_int_end(chars, i, alg) == j && !real_frac_dot(chars, i, alg) {
        None
    } else {
        let v = RealV {
            neg: sign_len(chars, i, alg) == 1 && chars[i] == '-',
            mant: digits_value(real_mant_digits(chars, i, alg)),
            scale: real_exp(chars, i, alg) - real_frac_len(chars, i, alg),
        };
        Some((PartV::Real(double_range(canon(v))), (real_end(chars, i, alg) - i) as nat))
    }
}

/// The number that starts at position `i` under `alg`, if any.
pub open spec fn number_at(chars: Seq<char>, i: int, alg: Ns) -> Option<(PartV, nat)> {
    if alg.spec_numbers_are_float() {
        real_number_at(chars, i, alg)
    } else {
        int_number_at(chars, i, alg)
    }
}

/// The real value of a numeric character.
pub open spec fn numeric_part(m: u64, e: i8) -> PartV {
    PartV::Real(canon(RealV { neg: false, mant: m as nat, scale: e as int }))
}

/// The number an isolated digit character stands for.
pub open spec fn isolated_part(d: u8, alg: Ns) -> PartV {
    if alg.spec_numbers_are_float() {
        PartV::Real(canon(RealV { neg: false, mant: d as nat, scale: 0 }))
    } else {
        PartV::Int(canon(RealV { neg: false, mant: d as nat, scale: 0 }))
    }
}

/// The rest of the key from position `i`, given the text collected since the
/// last number and whether a number has been emitted.
pub open spec fn scan(chars: Seq<char>, i: int, pending: Seq<char>, emitted: bool, alg: Ns) -> Seq<
    PartV,
>
    decreases chars.len() - i,
{
    if i >= chars.len() || i < 0 {
        if pending.len() > 0 || !emitted {
            seq![PartV::Text(transform(pending, alg))]
        } else {
            Seq::empty()
        }
    } else if alg.spec_numbers_are_float() && numeric_value(chars[i]) is Some {
        let (m, e) = numeric_value(chars[i])->0;
        seq![PartV::Text(transform(pending, alg)), numeric_part(m, e)] + scan(
            chars,
            i + 1,
            Seq::empty(),
            true,
            alg,
        )
    } else if isolated_value(chars[i]) is Some {
        seq![PartV::Text(transform(pending, alg)), isolated_part(isolated_value(chars[i])->0, alg)]
            + scan(chars, i + 1, Seq::empty(), true, alg)
    } else {
        match number_at(chars, i, alg) {
            Some((p, n)) => {
                proof {
                    lemma_number_at_len(chars, i, alg);
                }
                seq![PartV::Text(transform(pending, alg)), p] + scan(
                    chars,
                    i + n,
                    Seq::empty(),
                    true,
                    alg,
                )
            },
            None => scan(chars, i + 1, pending.push(chars[i]), emitted, alg),
        }
    }
}

/// The key of a sequence of characters.
pub open spec fn key_of(chars: Seq<char>, alg: Ns) -> Seq<PartV> {
    scan(chars, 0, Seq::empty(), false, alg)
}

proof fn lemma_digit_run_bound(chars: Seq<char>, i: int)
    ensures
        digit_run(chars, i) > 0 ==> 0 <= i && i + digit_run(chars, i) <= chars.len(),
    decreases chars.len() - i,
{
    if is_decimal_at(chars, i) {
        lemma_digit_run_bound(chars, i + 1);
    }
}

/// A number takes at least one character and ends within the text.
pub proof fn lemma_number_at_len(chars: Seq<char>, i: int, alg: Ns)
    requires
        0 <= i < chars.len(),
    ensures
        number_at(chars, i, alg) matches Some((p, n)) ==> n >= 1 && i + n <= chars.len(),
{
    let sl = sign_len(chars, i, alg);
    let j = i + sl;
    lemma_digit_run_bound(chars, j);
    if alg.spec_numbers_are_float() {
        let ie = real_int_end(chars, i, alg);
        lemma_digit_run_bound(chars, ie + 1);
        let m = real_mant_end(chars, i, alg);
        let s = real_exp_start(chars, i, alg);
        lemma_digit_run_bound(chars, s);
        if sl == 1 {
            assert(is_decimal_at(chars, i + 1) || is_decimal_at(chars, i + 2));
        }
    }
}

// ---------------------------------------------------------------------------
// Executable scanning.

/// Position after the run of decimal digits that starts at `start`.
fn scan_digits(t: &UnicodeTables, chars: &Vec<char>, start: usize) -> (end: usize)
    requires
        t.wf(),
        start <= chars.len(),
    ensures
        end == start + digit_run(chars@, start as int),
        end <= chars.len(),
{
    let mut i = start;
    while i < chars.len() && is_digit_char(t, chars[i])
        invariant
            t.wf(),
            start <= i <= chars.len(),
            digit_run(chars@, start as int) == (i - start) + digit_run(chars@, i as int),
        decreases chars.len() - i,
    {
        i = i + 1;
    }
    i
}

/// The digit values of `chars[s..e]`.
fn digit_values(t: &UnicodeTables, chars: &Vec<char>, s: usize, e: usize) -> (r: Vec<u8>)
    requires
        t.wf(),
        s <= e <= chars.len(),
    ensures
        r@ == digits_at(chars@, s as int, e as int),
        all_digits(r@),
{
    let mut out: Vec<u8> = Vec::new();
    let mut i = s;
    while i < e
        invariant
            t.wf(),
            s <= i <= e,
            e <= chars.len(),
            out@ == digits_at(chars@, s as int, i as int),
            all_digits(out@),
        decreases e - i,
    {
        let d = match unicode_digit(t, chars[i]) {
            Some(d) => d,
            None => 0,
        };
        out.push(d);
        i = i + 1;
        assert(out@ =~= digits_at(chars@, s as int, i as int));
    }
    out
}

/// `min(value(d), limit)`, for a limit below `2^127`.
fn saturated_value(d: &Vec<u8>, limit: u128) -> (r: u128)
    requires
        all_digits(d@),
        limit <= INT_LIMIT,
    ensures
        r as nat == min_nat(digits_value(d@), limit as nat),
{
    let mut acc: u128 = 0;
    let mut i: usize = 0;
    assert(d@.take(0) =~= Seq::<u8>::empty());
    while i < d.len()
        invariant
            i <= d.len(),
            all_digits(d@),
            limit <= INT_LIMIT,
            acc as nat == min_nat(digits_value(d@.take(i as int)), limit as nat),
        decreases d.len() - i,
    {
        let ghost prev = digits_value(d@.take(i as int));
        assert(d@.take(i + 1).drop_last() =~= d@.take(i as int));
        assert(d@.take(i + 1).last() == d@[i as int]);
        let digit = d[i];
        assert(digit < 10);
        if acc >= limit {
            acc = limit;
        } else if acc > limit / 10 {
            acc = limit;
            assert(prev * 10 + digit > limit) by (nonlinear_arith)
                requires
                    prev > limit / 10,
                    limit >= 0,
            ;
        } else {
            let next = acc * 10 + digit as u128;
            acc = if next > limit { limit } else { next };
        }
        i = i + 1;
    }
    assert(d@.take(d.len() as int) =~= d@);
    acc
}

/// The sign at `start` that attaches to a number: its length and whether it
/// is a minus.
fn sign_at(t: &UnicodeTables, chars: &Vec<char>, start: usize, alg: Ns) -> (r: (usize, bool))
    requires
        t.wf(),
        start < chars.len(),
    ensures
        r.0 == sign_len(chars@, start as int, alg),
        r.1 == (r.0 == 1 && chars@[start as int] == '-'),
{
    let n = chars.len();
    if alg.sign_attaches() && (chars[start] == '+' || chars[start] == '-') {
        let digit_follows = start + 1 < n && is_digit_char(t, chars[start + 1]);
        let dot_digit_follows = alg.numbers_are_float() && start + 1 < n && chars[start + 1] == '.'
            && start + 2 < n && is_digit_char(t, chars[start + 2]);
        if digit_follows || dot_digit_follows {
            return (1, chars[start] == '-');
        }
    }
    (0, false)
}

/// Where the pieces of a real literal lie.
struct RealExtent {
    int_end: usize,
    frac_dot: bool,
    frac_end: usize,
    has_exp: bool,
    exp_neg: bool,
    exp_start: usize,
    end: usize,
}

/// Locates the pieces of the real literal whose digits start at `j`.
fn real_extent(t: &UnicodeTables, chars: &Vec<char>, start: usize, j: usize, alg: Ns) -> (r: RealExtent)
    requires
        t.wf(),
        start < chars.len(),
        j == start + sign_len(chars@, start as int, alg),
        j <= chars.len(),
    ensures
        r.int_end == real_int_end(chars@, start as int, alg),
        r.frac_dot == real_frac_dot(chars@, start as int, alg),
        r.frac_end == real_mant_end(chars@, start as int, alg),
        r.frac_dot ==> r.frac_end == r.int_end + 1 + real_frac_len(chars@, start as int, alg),
        !r.frac_dot ==> r.frac_end == r.int_end && real_frac_len(chars@, start as int, alg) == 0,
        r.int_end <= r.frac_end <= r.end <= chars.len(),
        r.has_exp == real_has_exp(chars@, start as int, alg),
        r.has_exp ==> r.exp_start == real_exp_start(chars@, start as int, alg)
            && r.exp_neg == (real_exp_sign_len(chars@, start as int, alg) == 1 && chars@[r.exp_start - 1] == '-')
            && r.exp_start < r.end,
        r.end == real_end(chars@, start as int, alg),
{
    let n = chars.len();
    let ie = scan_digits(t, chars, j);
    let has_int = ie > j;
    let frac_dot = ie < n && chars[ie] == '.' && (has_int || (ie + 1 < n && is_digit_char(t, chars[ie + 1])));
    let fe = if frac_dot {
        scan_digits(t, chars, ie + 1)
    } else {
        ie
    };
    let mut end = fe;
    let mut has_exp = false;
    let mut exp_neg = false;
    let mut exp_start: usize = 0;
    if !alg.noexp && fe < n && (chars[fe] == 'e' || chars[fe] == 'E') {
        let mut k = fe + 1;
        let mut eneg = false;
        if k < n && (chars[k] == '+' || chars[k] == '-') {
            eneg = chars[k] == '-';
            k = k + 1;
        }
        let ke = scan_digits(t, chars, k);
        if ke > k {
            end = ke;
            has_exp = true;
            exp_neg = eneg;
            exp_start = k;
        }
    }
    RealExtent { int_end: ie, frac_dot, frac_end: fe, has_exp, exp_neg, exp_start, end }
}

/// The real literal that starts at `start`, if any.
fn match_real(t: &UnicodeTables, chars: &Vec<char>, start: usize, alg: Ns) -> (r: Option<(Part, usize)>)
    requires
        t.wf(),
        start < chars.len(),
        alg.spec_numbers_are_float(),
    ensures
        match (r, real_number_at(chars@, start as int, alg)) {
            (Some((p, n)), Some((pv, m))) => p@ == pv && n == m,
            (None, None) => true,
            _ => false,
        },
{
    let (sl, negative) = sign_at(t, chars, start, alg);
    let j = start + sl;
    let x = real_extent(t, chars, start, j, alg);
    if x.int_end == j && !x.frac_dot {
        return None;
    }
    let mut mant = digit_values(t, chars, j, x.int_end);
    let mut frac_len: usize = 0;
    if x.frac_dot {
        let mut frac = digit_values(t, chars, x.int_end + 1, x.frac_end);
        frac_len = x.frac_end - (x.int_end + 1);
        mant.append(&mut frac);
    }
    assert(mant@ =~= real_mant_digits(chars@, start as int, alg));
    assert(all_digits(mant@));
    let exp: i128 = if x.has_exp {
        let ev = digit_values(t, chars, x.exp_start, x.end);
        let v = saturated_value(&ev, EXP_LIMIT) as i128;
        if x.exp_neg {
            -v
        } else {
            v
        }
    } else {
        0
    };
    assert(exp == real_exp(chars@, start as int, alg));
    let scale = exp - frac_len as i128;
    let r = RealNum::from_digits(negative, mant, scale);
    proof {
        let raw = RealV {
            neg: negative,
            mant: digits_value(real_mant_digits(chars@, start as int, alg)),
            scale: scale as int,
        };
        lemma_canon_unique(r@, raw);
    }
    let r = clamp_to_doubles(t, r);
    Some((Part::Real(r), x.end - start))
}

/// `r` as a double keeps it at the ends of its range.
fn clamp_to_doubles(t: &UnicodeTables, r: RealNum) -> (out: RealNum)
    requires
        t.wf(),
    ensures
        out@ == double_range(r@),
{
    let m = r.abs();
    let ov = t.overflow();
    let o = m.compare(ov);
    proof {
        lemma_real_order_congruent(m@, ov@, double_overflow());
    }
    if o >= 0 {
        let big = RealNum::from_magnitude(r.is_negative(), 1, 309);
        proof {
            lemma_canon_unique(big@, RealV { neg: r@.neg, mant: 1, scale: 309 });
            assert(canon(RealV { neg: r@.neg, mant: 1, scale: 309 }) == RealV { neg: r@.neg, mant: 1, scale: 309 });
        }
        return big;
    }
    let un = t.underflow();
    let u = m.compare(un);
    proof {
        lemma_real_order_congruent(m@, un@, double_underflow());
    }
    if u <= 0 {
        return RealNum::zero();
    }
    r
}

/// The integer literal that starts at `start`, if any.
fn match_int(t: &UnicodeTables, chars: &Vec<char>, start: usize, alg: Ns) -> (r: Option<(Part, usize)>)
    requires
        t.wf(),
        start < chars.len(),
    ensures
        match (r, int_number_at(chars@, start as int, alg)) {
            (Some((p, n)), Some((pv, m))) => p@ == pv && n == m,
            (None, None) => true,
            _ => false,
        },
{
    let (sl, negative) = sign_at(t, chars, start, alg);
    let j = start + sl;
    let ie = scan_digits(t, chars, j);
    if ie == j {
        return None;
    }
    let ds = digit_values(t, chars, j, ie);
    let ghost dv = digits_value(ds@);
    let r = RealNum::from_digits(negative, ds, 0);
    proof {
        lemma_canon_unique(r@, RealV { neg: negative, mant: dv, scale: 0 });
    }
    Some((Part::Int(r), ie - start))
}

/// The number that starts at `start`, if any, with the count of characters
/// it takes.
fn match_number(t: &UnicodeTables, chars: &Vec<char>, start: usize, alg: Ns) -> (r: Option<(Part, usize)>)
    requires
        t.wf(),
        start < chars.len(),
    ensures
        match (r, number_at(chars@, start as int, alg)) {
            (Some((p, n)), Some((pv, m))) => p@ == pv && n == m,
            (None, None) => true,
            _ => false,
        },
{
    if alg.numbers_are_float() {
        match_real(t, chars, start, alg)
    } else {
        match_int(t, chars, start, alg)
    }
}

/// The parts of the key of `chars`.
/// The number an isolated digit character stands for.
fn isolated_number(d: u8, alg: Ns) -> (p: Part)
    ensures
        p@ == isolated_part(d, alg),
{
    let r = RealNum::from_magnitude(false, d as u128, 0);
    proof {
        lemma_canon_unique(r@, RealV { neg: false, mant: d as nat, scale: 0 });
    }
    if alg.numbers_are_float() {
        Part::Real(r)
    } else {
        Part::Int(r)
    }
}

#[verifier::rlimit(50)]
#[verifier::spinoff_prover]
pub fn key_parts(t: &UnicodeTables, chars: &Vec<char>, alg: Ns) -> (r: Vec<Part>)
    requires
        t.wf(),
    ensures
        parts_view(r@) == key_of(chars@, alg),
{
    let n = chars.len();
    let mut out: Vec<Part> = Vec::new();
    let mut pending: Vec<char> = Vec::new();
    let mut emitted = false;
    let mut i: usize = 0;
    while i < n
        invariant
            t.wf(),
            i <= n,
            n == chars.len(),
            key_of(chars@, alg) == parts_view(out@) + scan(chars@, i as int, pending@, emitted, alg),
        decreases n - i,
    {
        let c = chars[i];
        let ghost before = parts_view(out@);
        let ghost tp = transform(pending@, alg);
        if alg.numbers_are_float() {
            if let Some((m, e)) = unicode_numeric(t, c) {
                let text = transform_text(t, &pending, alg);
                out.push(Part::Text(text));
                let r = RealNum::from_magnitude(false, m as u128, e as i128);
                proof {
                    lemma_canon_unique(r@, RealV { neg: false, mant: m as nat, scale: e as int });
                }
                out.push(Part::Real(r));
                pending = Vec::new();
                emitted = true;
                i = i + 1;
                proof {
                    assert(parts_view(out@) =~= before + seq![PartV::Text(tp), numeric_part(m, e)]);
                }
                continue;
            }
        }
        if let Some(d) = unicode_isolated_digit(t, c) {
            let text = transform_text(t, &pending, alg);
            out.push(Part::Text(text));
            out.push(isolated_number(d, alg));
            pending = Vec::new();
            emitted = true;
            i = i + 1;
            proof {
                assert(parts_view(out@) =~= before + seq![PartV::Text(tp), isolated_part(d, alg)]);
            }
            continue;
        }
        match match_number(t, chars, i, alg) {
            Some((part, consumed)) => {
                proof {
                    lemma_number_at_len(chars@, i as int, alg);
                }
                let text = transform_text(t, &pending, alg);
                out.push(Part::Text(text));
                let ghost pv = part@;
                out.push(part);
                pending = Vec::new();
                emitted = true;
                i = i + consumed;
                proof {
                    assert(parts_view(out@) =~= before + seq![PartV::Text(tp), pv]);
                }
            },
            None => {
                pending.push(c);
                i = i + 1;
            },
        }
    }
    if pending.len() > 0 || !emitted {
        let ghost before = parts_view(out@);
        let text = transform_text(t, &pending, alg);
        out.push(Part::Text(text));
        proof {
            assert(parts_view(out@) =~= before + seq![PartV::Text(transform(pending@, alg))]);
        }
    }
    proof {
        assert(parts_view(out@) =~= parts_view(out@) + Seq::<PartV>::empty());
    }
    out
}

// ---------------------------------------------------------------------------
// Facts about the canonical form.

pub proof fn lemma_canon_basic(r: RealV)
    ensures
        canon(r).canonical(),
        real_order(canon(r), r) == 0,
    decreases r.mant,
{
    if r.mant == 0 {
        let z = canon(r);
        let k = crate::decimal::min_int(z.scale, r.scale);
        assert(r.signed() == 0);
        assert(0 * pow10((r.scale - k) as nat) == 0);
        assert(0 * pow10((z.scale - k) as nat) == 0);
    } else if r.mant % 10 == 0 {
        let r1 = RealV { neg: r.neg, mant: r.mant / 10, scale: r.scale + 1 };
        lemma_canon_basic(r1);
        assert(pow10(1) == 10) by {
            assert(pow10(0) == 1);
        }
        assert(pow10(0) == 1);
        assert((r.mant / 10) * 10 == r.mant);
        let k = r.scale;
        assert(r1.scaled(k) == r1.signed() * 10);
        assert(r.scaled(k) == r.signed() * 1);
        assert(real_order(r1, r) == 0);
        crate::decimal::lemma_real_order_trans(canon(r1), r1, r);
    } else {
        crate::decimal::lemma_real_order_refl(r);
    }
}

/// A canonical value equal to `raw` is `canon(raw)`.
pub proof fn lemma_canon_unique(x: RealV, raw: RealV)
    requires
        x.canonical(),
        real_order(x, raw) == 0,
    ensures
        x == canon(raw),
{
    lemma_canon_basic(raw);
    crate::decimal::lemma_real_order_trans(x, raw, canon(raw));
    crate::decimal::lemma_real_order_antisym(canon(raw), raw);
    crate::decimal::lemma_real_canonical_unique(x, canon(raw));
}

} // verus!
