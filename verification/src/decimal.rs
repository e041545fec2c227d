//! Real numbers as they occur in keys: exact decimals `±mantissa × 10^scale`,
//! kept in a canonical form so that equal values have equal representations.
use vstd::prelude::*;

verus! {

/// Upper bound on the magnitude of the scale of a [`RealNum`].
pub const SCALE_LIMIT: i128 = 0x1000_0000_0000_0000_0000_0000_0000_0000i128;

/// Upper bound on the magnitude of a scale handed to [`RealNum::from_digits`].
pub const SCALE_INPUT_LIMIT: i128 = 0x0800_0000_0000_0000_0000_0000_0000_0000i128;

/// `10^n`.
pub open spec fn pow10(n: nat) -> nat
    decreases n,
{
    if n == 0 { 1 } else { 10 * pow10((n - 1) as nat) }
}

/// The value of a big-endian sequence of decimal digits.
pub open spec fn digits_value(d: Seq<u8>) -> nat
    decreases d.len(),
{
    if d.len() == 0 { 0 } else { digits_value(d.drop_last()) * 10 + d.last() as nat }
}

/// Every element is a decimal digit.
pub open spec fn all_digits(d: Seq<u8>) -> bool {
    forall|i: int| 0 <= i < d.len() ==> #[trigger] d[i] < 10
}

/// A digit sequence with no leading and no trailing zero (empty for zero).
pub open spec fn canonical_digits(d: Seq<u8>) -> bool {
    &&& all_digits(d)
    &&& d.len() > 0 ==> d[0] != 0 && d.last() != 0
}

/// The value `±mant × 10^scale`.
pub struct RealV {
    pub neg: bool,
    pub mant: nat,
    pub scale: int,
}

impl RealV {
    /// The unique representation of a value: no trailing zero in the
    /// mantissa, and zero written as `+0 × 10^0`.
    pub open spec fn canonical(self) -> bool {
        if self.mant == 0 { !self.neg && self.scale == 0 } else { self.mant % 10 != 0 }
    }

    pub open spec fn signed(self) -> int {
        if self.neg { -(self.mant as int) } else { self.mant as int }
    }

    /// The value multiplied by `10^(-k)`, an integer when `k <= scale`.
    pub open spec fn scaled(self, k: int) -> int {
        self.signed() * pow10((self.scale - k) as nat)
    }
}

pub open spec fn min_int(a: int, b: int) -> int {
    if a <= b { a } else { b }
}

/// Three-way comparison of integers: -1, 0 or 1.
pub open spec fn int_order(a: int, b: int) -> int {
    if a < b { -1 } else if a == b { 0 } else { 1 }
}

/// Three-way comparison of the values of two reals.
pub open spec fn real_order(a: RealV, b: RealV) -> int {
    let k = min_int(a.scale, b.scale);
    int_order(a.scaled(k), b.scaled(k))
}

/// The value of an integer.
pub open spec fn real_of_int(v: int) -> RealV {
    RealV { neg: v < 0, mant: (if v < 0 { -v } else { v }) as nat, scale: 0 }
}

/// Comparison of digit sequences, digit by digit; a proper prefix comes first.
pub open spec fn lex_digits(x: Seq<u8>, y: Seq<u8>) -> int
    decreases x.len(),
{
    if x.len() == 0 {
        if y.len() == 0 { 0 } else { -1 }
    } else if y.len() == 0 {
        1
    } else if x[0] < y[0] {
        -1
    } else if x[0] > y[0] {
        1
    } else {
        lex_digits(x.drop_first(), y.drop_first())
    }
}

// ---------------------------------------------------------------------------
// Arithmetic facts about powers of ten and digit values.

pub proof fn lemma_pow10_positive(n: nat)
    ensures
        pow10(n) >= 1,
    decreases n,
{
    if n > 0 {
        lemma_pow10_positive((n - 1) as nat);
    }
}

pub proof fn lemma_pow10_adds(m: nat, n: nat)
    ensures
        pow10(m + n) == pow10(m) * pow10(n),
    decreases m,
{
    if m > 0 {
        let m1 = (m - 1) as nat;
        lemma_pow10_adds(m1, n);
        assert(m + n == (m1 + n) + 1);
        assert(pow10(m + n) == 10 * pow10(m1 + n));
        assert(pow10(m) == 10 * pow10(m1));
        let a = pow10(m1);
        let b = pow10(n);
        assert(10 * (a * b) == (10 * a) * b) by (nonlinear_arith);
    } else {
        assert(pow10(0) == 1);
        assert(pow10(n) == 1 * pow10(n));
    }
}

pub proof fn lemma_pow10_monotone(m: nat, n: nat)
    requires
        m <= n,
    ensures
        pow10(m) <= pow10(n),
    decreases n,
{
    if m < n {
        lemma_pow10_monotone(m, (n - 1) as nat);
        lemma_pow10_positive((n - 1) as nat);
    }
}

pub proof fn lemma_digits_value_concat(a: Seq<u8>, b: Seq<u8>)
    ensures
        digits_value(a + b) == digits_value(a) * pow10(b.len()) + digits_value(b),
    decreases b.len(),
{
    if b.len() == 0 {
        assert(a + b =~= a);
        assert(pow10(0) == 1);
        let va = digits_value(a);
        assert(va * 1 == va);
    } else {
        let b1 = b.drop_last();
        lemma_digits_value_concat(a, b1);
        assert((a + b).drop_last() =~= a + b1);
        assert((a + b).last() == b.last());
        assert(digits_value(a + b) == digits_value(a + b1) * 10 + b.last());
        assert(digits_value(b) == digits_value(b1) * 10 + b.last());
        assert(b1.len() + 1 == b.len());
        assert(pow10(b.len()) == 10 * pow10(b1.len()));
        let va = digits_value(a);
        let p = pow10(b1.len());
        let vb1 = digits_value(b1);
        let l = b.last() as nat;
        assert((va * p + vb1) * 10 + l == va * (10 * p) + (vb1 * 10 + l))
            by (nonlinear_arith);
    }
}

pub proof fn lemma_digits_value_bound(d: Seq<u8>)
    requires
        all_digits(d),
    ensures
        digits_value(d) < pow10(d.len()),
    decreases d.len(),
{
    if d.len() > 0 {
        let d1 = d.drop_last();
        assert(all_digits(d1)) by {
            assert forall|i: int| 0 <= i < d1.len() implies #[trigger] d1[i] < 10 by {
                assert(d1[i] == d[i]);
            }
        }
        lemma_digits_value_bound(d1);
        assert(d.last() == d[d.len() - 1]);
        let v = digits_value(d1);
        let p = pow10(d1.len());
        assert(v < p && d.last() < 10 ==> v * 10 + d.last() < 10 * p) by (nonlinear_arith);
    }
}

pub proof fn lemma_digits_value_first(d: Seq<u8>)
    requires
        d.len() > 0,
    ensures
        digits_value(d) == d[0] * pow10((d.len() - 1) as nat) + digits_value(d.drop_first()),
{
    let a = d.subrange(0, 1);
    assert(d =~= a + d.drop_first());
    lemma_digits_value_concat(a, d.drop_first());
    assert(a.drop_last() =~= Seq::<u8>::empty());
    assert(a.last() == d[0]);
    assert(digits_value(a.drop_last()) == 0);
    assert(digits_value(a) == d[0]);
}

pub proof fn lemma_digits_value_lower(d: Seq<u8>)
    requires
        d.len() > 0,
        d[0] != 0,
    ensures
        digits_value(d) >= pow10((d.len() - 1) as nat),
{
    lemma_digits_value_first(d);
    let p = pow10((d.len() - 1) as nat);
    assert(d[0] >= 1 ==> d[0] * p >= p) by (nonlinear_arith);
}

pub proof fn lemma_digits_value_last(d: Seq<u8>)
    requires
        all_digits(d),
        d.len() > 0,
    ensures
        digits_value(d) % 10 == d.last(),
        digits_value(d) >= d.last(),
{
    assert(d.last() == d[d.len() - 1]);
    let v = digits_value(d.drop_last());
    let l = d.last();
    assert(l < 10 ==> (v * 10 + l) % 10 == l) by (nonlinear_arith);
    assert(v * 10 + l >= l) by (nonlinear_arith);
}

/// An all-zero digit sequence has value zero.
pub proof fn lemma_digits_value_zero(d: Seq<u8>)
    requires
        forall|i: int| 0 <= i < d.len() ==> #[trigger] d[i] == 0,
    ensures
        digits_value(d) == 0,
    decreases d.len(),
{
    if d.len() > 0 {
        let d1 = d.drop_last();
        assert forall|i: int| 0 <= i < d1.len() implies #[trigger] d1[i] == 0 by {
            assert(d1[i] == d[i]);
        }
        lemma_digits_value_zero(d1);
        assert(d.last() == d[d.len() - 1]);
    }
}

/// A canonical digit sequence has a canonical value.
pub proof fn lemma_canonical_digits_value(d: Seq<u8>)
    requires
        canonical_digits(d),
    ensures
        (digits_value(d) == 0) <==> d.len() == 0,
        d.len() > 0 ==> digits_value(d) % 10 != 0,
{
    if d.len() > 0 {
        lemma_digits_value_last(d);
    }
}

// ---------------------------------------------------------------------------
// Facts about the comparison of values.

proof fn lemma_mul_pos_order(x: int, y: int, p: int)
    requires
        p > 0,
    ensures
        int_order(x * p, y * p) == int_order(x, y),
{
    if x < y {
        assert(x * p < y * p) by (nonlinear_arith)
            requires
                x < y,
                p > 0,
        ;
    } else if x > y {
        assert(x * p > y * p) by (nonlinear_arith)
            requires
                x > y,
                p > 0,
        ;
    }
}

/// Comparing at any common scale `k` below both scales gives `real_order`.
pub proof fn lemma_real_order_at(a: RealV, b: RealV, k: int)
    requires
        k <= a.scale,
        k <= b.scale,
    ensures
        int_order(a.scaled(k), b.scaled(k)) == real_order(a, b),
{
    let k0 = min_int(a.scale, b.scale);
    let d = (k0 - k) as nat;
    lemma_pow10_adds((a.scale - k0) as nat, d);
    lemma_pow10_adds((b.scale - k0) as nat, d);
    assert((a.scale - k) as nat == (a.scale - k0) as nat + d);
    assert((b.scale - k) as nat == (b.scale - k0) as nat + d);
    let pa = pow10((a.scale - k0) as nat);
    let pb = pow10((b.scale - k0) as nat);
    let pd = pow10(d);
    lemma_pow10_positive(d);
    assert(a.signed() * (pa * pd) == (a.signed() * pa) * pd) by (nonlinear_arith);
    assert(b.signed() * (pb * pd) == (b.signed() * pb) * pd) by (nonlinear_arith);
    lemma_mul_pos_order(a.scaled(k0), b.scaled(k0), pd as int);
}

/// `real_order` is antisymmetric.
pub proof fn lemma_real_order_antisym(a: RealV, b: RealV)
    ensures
        real_order(a, b) == -real_order(b, a),
{
}

/// `real_order` of a value with itself is zero.
pub proof fn lemma_real_order_refl(a: RealV)
    ensures
        real_order(a, a) == 0,
{
}

/// `real_order` is transitive.
pub proof fn lemma_real_order_trans(a: RealV, b: RealV, c: RealV)
    ensures
        real_order(a, b) <= 0 && real_order(b, c) <= 0 ==> real_order(a, c) <= 0,
        real_order(a, b) < 0 && real_order(b, c) <= 0 ==> real_order(a, c) < 0,
        real_order(a, b) <= 0 && real_order(b, c) < 0 ==> real_order(a, c) < 0,
        real_order(a, b) == 0 && real_order(b, c) == 0 ==> real_order(a, c) == 0,
{
    let k = min_int(a.scale, min_int(b.scale, c.scale));
    lemma_real_order_at(a, b, k);
    lemma_real_order_at(b, c, k);
    lemma_real_order_at(a, c, k);
}

/// The sign of a scaled value is the sign of the value.
proof fn lemma_scaled_sign(a: RealV, k: int)
    requires
        k <= a.scale,
    ensures
        a.signed() > 0 ==> a.scaled(k) > 0,
        a.signed() < 0 ==> a.scaled(k) < 0,
        a.signed() == 0 ==> a.scaled(k) == 0,
{
    let p = pow10((a.scale - k) as nat);
    lemma_pow10_positive((a.scale - k) as nat);
    let s = a.signed();
    assert(a.scaled(k) == s * p);
    assert(s == 0 ==> s * p == 0) by (nonlinear_arith);
    assert(s > 0 ==> s * p > 0) by (nonlinear_arith)
        requires
            p >= 1,
    ;
    assert(s < 0 ==> s * p < 0) by (nonlinear_arith)
        requires
            p >= 1,
    ;
}

/// Two canonical values that compare equal are identical.
pub proof fn lemma_real_canonical_unique(a: RealV, b: RealV)
    requires
        a.canonical(),
        b.canonical(),
        real_order(a, b) == 0,
    ensures
        a == b,
{
    let k = min_int(a.scale, b.scale);
    lemma_scaled_sign(a, k);
    lemma_scaled_sign(b, k);
    assert(a.scaled(k) == b.scaled(k));
    if a.mant != 0 && b.mant != 0 {
        assert(a.neg == b.neg);
        if a.scale != b.scale {
            if a.scale < b.scale {
                lemma_unique_scale(a, b);
            } else {
                lemma_unique_scale(b, a);
            }
        } else {
            assert(pow10(0) == 1);
            assert(a.scaled(k) == a.signed() * 1);
            assert(b.scaled(k) == b.signed() * 1);
        }
    }
}

proof fn lemma_unique_scale(a: RealV, b: RealV)
    requires
        a.mant != 0,
        b.mant != 0,
        a.neg == b.neg,
        b.mant % 10 != 0,
        a.scale < b.scale,
        a.scaled(a.scale) == b.scaled(a.scale),
    ensures
        a.mant % 10 == 0,
{
    let d = (b.scale - a.scale) as nat;
    assert(pow10(d) == 10 * pow10((d - 1) as nat));
    let q = pow10((d - 1) as nat);
    assert(pow10(0) == 1);
    assert(a.scaled(a.scale) == a.signed() * 1);
    assert(b.scaled(a.scale) == b.signed() * (10 * q));
    let am = a.mant as int;
    let bm = b.mant as int;
    if a.neg {
        assert(-am == -bm * (10 * q));
        assert(am == bm * (10 * q)) by (nonlinear_arith)
            requires
                -am == -bm * (10 * q),
        ;
    } else {
        assert(am == bm * (10 * q));
    }
    assert((bm * q * 10) % 10 == 0) by (nonlinear_arith);
    assert(bm * (10 * q) == bm * q * 10) by (nonlinear_arith);
}

/// Digit-by-digit comparison of equally aligned digit sequences is the
/// comparison of their values.
proof fn lemma_lex_digits(x: Seq<u8>, y: Seq<u8>)
    requires
        all_digits(x),
        all_digits(y),
        x.len() > 0 ==> x.last() != 0,
        y.len() > 0 ==> y.last() != 0,
    ensures
        ({
            let l = if x.len() >= y.len() { x.len() } else { y.len() };
            int_order(
                (digits_value(x) * pow10((l - x.len()) as nat)) as int,
                (digits_value(y) * pow10((l - y.len()) as nat)) as int,
            ) == lex_digits(x, y)
        }),
    decreases x.len(),
{
    let l = if x.len() >= y.len() { x.len() } else { y.len() };
    if x.len() == 0 && y.len() == 0 {
        assert(digits_value(x) == 0 && digits_value(y) == 0);
        assert(0 * pow10(0) == 0);
    } else if x.len() == 0 {
        lemma_digits_value_last(y);
        assert(y.last() == y[y.len() - 1]);
        assert(pow10(0) == 1);
        let p = pow10((l - x.len()) as nat);
        assert(digits_value(x) == 0);
        assert(0 * p == 0);
        let vy = digits_value(y);
        assert(vy * 1 == vy);
    } else if y.len() == 0 {
        lemma_digits_value_last(x);
        assert(x.last() == x[x.len() - 1]);
        assert(pow10(0) == 1);
        let p = pow10((l - y.len()) as nat);
        assert(digits_value(y) == 0);
        assert(0 * p == 0);
        let vx = digits_value(x);
        assert(vx * 1 == vx);
    } else {
        let x1 = x.drop_first();
        let y1 = y.drop_first();
        assert(all_digits(x1)) by {
            assert forall|i: int| 0 <= i < x1.len() implies #[trigger] x1[i] < 10 by {
                assert(x1[i] == x[i + 1]);
            }
        }
        assert(all_digits(y1)) by {
            assert forall|i: int| 0 <= i < y1.len() implies #[trigger] y1[i] < 10 by {
                assert(y1[i] == y[i + 1]);
            }
        }
        if x1.len() > 0 {
            assert(x1.last() == x.last());
        }
        if y1.len() > 0 {
            assert(y1.last() == y.last());
        }
        lemma_lex_digits(x1, y1);
        lemma_digits_value_first(x);
        lemma_digits_value_first(y);
        lemma_digits_value_bound(x1);
        lemma_digits_value_bound(y1);
        let ex = (l - x.len()) as nat;
        let ey = (l - y.len()) as nat;
        let top = (l - 1) as nat;
        lemma_pow10_adds(x1.len(), ex);
        lemma_pow10_adds(y1.len(), ey);
        assert(x1.len() + ex == top);
        assert(y1.len() + ey == top);
        let px = pow10(ex);
        let py = pow10(ey);
        let pt = pow10(top);
        let vx1 = digits_value(x1);
        let vy1 = digits_value(y1);
        let vx = digits_value(x);
        let vy = digits_value(y);
        assert(vx == x[0] * pow10(x1.len()) + vx1);
        assert(vy == y[0] * pow10(y1.len()) + vy1);
        lemma_pow10_positive(ex);
        lemma_pow10_positive(ey);
        // vx * px == x0 * pt + vx1 * px with vx1 * px < pt.
        assert(vx * px == x[0] * pt + vx1 * px) by (nonlinear_arith)
            requires
                vx == x[0] * pow10(x1.len()) + vx1,
                pt == pow10(x1.len()) * px,
        ;
        assert(vy * py == y[0] * pt + vy1 * py) by (nonlinear_arith)
            requires
                vy == y[0] * pow10(y1.len()) + vy1,
                pt == pow10(y1.len()) * py,
        ;
        assert(vx1 * px < pt) by (nonlinear_arith)
            requires
                vx1 < pow10(x1.len()),
                pt == pow10(x1.len()) * px,
                px >= 1,
        ;
        assert(vy1 * py < pt) by (nonlinear_arith)
            requires
                vy1 < pow10(y1.len()),
                pt == pow10(y1.len()) * py,
                py >= 1,
        ;
        let x0 = x[0] as int;
        let y0 = y[0] as int;
        if x0 < y0 {
            assert(x0 * pt + pt <= y0 * pt) by (nonlinear_arith)
                requires
                    x0 < y0,
                    pt >= 0,
            ;
        } else if x0 > y0 {
            assert(y0 * pt + pt <= x0 * pt) by (nonlinear_arith)
                requires
                    x0 > y0,
                    pt >= 0,
            ;
        }
    }
}

/// The comparison of two positive canonical magnitudes: first by the
/// position of the leading digit, then digit by digit.
pub proof fn lemma_magnitude_order(dx: Seq<u8>, sx: int, dy: Seq<u8>, sy: int)
    requires
        canonical_digits(dx),
        canonical_digits(dy),
        dx.len() > 0,
        dy.len() > 0,
    ensures
        real_order(
            RealV { neg: false, mant: digits_value(dx), scale: sx },
            RealV { neg: false, mant: digits_value(dy), scale: sy },
        ) == if dx.len() + sx != dy.len() + sy {
            int_order(dx.len() + sx, dy.len() + sy)
        } else {
            lex_digits(dx, dy)
        },
{
    let a = RealV { neg: false, mant: digits_value(dx), scale: sx };
    let b = RealV { neg: false, mant: digits_value(dy), scale: sy };
    let k = min_int(sx, sy);
    let ox = dx.len() + sx;
    let oy = dy.len() + sy;
    lemma_digits_value_bound(dx);
    lemma_digits_value_bound(dy);
    lemma_digits_value_lower(dx);
    lemma_digits_value_lower(dy);
    let vx = digits_value(dx);
    let vy = digits_value(dy);
    let ex = (sx - k) as nat;
    let ey = (sy - k) as nat;
    let px = pow10(ex);
    let py = pow10(ey);
    assert(a.scaled(k) == vx * px);
    assert(b.scaled(k) == vy * py);
    if ox < oy {
        // vx * px < 10^(ox - k) <= 10^(oy - 1 - k) <= vy * py
        lemma_pow10_adds(dx.len(), ex);
        lemma_pow10_adds((dy.len() - 1) as nat, ey);
        lemma_pow10_monotone(dx.len() + ex, (dy.len() - 1) as nat + ey);
        lemma_pow10_positive(ex);
        lemma_pow10_positive(ey);
        assert(vx * px < pow10(dx.len()) * px) by (nonlinear_arith)
            requires
                vx < pow10(dx.len()),
                px >= 1,
        ;
        assert(pow10((dy.len() - 1) as nat) * py <= vy * py) by (nonlinear_arith)
            requires
                pow10((dy.len() - 1) as nat) <= vy,
                py >= 1,
        ;
    } else if ox > oy {
        lemma_pow10_adds(dy.len(), ey);
        lemma_pow10_adds((dx.len() - 1) as nat, ex);
        lemma_pow10_monotone(dy.len() + ey, (dx.len() - 1) as nat + ex);
        lemma_pow10_positive(ex);
        lemma_pow10_positive(ey);
        assert(vy * py < pow10(dy.len()) * py) by (nonlinear_arith)
            requires
                vy < pow10(dy.len()),
                py >= 1,
        ;
        assert(pow10((dx.len() - 1) as nat) * px <= vx * px) by (nonlinear_arith)
            requires
                pow10((dx.len() - 1) as nat) <= vx,
                px >= 1,
        ;
    } else {
        lemma_lex_digits(dx, dy);
        let l = if dx.len() >= dy.len() { dx.len() } else { dy.len() };
        assert(ex == (l - dx.len()) as nat);
        assert(ey == (l - dy.len()) as nat);
    }
}

// ---------------------------------------------------------------------------
// The range of doubles.

/// The digit a character stands for, `0` for anything but `0`-`9`.
pub open spec fn digit_char_value(c: char) -> u8 {
    if '0' <= c && c <= '9' { ((c as u32) - 0x30) as u8 } else { 0 }
}

/// The digits of a text of decimal digits.
pub open spec fn text_digits(s: Seq<char>) -> Seq<u8> {
    s.map_values(|c: char| digit_char_value(c))
}

/// `2^1024 - 2^970` written in decimal: the least magnitude that a double
/// rounds to infinity (halfway between the largest double and `2^1024`).
pub open spec fn overflow_text() -> Seq<char> {
    "179769313486231580793728971405303415079934132710037826936173778980444968292764750946649017977587207096330286416692887910946555547851940402630657488671505820681908902000708383676273854845817711531764475730270069855571366959622842914819860834936475292719074168444365510704342711559699508093042880177904174497792"@
}

/// `5^1075` written in decimal; `5^1075 × 10^-1075 = 2^-1075` is the largest
/// magnitude that a double rounds to zero (halfway between zero and the
/// least subnormal double, `2^-1074`).
pub open spec fn underflow_text() -> Seq<char> {
    "24703282292062327208828439643411068618252990130716238221279284125033775363510437593264991818081799618989828234772285886546332835517796989819938739800539093906315035659515570226392290858392449105184435931802849936536152500319370457678249219365623669863658480757001585769269903706311928279558551332927834338409351978015531246597263579574622766465272827220056374006485499977096599470454020828166226237857393450736339007967761930577506740176324673600968951340535537458516661134223766678604162159680461914467291840300530057530849048765391711386591646239524912623653881879636239373280423891018672348497668235089863388587925628302755995657524455507255189313690836254779186948667994968324049705821028513185451396213837722826145437693412532098591327667236328125"@
}

/// The least magnitude that overflows a double.
pub open spec fn double_overflow() -> RealV {
    RealV { neg: false, mant: digits_value(text_digits(overflow_text())), scale: 0 }
}

/// The largest magnitude that underflows a double to zero.
pub open spec fn double_underflow() -> RealV {
    RealV { neg: false, mant: digits_value(text_digits(underflow_text())), scale: -1075 }
}

/// The absolute value.
pub open spec fn magnitude(r: RealV) -> RealV {
    RealV { neg: false, mant: r.mant, scale: r.scale }
}

/// What a double keeps of the value `r`: a magnitude that overflows becomes
/// `±10^309` (above every double, as infinity is), a magnitude that
/// underflows becomes zero, and any other value stays as it is.
pub open spec fn double_range(r: RealV) -> RealV {
    if real_order(magnitude(r), double_overflow()) >= 0 {
        RealV { neg: r.neg, mant: 1, scale: 309 }
    } else if real_order(magnitude(r), double_underflow()) <= 0 {
        RealV { neg: false, mant: 0, scale: 0 }
    } else {
        r
    }
}

/// If `b` and `c` have the same value, comparing with either is the same.
pub proof fn lemma_real_order_congruent(x: RealV, b: RealV, c: RealV)
    requires
        real_order(b, c) == 0,
    ensures
        real_order(x, b) == real_order(x, c),
{
    lemma_real_order_antisym(b, c);
    lemma_real_order_trans(x, b, c);
    lemma_real_order_trans(x, c, b);
    lemma_real_order_antisym(x, b);
    lemma_real_order_antisym(x, c);
    lemma_real_order_trans(b, x, c);
    lemma_real_order_trans(c, x, b);
}

/// The digits of a text of decimal digits.
fn digits_of_text(s: &str) -> (r: Vec<u8>)
    ensures
        r@ == text_digits(s@),
        all_digits(r@),
{
    let mut out: Vec<u8> = Vec::new();
    let ghost cs = s@;
    for c in it: s.chars()
        invariant
            it.seq() == cs,
            out@ == text_digits(it.seq().take(it.index() as int)),
            all_digits(out@),
    {
        let ghost i = it.index();
        let d: u8 = if '0' <= c && c <= '9' { ((c as u32) - 0x30) as u8 } else { 0 };
        out.push(d);
        proof {
            assert(text_digits(it.seq().take(i + 1)) =~= text_digits(it.seq().take(i as int)).push(d));
        }
    }
    assert(cs.take(cs.len() as int) =~= cs);
    out
}

/// The least magnitude that overflows a double, in canonical form.
pub fn double_overflow_value() -> (r: RealNum)
    ensures
        real_order(r@, double_overflow()) == 0,
{
    let d = digits_of_text("179769313486231580793728971405303415079934132710037826936173778980444968292764750946649017977587207096330286416692887910946555547851940402630657488671505820681908902000708383676273854845817711531764475730270069855571366959622842914819860834936475292719074168444365510704342711559699508093042880177904174497792");
    RealNum::from_digits(false, d, 0)
}

/// The largest magnitude that underflows a double, in canonical form.
pub fn double_underflow_value() -> (r: RealNum)
    ensures
        real_order(r@, double_underflow()) == 0,
{
    let d = digits_of_text("24703282292062327208828439643411068618252990130716238221279284125033775363510437593264991818081799618989828234772285886546332835517796989819938739800539093906315035659515570226392290858392449105184435931802849936536152500319370457678249219365623669863658480757001585769269903706311928279558551332927834338409351978015531246597263579574622766465272827220056374006485499977096599470454020828166226237857393450736339007967761930577506740176324673600968951340535537458516661134223766678604162159680461914467291840300530057530849048765391711386591646239524912623653881879636239373280423891018672348497668235089863388587925628302755995657524455507255189313690836254779186948667994968324049705821028513185451396213837722826145437693412532098591327667236328125");
    RealNum::from_digits(false, d, -1075)
}

// ---------------------------------------------------------------------------
// The executable type.

/// An exact decimal number, kept canonical: its digits have no leading and no
/// trailing zero, and zero is `+0 × 10^0`.
#[derive(Debug)]
pub struct RealNum {
    negative: bool,
    digits: Vec<u8>,
    scale: i128,
}

impl View for RealNum {
    type V = RealV;

    closed spec fn view(&self) -> RealV {
        RealV { neg: self.negative, mant: digits_value(self.digits@), scale: self.scale as int }
    }
}

impl RealNum {
    #[verifier::type_invariant]
    closed spec fn wf(self) -> bool {
        &&& canonical_digits(self.digits@)
        &&& self.digits@.len() == 0 ==> !self.negative && self.scale == 0
        &&& -SCALE_LIMIT <= self.scale <= SCALE_LIMIT
    }

    /// Zero.
    pub fn zero() -> (r: RealNum)
        ensures
            r@ == (RealV { neg: false, mant: 0, scale: 0 }),
    {
        RealNum { negative: false, digits: Vec::new(), scale: 0 }
    }

    /// The number `±value(digits) × 10^scale`, in canonical form.
    pub fn from_digits(negative: bool, digits: Vec<u8>, scale: i128) -> (r: RealNum)
        requires
            all_digits(digits@),
            -SCALE_INPUT_LIMIT <= scale <= SCALE_INPUT_LIMIT,
        ensures
            real_order(r@, RealV { neg: negative, mant: digits_value(digits@), scale: scale as int })
                == 0,
            r@.canonical(),
    {
        let n = digits.len();
        let mut first: usize = 0;
        while first < n && digits[first] == 0
            invariant
                0 <= first <= n,
                n == digits.len(),
                forall|i: int| 0 <= i < first ==> #[trigger] digits@[i] == 0,
            decreases n - first,
        {
            first = first + 1;
        }
        if first == n {
            let r = RealNum::zero();
            proof {
                lemma_digits_value_zero(digits@);
                let orig = RealV { neg: negative, mant: digits_value(digits@), scale: scale as int };
                let k = min_int(r@.scale, orig.scale);
                assert(orig.signed() == 0);
                assert(r@.signed() == 0);
                assert(orig.scaled(k) == 0 * pow10((orig.scale - k) as nat));
                assert(r@.scaled(k) == 0 * pow10((r@.scale - k) as nat));
                assert(0 * pow10((orig.scale - k) as nat) == 0);
                assert(0 * pow10((r@.scale - k) as nat) == 0);
            }
            return r;
        }
        let mut last: usize = n - 1;
        while digits[last] == 0
            invariant
                first <= last < n,
                n == digits.len(),
                digits@[first as int] != 0,
                forall|i: int| last < i < n ==> #[trigger] digits@[i] == 0,
            decreases last,
        {
            last = last - 1;
        }
        let mut kept: Vec<u8> = Vec::new();
        let mut i = first;
        while i <= last
            invariant
                first <= i <= last + 1,
                last < n,
                n == digits.len(),
                kept@ =~= digits@.subrange(first as int, i as int),
            decreases last + 1 - i,
        {
            kept.push(digits[i]);
            i = i + 1;
        }
        let trailing = (n - 1 - last) as i128;
        let new_scale = scale + trailing;
        proof {
            let d = digits@;
            let lead = d.subrange(0, first as int);
            let mid = d.subrange(first as int, last + 1);
            let tail = d.subrange(last + 1, n as int);
            assert(d =~= lead + (mid + tail));
            assert forall|j: int| 0 <= j < lead.len() implies #[trigger] lead[j] == 0 by {
                assert(lead[j] == d[j]);
            }
            assert forall|j: int| 0 <= j < tail.len() implies #[trigger] tail[j] == 0 by {
                assert(tail[j] == d[last + 1 + j]);
            }
            lemma_digits_value_zero(lead);
            lemma_digits_value_zero(tail);
            lemma_digits_value_concat(lead, mid + tail);
            lemma_digits_value_concat(mid, tail);
            let t = tail.len();
            assert(digits_value(d) == digits_value(mid) * pow10(t));
            assert(mid =~= kept@);
            assert(all_digits(kept@)) by {
                assert forall|j: int| 0 <= j < kept@.len() implies #[trigger] kept@[j] < 10 by {
                    assert(kept@[j] == d[first + j]);
                }
            }
            assert(kept@[0] == d[first as int]);
            assert(kept@.last() == d[last as int]);
            lemma_canonical_digits_value(kept@);
            let orig = RealV { neg: negative, mant: digits_value(d), scale: scale as int };
            let canon = RealV { neg: negative, mant: digits_value(kept@), scale: new_scale as int };
            assert(min_int(canon.scale, orig.scale) == scale as int);
            assert(pow10(0) == 1);
            assert((canon.scale - scale) as nat == t);
            let vm = digits_value(mid) as int;
            let pt = pow10(t) as int;
            assert(orig.scaled(scale as int) == orig.signed() * 1);
            assert(canon.scaled(scale as int) == canon.signed() * pt);
            if negative {
                assert(-(vm * pt) == (-vm) * pt) by (nonlinear_arith);
            }
            assert(canon.scaled(scale as int) == orig.scaled(scale as int));
        }
        RealNum { negative, digits: kept, scale: new_scale }
    }

    /// The integer `v` as a real.
    pub fn from_int(v: i128) -> (r: RealNum)
        ensures
            real_order(r@, real_of_int(v as int)) == 0,
            r@.canonical(),
    {
        let negative = v < 0;
        let mut m: u128 = if v < 0 {
            if v == i128::MIN { 0x8000_0000_0000_0000_0000_0000_0000_0000u128 } else { (-v) as u128 }
        } else {
            v as u128
        };
        let ghost total: nat = m as nat;
        let r = Self::from_magnitude(negative, m, 0);
        proof {
            assert(real_of_int(v as int).mant == total);
        }
        r
    }

    /// The number `±m × 10^scale`.
    pub fn from_magnitude(negative: bool, m: u128, scale: i128) -> (r: RealNum)
        requires
            -SCALE_INPUT_LIMIT <= scale <= SCALE_INPUT_LIMIT,
        ensures
            real_order(r@, RealV { neg: negative, mant: m as nat, scale: scale as int }) == 0,
            r@.canonical(),
    {
        let mut v = m;
        let mut out: Vec<u8> = Vec::new();
        proof {
            assert(pow10(0) == 1);
            assert(digits_value(out@) == 0);
            assert(m as nat == m as nat * 1);
        }
        while v > 0
            invariant
                m as nat == v as nat * pow10(out@.len()) + digits_value(out@),
                all_digits(out@),
            decreases v,
        {
            let d = (v % 10) as u8;
            let ghost old_out = out@;
            let ghost old_v = v;
            out.insert(0, d);
            v = v / 10;
            proof {
                assert(out@ =~= seq![d] + old_out);
                lemma_digits_value_concat(seq![d], old_out);
                assert(seq![d].drop_last() =~= Seq::<u8>::empty());
                assert(digits_value(Seq::<u8>::empty()) == 0);
                assert(seq![d].last() == d);
                assert(digits_value(seq![d]) == d);
                let p = pow10(old_out.len());
                assert(pow10(out@.len()) == 10 * p);
                assert(old_v == v * 10 + d);
                assert(old_v as nat * p == v as nat * (10 * p) + d * p) by (nonlinear_arith)
                    requires
                        old_v == v * 10 + d,
                ;
                assert forall|j: int| 0 <= j < out@.len() implies #[trigger] out@[j] < 10 by {
                    if j > 0 {
                        assert(out@[j] == old_out[j - 1]);
                    }
                }
            }
        }
        proof {
            assert(0 * pow10(out@.len()) == 0) by (nonlinear_arith);
        }
        Self::from_digits(negative, out, scale)
    }

    /// The absolute value.
    pub fn abs(&self) -> (r: RealNum)
        ensures
            r@ == magnitude(self@),
    {
        proof {
            use_type_invariant(self);
        }
        RealNum { negative: false, digits: self.digits.clone(), scale: self.scale }
    }

    /// Whether the number is below zero.
    pub fn is_negative(&self) -> (r: bool)
        ensures
            r == self@.neg,
    {
        self.negative
    }

    /// The digits of the mantissa, most significant first.
    pub fn mantissa_digits(&self) -> (r: Vec<u8>)
        ensures
            digits_value(r@) == self@.mant,
            canonical_digits(r@),
    {
        proof {
            use_type_invariant(self);
        }
        self.digits.clone()
    }

    /// The power of ten that multiplies the mantissa.
    pub fn scale(&self) -> (r: i128)
        ensures
            r == self@.scale,
    {
        self.scale
    }

    /// Three-way comparison of values: -1, 0 or 1.
    pub fn compare(&self, other: &RealNum) -> (r: i8)
        ensures
            r == real_order(self@, other@),
    {
        proof {
            use_type_invariant(self);
            use_type_invariant(other);
            lemma_canonical_digits_value(self.digits@);
            lemma_canonical_digits_value(other.digits@);
            let k = min_int(self@.scale, other@.scale);
            lemma_scaled_sign(self@, k);
            lemma_scaled_sign(other@, k);
        }
        let sa: i8 = if self.digits.len() == 0 { 0 } else if self.negative { -1 } else { 1 };
        let sb: i8 = if other.digits.len() == 0 { 0 } else if other.negative { -1 } else { 1 };
        if sa < sb {
            return -1;
        }
        if sa > sb {
            return 1;
        }
        if sa == 0 {
            return 0;
        }
        let m = compare_magnitudes(&self.digits, self.scale, &other.digits, other.scale);
        proof {
            let pa = RealV { neg: false, mant: self@.mant, scale: self@.scale };
            let pb = RealV { neg: false, mant: other@.mant, scale: other@.scale };
            lemma_magnitude_order(self.digits@, self.scale as int, other.digits@, other.scale as int);
            let k = min_int(self@.scale, other@.scale);
            if self.negative {
                assert(self@.scaled(k) == -pa.scaled(k)) by (nonlinear_arith)
                    requires
                        self@.signed() == -pa.signed(),
                        self@.scaled(k) == self@.signed() * pow10((self@.scale - k) as nat),
                        pa.scaled(k) == pa.signed() * pow10((pa.scale - k) as nat),
                        pa.scale == self@.scale,
                ;
                assert(other@.scaled(k) == -pb.scaled(k)) by (nonlinear_arith)
                    requires
                        other@.signed() == -pb.signed(),
                        other@.scaled(k) == other@.signed() * pow10((other@.scale - k) as nat),
                        pb.scaled(k) == pb.signed() * pow10((pb.scale - k) as nat),
                        pb.scale == other@.scale,
                ;
            }
        }
        if sa < 0 {
            -m
        } else {
            m
        }
    }
}

impl Clone for RealNum {
    fn clone(&self) -> (r: Self)
        ensures
            r@ == self@,
    {
        proof {
            use_type_invariant(self);
        }
        let mut digits: Vec<u8> = Vec::new();
        let mut i: usize = 0;
        while i < self.digits.len()
            invariant
                i <= self.digits.len(),
                digits@ == self.digits@.subrange(0, i as int),
            decreases self.digits.len() - i,
        {
            digits.push(self.digits[i]);
            i = i + 1;
            assert(digits@ =~= self.digits@.subrange(0, i as int));
        }
        assert(digits@ =~= self.digits@);
        RealNum { negative: self.negative, digits, scale: self.scale }
    }
}

impl PartialEq for RealNum {
    fn eq(&self, other: &Self) -> (r: bool) {
        proof {
            use_type_invariant(self);
            use_type_invariant(other);
            lemma_canonical_digits_value(self.digits@);
            lemma_canonical_digits_value(other.digits@);
            if real_order(self@, other@) == 0 {
                lemma_real_canonical_unique(self@, other@);
            }
        }
        self.compare(other) == 0
    }
}

impl vstd::std_specs::cmp::PartialEqSpecImpl for RealNum {
    open spec fn obeys_eq_spec() -> bool {
        true
    }

    open spec fn eq_spec(&self, other: &Self) -> bool {
        self@ == other@
    }
}

impl Eq for RealNum {
}

/// Compares `value(dx) × 10^sx` with `value(dy) × 10^sy` for canonical,
/// nonzero digit sequences.
fn compare_magnitudes(dx: &Vec<u8>, sx: i128, dy: &Vec<u8>, sy: i128) -> (r: i8)
    requires
        canonical_digits(dx@),
        canonical_digits(dy@),
        dx@.len() > 0,
        dy@.len() > 0,
        -SCALE_LIMIT <= sx <= SCALE_LIMIT,
        -SCALE_LIMIT <= sy <= SCALE_LIMIT,
    ensures
        r == (if dx@.len() + sx != dy@.len() + sy {
            int_order(dx@.len() + sx, dy@.len() + sy)
        } else {
            lex_digits(dx@, dy@)
        }),
{
    let ox: i128 = dx.len() as i128 + sx;
    let oy: i128 = dy.len() as i128 + sy;
    if ox < oy {
        return -1;
    }
    if ox > oy {
        return 1;
    }
    let mut i: usize = 0;
    assert(dx@.skip(0) =~= dx@);
    assert(dy@.skip(0) =~= dy@);
    while i < dx.len() && i < dy.len()
        invariant
            0 <= i <= dx.len(),
            i <= dy.len(),
            dx@.len() + sx == dy@.len() + sy,
            lex_digits(dx@, dy@) == lex_digits(dx@.skip(i as int), dy@.skip(i as int)),
        decreases dx.len() - i,
    {
        assert(dx@.skip(i as int)[0] == dx@[i as int]);
        assert(dy@.skip(i as int)[0] == dy@[i as int]);
        assert(dx@.skip(i as int).drop_first() =~= dx@.skip(i + 1));
        assert(dy@.skip(i as int).drop_first() =~= dy@.skip(i + 1));
        if dx[i] < dy[i] {
            return -1;
        }
        if dx[i] > dy[i] {
            return 1;
        }
        i = i + 1;
    }
    if dx.len() == dy.len() {
        0
    } else if i == dx.len() {
        -1
    } else {
        1
    }
}

} // verus!
