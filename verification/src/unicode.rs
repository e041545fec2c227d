//! Character classification for the key scanner: decimal digits (which join
//! into multi-digit numbers), isolated digit characters (each a number of its
//! own), other numeric characters (numbers only when numbers are read as
//! reals) and the special case folds.
use vstd::prelude::*;
use crate::decimal::{
    RealNum, double_overflow, double_overflow_value, double_underflow, double_underflow_value,
    real_order,
};
use crate::unicode_data::{
    casefold_specials, casefold_specials_table, decimal_zeros, decimal_zeros_table, isolated_digits,
    isolated_digits_table, numeric_values, numeric_values_table,
};

verus! {

/// First run of ten decimal digits, in `zeros`, that holds code point `cp`.
pub open spec fn run_digit(zeros: Seq<u32>, cp: u32) -> Option<u8>
    decreases zeros.len(),
{
    if zeros.len() == 0 {
        None
    } else if zeros[0] <= cp && cp < zeros[0] + 10 {
        Some((cp - zeros[0]) as u8)
    } else {
        run_digit(zeros.drop_first(), cp)
    }
}

/// The decimal-digit value of `c`: ASCII `0`-`9`, or the position of `c` in a
/// run of ten decimal digits (general category Nd) of the table.
pub open spec fn decimal_value(c: char) -> Option<u8> {
    if (c as u32) < 0x80 {
        if '0' <= c && c <= '9' { Some(((c as u32) - 0x30) as u8) } else { None }
    } else {
        run_digit(decimal_zeros(), c as u32)
    }
}

pub open spec fn is_decimal(c: char) -> bool {
    decimal_value(c) is Some
}

/// First entry of `table` for code point `cp`.
pub open spec fn digit_entry(table: Seq<(u32, u8)>, cp: u32) -> Option<u8>
    decreases table.len(),
{
    if table.len() == 0 {
        None
    } else if table[0].0 == cp {
        Some(table[0].1)
    } else {
        digit_entry(table.drop_first(), cp)
    }
}

/// The digit value of a character that has one without being a decimal digit
/// (circled ①, superscript ², ...): such a character is a number on its own.
pub open spec fn isolated_value(c: char) -> Option<u8> {
    if (c as u32) < 0x80 { None } else { digit_entry(isolated_digits(), c as u32) }
}

/// First entry of `table` for code point `cp`.
pub open spec fn numeric_entry(table: Seq<(u32, u64, i8)>, cp: u32) -> Option<(u64, i8)>
    decreases table.len(),
{
    if table.len() == 0 {
        None
    } else if table[0].0 == cp {
        Some((table[0].1, table[0].2))
    } else {
        numeric_entry(table.drop_first(), cp)
    }
}

/// The numeric value `(mantissa, exponent)` of a character that has one but no
/// digit value (Roman numerals, fractions, ...).
pub open spec fn numeric_value(c: char) -> Option<(u64, i8)> {
    if (c as u32) < 0x80 { None } else { numeric_entry(numeric_values(), c as u32) }
}

/// The characters of a fold entry of length `n`.
pub open spec fn fold_chars(n: u8, a: char, b: char, d: char) -> Seq<char> {
    if n <= 1 { seq![a] } else if n == 2 { seq![a, b] } else { seq![a, b, d] }
}

/// First entry of `table` for code point `cp`, as the sequence of its characters.
pub open spec fn fold_entry(table: Seq<(u32, u8, char, char, char)>, cp: u32) -> Option<Seq<char>>
    decreases table.len(),
{
    if table.len() == 0 {
        None
    } else if table[0].0 == cp {
        Some(fold_chars(table[0].1, table[0].2, table[0].3, table[0].4))
    } else {
        fold_entry(table.drop_first(), cp)
    }
}

/// The full case fold of `c` where it differs from the lowercase mapping.
pub open spec fn special_fold(c: char) -> Option<Seq<char>> {
    if (c as u32) < 0x80 { None } else { fold_entry(casefold_specials(), c as u32) }
}

/// The character data and the limits of the range of doubles, loaded once
/// and shared by the scanner.
pub struct UnicodeTables {
    zeros: Vec<u32>,
    isolated: Vec<(u32, u8)>,
    numeric: Vec<(u32, u64, i8)>,
    folds: Vec<(u32, u8, char, char, char)>,
    overflow: RealNum,
    underflow: RealNum,
}

impl UnicodeTables {
    /// The tables hold the character data.
    pub closed spec fn wf(&self) -> bool {
        &&& self.zeros@ == decimal_zeros()
        &&& self.isolated@ == isolated_digits()
        &&& self.numeric@ == numeric_values()
        &&& self.folds@ == casefold_specials()
        &&& real_order(self.overflow@, double_overflow()) == 0
        &&& real_order(self.underflow@, double_underflow()) == 0
    }

    /// The least magnitude that overflows a double.
    pub fn overflow(&self) -> (r: &RealNum)
        requires
            self.wf(),
        ensures
            real_order(r@, double_overflow()) == 0,
    {
        &self.overflow
    }

    /// The largest magnitude that underflows a double to zero.
    pub fn underflow(&self) -> (r: &RealNum)
        requires
            self.wf(),
        ensures
            real_order(r@, double_underflow()) == 0,
    {
        &self.underflow
    }

    pub fn new() -> (r: UnicodeTables)
        ensures
            r.wf(),
    {
        UnicodeTables {
            zeros: decimal_zeros_table(),
            isolated: isolated_digits_table(),
            numeric: numeric_values_table(),
            folds: casefold_specials_table(),
            overflow: double_overflow_value(),
            underflow: double_underflow_value(),
        }
    }
}

/// Decimal-digit value of `c`.
pub fn unicode_digit(t: &UnicodeTables, c: char) -> (r: Option<u8>)
    requires
        t.wf(),
    ensures
        r == decimal_value(c),
        r matches Some(d) ==> d < 10,
{
    let cp = c as u32;
    if cp < 0x80 {
        if '0' <= c && c <= '9' {
            return Some((cp - 0x30) as u8);
        }
        return None;
    }
    let zeros = &t.zeros;
    let mut i: usize = 0;
    assert(zeros@.skip(0) =~= zeros@);
    while i < zeros.len()
        invariant
            0 <= i <= zeros.len(),
            cp == c as u32,
            cp >= 0x80,
            zeros@ == decimal_zeros(),
            run_digit(zeros@, cp) == run_digit(zeros@.skip(i as int), cp),
        decreases zeros.len() - i,
    {
        assert(zeros@.skip(i as int).drop_first() =~= zeros@.skip(i + 1));
        assert(zeros@.skip(i as int)[0] == zeros@[i as int]);
        let z = zeros[i];
        if z <= cp && cp - z < 10 {
            return Some((cp - z) as u8);
        }
        i = i + 1;
    }
    None
}

/// Whether `c` is a decimal digit.
pub fn is_digit_char(t: &UnicodeTables, c: char) -> (r: bool)
    requires
        t.wf(),
    ensures
        r == is_decimal(c),
{
    unicode_digit(t, c).is_some()
}

/// Digit value of an isolated digit character.
pub fn unicode_isolated_digit(t: &UnicodeTables, c: char) -> (r: Option<u8>)
    requires
        t.wf(),
    ensures
        r == isolated_value(c),
{
    let cp = c as u32;
    if cp < 0x80 {
        return None;
    }
    let table = &t.isolated;
    let mut i: usize = 0;
    assert(table@.skip(0) =~= table@);
    while i < table.len()
        invariant
            0 <= i <= table.len(),
            cp == c as u32,
            cp >= 0x80,
            table@ == isolated_digits(),
            digit_entry(table@, cp) == digit_entry(table@.skip(i as int), cp),
        decreases table.len() - i,
    {
        assert(table@.skip(i as int).drop_first() =~= table@.skip(i + 1));
        assert(table@.skip(i as int)[0] == table@[i as int]);
        let (k, v) = table[i];
        if k == cp {
            return Some(v);
        }
        i = i + 1;
    }
    None
}

/// Numeric value of a numeric non-digit character.
pub fn unicode_numeric(t: &UnicodeTables, c: char) -> (r: Option<(u64, i8)>)
    requires
        t.wf(),
    ensures
        r == numeric_value(c),
{
    let cp = c as u32;
    if cp < 0x80 {
        return None;
    }
    let table = &t.numeric;
    let mut i: usize = 0;
    assert(table@.skip(0) =~= table@);
    while i < table.len()
        invariant
            0 <= i <= table.len(),
            cp == c as u32,
            cp >= 0x80,
            table@ == numeric_values(),
            numeric_entry(table@, cp) == numeric_entry(table@.skip(i as int), cp),
        decreases table.len() - i,
    {
        assert(table@.skip(i as int).drop_first() =~= table@.skip(i + 1));
        assert(table@.skip(i as int)[0] == table@[i as int]);
        let (k, m, e) = table[i];
        if k == cp {
            return Some((m, e));
        }
        i = i + 1;
    }
    None
}

/// Special case fold of `c`, as characters.
pub fn casefold_special(t: &UnicodeTables, c: char) -> (r: Option<Vec<char>>)
    requires
        t.wf(),
    ensures
        r is Some <==> special_fold(c) is Some,
        r matches Some(v) ==> v@ == special_fold(c)->0,
{
    let cp = c as u32;
    if cp < 0x80 {
        return None;
    }
    let table = &t.folds;
    let mut i: usize = 0;
    assert(table@.skip(0) =~= table@);
    while i < table.len()
        invariant
            0 <= i <= table.len(),
            cp == c as u32,
            cp >= 0x80,
            table@ == casefold_specials(),
            fold_entry(table@, cp) == fold_entry(table@.skip(i as int), cp),
        decreases table.len() - i,
    {
        assert(table@.skip(i as int).drop_first() =~= table@.skip(i + 1));
        assert(table@.skip(i as int)[0] == table@[i as int]);
        let (k, n, a, b, d) = table[i];
        if k == cp {
            let mut out: Vec<char> = Vec::new();
            out.push(a);
            if n >= 2 {
                out.push(b);
            }
            if n >= 3 {
                out.push(d);
            }
            assert(out@ =~= fold_chars(n, a, b, d));
            return Some(out);
        }
        i = i + 1;
    }
    None
}

} // verus!
