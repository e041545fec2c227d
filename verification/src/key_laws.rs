//! Properties of keys and flags stated by what they do to concrete text:
//! text without digits compares lexicographically, case-insensitive keys are
//! the keys of the lowercased text, letter grouping doubles every character,
//! and each command-line flag switches on exactly its own flag.
use vstd::prelude::*;
use crate::api::{human_sort_key, ignorecase_ns, natsort_key_of};
use crate::cli::{args_alg, names_alg};
use crate::compare::nat_order;
use crate::key::{
    PartV, digit_run, digits_at, int_number_at, is_decimal_at, lemma_number_at_len, number_at,
    real_frac_dot, real_int_end, real_number_at, scan, sign_len, key_of, digit_of, canon,
    lemma_canon_basic,
};
use crate::ns::{Ns, default_ns};
use crate::order::{key_order, part_order, text_order};
use crate::decimal::{
    RealV, digits_value, lemma_real_order_antisym, lemma_real_order_congruent, pow10, real_order,
};
use crate::tokens::{digit_char, nat_text};
use crate::text::{all_ascii, fold_all, fold_of, group_all, normalized, transform, transform_char};
use crate::unicode::{decimal_value, is_decimal, isolated_value, numeric_value, special_fold};

verus! {

/// No character of `s` is an ASCII digit, and all are ASCII.
pub open spec fn ascii_without_digits(s: Seq<char>) -> bool {
    &&& all_ascii(s)
    &&& forall|i: int| 0 <= i < s.len() ==> !('0' <= #[trigger] s[i] && s[i] <= '9')
}

/// `c` with an ASCII capital replaced by its small letter.
pub open spec fn lower_ascii(c: char) -> char {
    if 'A' <= c && c <= 'Z' { ((c as u32) + 32) as char } else { c }
}

/// `s` with its ASCII capitals replaced by small letters.
pub open spec fn lowered(s: Seq<char>) -> Seq<char> {
    Seq::new(s.len(), |i: int| lower_ascii(s[i]))
}

/// Each character of `s` preceded by its lowercase form.
pub open spec fn doubled(s: Seq<char>) -> Seq<char> {
    Seq::new(2 * s.len(), |j: int| if j % 2 == 0 { lower_ascii(s[j / 2]) } else { s[j / 2] })
}

/// The flags with only group-letters on.
pub open spec fn grouping_ns() -> Ns {
    Ns { groupletters: true, ..default_ns() }
}

// ---------------------------------------------------------------------------
// Text without numbers.

proof fn lemma_no_number_at(s: Seq<char>, i: int, alg: Ns)
    requires
        ascii_without_digits(s),
        0 <= i < s.len(),
    ensures
        number_at(s, i, alg) is None,
        numeric_value(s[i]) is None,
        isolated_value(s[i]) is None,
{
    assert forall|k: int| 0 <= k < s.len() implies !is_decimal(#[trigger] s[k]) by {
        assert((s[k] as u32) < 0x80);
    }
    assert((s[i] as u32) < 0x80);
    assert(!is_decimal_at(s, i));
    assert(!is_decimal_at(s, i + 1));
    assert(!is_decimal_at(s, i + 2));
    assert(sign_len(s, i, alg) == 0);
    assert(digit_run(s, i) == 0);
    assert(real_int_end(s, i, alg) == i);
    assert(!is_decimal_at(s, real_int_end(s, i, alg) + 1));
    assert(!real_frac_dot(s, i, alg));
    assert(int_number_at(s, i, alg) is None);
    assert(real_number_at(s, i, alg) is None);
}

proof fn lemma_scan_text_only(s: Seq<char>, i: int, pending: Seq<char>, alg: Ns)
    requires
        ascii_without_digits(s),
        0 <= i <= s.len(),
    ensures
        scan(s, i, pending, false, alg) == seq![PartV::Text(transform(pending + s.skip(i), alg))],
    decreases s.len() - i,
{
    if i == s.len() {
        assert(pending + s.skip(i) =~= pending);
    } else {
        lemma_no_number_at(s, i, alg);
        lemma_scan_text_only(s, i + 1, pending.push(s[i]), alg);
        assert(pending.push(s[i]) + s.skip(i + 1) =~= pending + s.skip(i));
    }
}

/// The key of an ASCII text without digits is that one text, transformed.
proof fn lemma_key_text_only(s: Seq<char>, alg: Ns)
    requires
        ascii_without_digits(s),
    ensures
        natsort_key_of(s, alg) == seq![PartV::Text(transform(s, alg))],
{
    assert(normalized(s) == s);
    lemma_scan_text_only(s, 0, Seq::empty(), alg);
    assert(Seq::<char>::empty() + s.skip(0) =~= s);
}

proof fn lemma_transform_plain(s: Seq<char>)
    ensures
        transform(s, default_ns()) == s,
    decreases s.len(),
{
    if s.len() > 0 {
        lemma_transform_plain(s.drop_last());
        assert(transform_char(s.last(), default_ns()) == seq![s.last()]);
        assert(s.drop_last().push(s.last()) =~= s);
    }
}

proof fn lemma_text_order_first_difference(a: Seq<char>, b: Seq<char>, i: int)
    requires
        0 <= i < a.len(),
        i < b.len(),
        a.take(i) == b.take(i),
        a[i] < b[i],
    ensures
        text_order(a, b) < 0,
    decreases i,
{
    if i > 0 {
        assert(a.take(i)[0] == a[0]);
        assert(b.take(i)[0] == b[0]);
        assert(a[0] == b[0]);
        assert(a.drop_first().take(i - 1) =~= a.take(i).drop_first());
        assert(b.drop_first().take(i - 1) =~= b.take(i).drop_first());
        lemma_text_order_first_difference(a.drop_first(), b.drop_first(), i - 1);
    }
}

proof fn lemma_text_order_prefix(a: Seq<char>, b: Seq<char>)
    requires
        a.len() < b.len(),
        a == b.take(a.len() as int),
    ensures
        text_order(a, b) < 0,
    decreases a.len(),
{
    if a.len() > 0 {
        assert(b.take(a.len() as int)[0] == b[0]);
        assert(a[0] == b[0]);
        assert(a.drop_first() =~= b.drop_first().take(a.len() - 1));
        lemma_text_order_prefix(a.drop_first(), b.drop_first());
    }
}

/// Two texts without digits compare character by character under the
/// default algorithm: at the first position where they differ, the smaller
/// character comes first; a proper prefix comes first; equal texts tie.
/// Their lengths decide nothing else.
pub proof fn law_texts_compare_lexicographically(a: Seq<char>, b: Seq<char>)
    requires
        ascii_without_digits(a),
        ascii_without_digits(b),
    ensures
        forall|i: int|
            0 <= i < a.len() && i < b.len() && a.take(i) == b.take(i) && #[trigger] a[i] < #[trigger] b[i]
                ==> nat_order(a, b, default_ns()) < 0,
        a.len() < b.len() && a == b.take(a.len() as int) ==> nat_order(a, b, default_ns()) < 0,
        nat_order(a, a, default_ns()) == 0,
{
    lemma_key_text_only(a, default_ns());
    lemma_key_text_only(b, default_ns());
    lemma_transform_plain(a);
    lemma_transform_plain(b);
    let ka = seq![PartV::Text(a)];
    let kb = seq![PartV::Text(b)];
    assert(ka.drop_first() =~= Seq::<PartV>::empty());
    assert(kb.drop_first() =~= Seq::<PartV>::empty());
    assert(key_order(Seq::<PartV>::empty(), Seq::<PartV>::empty()) == 0);
    assert(part_order(ka[0], kb[0]) == text_order(a, b));
    assert(key_order(ka, kb) == (if text_order(a, b) != 0 { text_order(a, b) } else { 0 }));
    assert forall|i: int|
        0 <= i < a.len() && i < b.len() && a.take(i) == b.take(i) && #[trigger] a[i] < #[trigger] b[i]
            implies nat_order(a, b, default_ns()) < 0 by {
        lemma_text_order_first_difference(a, b, i);
    }
    if a.len() < b.len() && a == b.take(a.len() as int) {
        lemma_text_order_prefix(a, b);
    }
    crate::order::lemma_key_order(ka, ka, ka);
}

// ---------------------------------------------------------------------------
// Letter grouping.

proof fn lemma_group_all_ascii(s: Seq<char>)
    requires
        all_ascii(s),
    ensures
        group_all(s) == doubled(s),
    decreases s.len(),
{
    if s.len() > 0 {
        let c = s.last();
        assert((c as u32) < 0x80);
        assert(special_fold(c) is None);
        assert(fold_of(c) == seq![lower_ascii(c)]);
        let d = s.drop_last();
        assert(all_ascii(d)) by {
            assert forall|i: int| 0 <= i < d.len() implies (#[trigger] d[i] as u32) < 0x80 by {
                assert(d[i] == s[i]);
            }
        }
        lemma_group_all_ascii(d);
        assert(doubled(d) + seq![lower_ascii(c), c] =~= doubled(s)) by {
            assert forall|j: int| 0 <= j < 2 * d.len() implies doubled(s)[j] == #[trigger] doubled(d)[j] by {
                assert(j / 2 < d.len());
                assert(d[j / 2] == s[j / 2]);
            }
        }
    }
}

/// Under group-letters, each character of an ASCII text without digits,
/// letter or not, becomes its lowercase form followed by itself: the key
/// text is twice as long as the input.
pub proof fn law_groupletters_doubles_every_character(s: Seq<char>)
    requires
        ascii_without_digits(s),
    ensures
        natsort_key_of(s, grouping_ns()) == seq![PartV::Text(doubled(s))],
        doubled(s).len() == 2 * s.len(),
{
    lemma_key_text_only(s, grouping_ns());
    lemma_transform_grouping_all(s);
    lemma_group_all_ascii(s);
}

proof fn lemma_transform_grouping_all(s: Seq<char>)
    ensures
        transform(s, grouping_ns()) == group_all(s),
    decreases s.len(),
{
    if s.len() > 0 {
        lemma_transform_grouping_all(s.drop_last());
        let c = s.last();
        lemma_group_all_push(Seq::<char>::empty(), c);
        assert(Seq::<char>::empty().push(c) =~= seq![c]);
        assert(group_all(Seq::<char>::empty()) =~= Seq::<char>::empty());
        assert(group_all(seq![c]) =~= fold_of(c).push(c));
        lemma_group_all_push(s.drop_last(), c);
        assert(s.drop_last().push(c) =~= s);
    }
}

proof fn lemma_group_all_push(s: Seq<char>, c: char)
    ensures
        group_all(s.push(c)) == group_all(s) + fold_of(c).push(c),
{
    assert(s.push(c).drop_last() =~= s);
}

// ---------------------------------------------------------------------------
// Case-insensitive keys.

proof fn lemma_lowered_ascii(s: Seq<char>)
    requires
        all_ascii(s),
    ensures
        all_ascii(lowered(s)),
        forall|i: int| 0 <= i < s.len() ==> (#[trigger] is_decimal(s[i]) <==> is_decimal(lowered(s)[i])),
        forall|i: int| 0 <= i < s.len() ==> #[trigger] digit_of(s[i]) == digit_of(lowered(s)[i]),
{
    assert forall|i: int| 0 <= i < lowered(s).len() implies (#[trigger] lowered(s)[i] as u32) < 0x80 by {
        assert((s[i] as u32) < 0x80);
    }
    assert forall|i: int| 0 <= i < s.len() implies (#[trigger] is_decimal(s[i]) <==> is_decimal(lowered(s)[i])) by {
        assert((s[i] as u32) < 0x80);
    }
    assert forall|i: int| 0 <= i < s.len() implies #[trigger] digit_of(s[i]) == digit_of(lowered(s)[i]) by {
        assert((s[i] as u32) < 0x80);
        assert(decimal_value(s[i]) == decimal_value(lowered(s)[i]));
    }
}

proof fn lemma_digit_run_lowered(s: Seq<char>, j: int)
    requires
        all_ascii(s),
    ensures
        digit_run(s, j) == digit_run(lowered(s), j),
    decreases s.len() - j,
{
    lemma_lowered_ascii(s);
    if 0 <= j < s.len() {
        assert(is_decimal(s[j]) <==> is_decimal(lowered(s)[j]));
        lemma_digit_run_lowered(s, j + 1);
    }
}

proof fn lemma_number_at_lowered(s: Seq<char>, i: int)
    requires
        all_ascii(s),
        0 <= i < s.len(),
    ensures
        number_at(s, i, ignorecase_ns()) == number_at(lowered(s), i, default_ns()),
{
    let l = lowered(s);
    lemma_lowered_ascii(s);
    assert(sign_len(s, i, ignorecase_ns()) == 0);
    assert(sign_len(l, i, default_ns()) == 0);
    lemma_digit_run_lowered(s, i);
    let r = digit_run(s, i);
    if r > 0 {
        crate::key::lemma_number_at_len(s, i, ignorecase_ns());
        assert(digits_at(s, i, i + r) =~= digits_at(l, i, i + r)) by {
            assert forall|k: int| 0 <= k < r implies #[trigger] digits_at(s, i, i + r)[k] == digits_at(l, i, i + r)[k] by {
                assert(digit_of(s[i + k]) == digit_of(l[i + k]));
            }
        }
    }
}

proof fn lemma_transform_folded(p: Seq<char>)
    requires
        all_ascii(p),
    ensures
        transform(p, ignorecase_ns()) == lowered(p),
    decreases p.len(),
{
    if p.len() > 0 {
        let d = p.drop_last();
        let c = p.last();
        assert(all_ascii(d)) by {
            assert forall|i: int| 0 <= i < d.len() implies (#[trigger] d[i] as u32) < 0x80 by {
                assert(d[i] == p[i]);
            }
        }
        lemma_transform_folded(d);
        assert((c as u32) < 0x80);
        assert(special_fold(c) is None);
        assert(seq![c].drop_last() =~= Seq::<char>::empty());
        assert(fold_all(Seq::<char>::empty()) =~= Seq::<char>::empty());
        assert(fold_all(seq![c]) =~= fold_of(c));
        assert(transform_char(c, ignorecase_ns()) == seq![lower_ascii(c)]);
        assert(lowered(d).push(lower_ascii(c)) =~= lowered(p));
    }
}

proof fn lemma_scan_lowered(s: Seq<char>, i: int, pending: Seq<char>, emitted: bool)
    requires
        all_ascii(s),
        all_ascii(pending),
        0 <= i,
    ensures
        scan(s, i, pending, emitted, ignorecase_ns()) == scan(lowered(s), i, lowered(pending), emitted, default_ns()),
    decreases s.len() - i,
{
    let l = lowered(s);
    lemma_transform_folded(pending);
    lemma_transform_plain(lowered(pending));
    if i >= s.len() {
    } else {
        assert((s[i] as u32) < 0x80);
        assert((l[i] as u32) < 0x80);
        lemma_number_at_lowered(s, i);
        match number_at(s, i, ignorecase_ns()) {
            Some((p, n)) => {
                lemma_number_at_len(s, i, ignorecase_ns());
                assert(lowered(Seq::<char>::empty()) =~= Seq::<char>::empty());
                lemma_scan_lowered(s, i + n, Seq::empty(), true);
            },
            None => {
                let p2 = pending.push(s[i]);
                assert(all_ascii(p2)) by {
                    assert forall|k: int| 0 <= k < p2.len() implies (#[trigger] p2[k] as u32) < 0x80 by {
                        if k < pending.len() {
                            assert(p2[k] == pending[k]);
                        }
                    }
                }
                assert(lowered(p2) =~= lowered(pending).push(l[i]));
                lemma_scan_lowered(s, i + 1, p2, emitted);
            },
        }
    }
}

/// The case-insensitive key of an ASCII text, which the case-insensitive
/// and file-manager sorts order by first, is the plain (integer) key of the
/// text with its capitals lowered: numbers are read as integers, signs stay
/// text, and only letter case is folded.
pub proof fn law_case_insensitive_key_is_key_of_lowered(s: Seq<char>, presort: bool)
    requires
        all_ascii(s),
    ensures
        natsort_key_of(s, ignorecase_ns()) == natsort_key_of(lowered(s), default_ns()),
        human_sort_key(s, presort).primary == key_of(lowered(s), default_ns()),
{
    lemma_lowered_ascii(s);
    assert(normalized(s) == s);
    assert(normalized(lowered(s)) == lowered(s));
    assert(lowered(Seq::<char>::empty()) =~= Seq::<char>::empty());
    lemma_scan_lowered(s, 0, Seq::empty(), false);
}

// ---------------------------------------------------------------------------
// Flags.

/// Every flag off.
pub open spec fn no_flags() -> Ns {
    Ns {
        real: false,
        float: false,
        signed: false,
        ignorecase: false,
        lowercasefirst: false,
        groupletters: false,
        noexp: false,
        presort: false,
    }
}

/// Reading the command-line arguments: no argument leaves every flag off;
/// `--float`, `--signed`, `--ignorecase`, `--lowercasefirst` and
/// `--groupletters` each switch on their own flag and change no other;
/// `--real` selects real, float and signed afresh, every other flag off; and
/// any other argument changes nothing.
pub proof fn law_command_line_flags(args: Seq<Seq<char>>, other: Seq<char>)
    requires
        other != "--real"@,
        other != "--signed"@,
        other != "--float"@,
        other != "--ignorecase"@,
        other != "--lowercasefirst"@,
        other != "--groupletters"@,
    ensures
        args_alg(Seq::empty()) == no_flags(),
        args_alg(args.push("--float"@)) == (Ns { float: true, ..args_alg(args) }),
        args_alg(args.push("--signed"@)) == (Ns { signed: true, ..args_alg(args) }),
        args_alg(args.push("--ignorecase"@)) == (Ns { ignorecase: true, ..args_alg(args) }),
        args_alg(args.push("--lowercasefirst"@)) == (Ns { lowercasefirst: true, ..args_alg(args) }),
        args_alg(args.push("--groupletters"@)) == (Ns { groupletters: true, ..args_alg(args) }),
        args_alg(args.push("--real"@)) == (Ns { real: true, float: true, signed: true, ..no_flags() }),
        args_alg(args.push(other)) == args_alg(args),
{
    reveal_strlit("--real");
    reveal_strlit("--signed");
    reveal_strlit("--float");
    reveal_strlit("--ignorecase");
    reveal_strlit("--lowercasefirst");
    reveal_strlit("--groupletters");
    assert("--real"@.len() == 6 && "--signed"@.len() == 8 && "--float"@.len() == 7 && "--ignorecase"@.len() == 12 && "--lowercasefirst"@.len() == 16 && "--groupletters"@.len() == 14);
    assert(args.push("--real"@).drop_last() =~= args);
    assert(args.push("--real"@).last() == "--real"@);
    assert(args_alg(args.push("--real"@)) == crate::cli::with_arg(args_alg(args), "--real"@));
    assert(args.push("--signed"@).drop_last() =~= args);
    assert(args.push("--signed"@).last() == "--signed"@);
    assert(args_alg(args.push("--signed"@)) == crate::cli::with_arg(args_alg(args), "--signed"@));
    assert(args.push("--float"@).drop_last() =~= args);
    assert(args.push("--float"@).last() == "--float"@);
    assert(args_alg(args.push("--float"@)) == crate::cli::with_arg(args_alg(args), "--float"@));
    assert(args.push("--ignorecase"@).drop_last() =~= args);
    assert(args.push("--ignorecase"@).last() == "--ignorecase"@);
    assert(args_alg(args.push("--ignorecase"@)) == crate::cli::with_arg(args_alg(args), "--ignorecase"@));
    assert(args.push("--lowercasefirst"@).drop_last() =~= args);
    assert(args.push("--lowercasefirst"@).last() == "--lowercasefirst"@);
    assert(args_alg(args.push("--lowercasefirst"@)) == crate::cli::with_arg(args_alg(args), "--lowercasefirst"@));
    assert(args.push("--groupletters"@).drop_last() =~= args);
    assert(args.push("--groupletters"@).last() == "--groupletters"@);
    assert(args_alg(args.push("--groupletters"@)) == crate::cli::with_arg(args_alg(args), "--groupletters"@));
    assert(args.push(other).drop_last() =~= args);
    assert(args.push(other).last() == other);
    assert(args_alg(args.push(other)) == crate::cli::with_arg(args_alg(args), other));
}

/// Reading comma-separated flag names: no name leaves every flag off;
/// `float`, `signed`, `ignorecase`, `lowercasefirst` and `groupletters` each
/// switch on their own flag and change no other; `real` selects real, float
/// and signed afresh; any other name changes nothing.
pub proof fn law_flag_names(names: Seq<Seq<char>>, other: Seq<char>)
    requires
        other != "real"@,
        other != "signed"@,
        other != "float"@,
        other != "ignorecase"@,
        other != "lowercasefirst"@,
        other != "groupletters"@,
    ensures
        names_alg(Seq::empty()) == no_flags(),
        names_alg(names.push("float"@)) == (Ns { float: true, ..names_alg(names) }),
        names_alg(names.push("signed"@)) == (Ns { signed: true, ..names_alg(names) }),
        names_alg(names.push("ignorecase"@)) == (Ns { ignorecase: true, ..names_alg(names) }),
        names_alg(names.push("lowercasefirst"@)) == (Ns { lowercasefirst: true, ..names_alg(names) }),
        names_alg(names.push("groupletters"@)) == (Ns { groupletters: true, ..names_alg(names) }),
        names_alg(names.push("real"@)) == (Ns { real: true, float: true, signed: true, ..no_flags() }),
        names_alg(names.push(other)) == names_alg(names),
{
    reveal_strlit("real");
    reveal_strlit("signed");
    reveal_strlit("float");
    reveal_strlit("ignorecase");
    reveal_strlit("lowercasefirst");
    reveal_strlit("groupletters");
    assert("real"@.len() == 4 && "signed"@.len() == 6 && "float"@.len() == 5 && "ignorecase"@.len() == 10 && "lowercasefirst"@.len() == 14 && "groupletters"@.len() == 12);
    assert(names.push("real"@).drop_last() =~= names);
    assert(names.push("real"@).last() == "real"@);
    assert(names_alg(names.push("real"@)) == crate::cli::with_name(names_alg(names), "real"@));
    assert(names.push("signed"@).drop_last() =~= names);
    assert(names.push("signed"@).last() == "signed"@);
    assert(names_alg(names.push("signed"@)) == crate::cli::with_name(names_alg(names), "signed"@));
    assert(names.push("float"@).drop_last() =~= names);
    assert(names.push("float"@).last() == "float"@);
    assert(names_alg(names.push("float"@)) == crate::cli::with_name(names_alg(names), "float"@));
    assert(names.push("ignorecase"@).drop_last() =~= names);
    assert(names.push("ignorecase"@).last() == "ignorecase"@);
    assert(names_alg(names.push("ignorecase"@)) == crate::cli::with_name(names_alg(names), "ignorecase"@));
    assert(names.push("lowercasefirst"@).drop_last() =~= names);
    assert(names.push("lowercasefirst"@).last() == "lowercasefirst"@);
    assert(names_alg(names.push("lowercasefirst"@)) == crate::cli::with_name(names_alg(names), "lowercasefirst"@));
    assert(names.push("groupletters"@).drop_last() =~= names);
    assert(names.push("groupletters"@).last() == "groupletters"@);
    assert(names_alg(names.push("groupletters"@)) == crate::cli::with_name(names_alg(names), "groupletters"@));
    assert(names.push(other).drop_last() =~= names);
    assert(names.push(other).last() == other);
    assert(names_alg(names.push(other)) == crate::cli::with_name(names_alg(names), other));
}

// ---------------------------------------------------------------------------
// Numbers after a common text.

proof fn lemma_nat_text_digits(n: nat)
    ensures
        nat_text(n).len() >= 1,
        forall|k: int| 0 <= k < nat_text(n).len() ==> '0' <= #[trigger] nat_text(n)[k] && nat_text(n)[k] <= '9',
        digits_value(nat_text(n).map_values(|c: char| digit_of(c))) == n,
    decreases n,
{
    let d = (n % 10) as nat;
    let c = digit_char(d);
    assert(d < 10);
    assert(c == (((d + 0x30) as u32) as char));
    assert((c as u32) < 0x80);
    assert(digit_of(c) == d);
    if n < 10 {
        let s = nat_text(n);
        assert(s == seq![c]);
        assert(s.map_values(|c: char| digit_of(c)) =~= seq![d as u8]);
        assert(seq![d as u8].drop_last() =~= Seq::<u8>::empty());
        assert(digits_value(Seq::<u8>::empty()) == 0);
    } else {
        lemma_nat_text_digits(n / 10);
        let p = nat_text(n / 10);
        let s = nat_text(n);
        assert(s == p.push(c));
        let dp = p.map_values(|c: char| digit_of(c));
        let ds = s.map_values(|c: char| digit_of(c));
        assert(ds.drop_last() =~= dp);
        assert(ds.last() == d as u8);
        assert(n == (n / 10) * 10 + d);
        assert forall|k: int| 0 <= k < s.len() implies '0' <= #[trigger] s[k] && s[k] <= '9' by {
            if k < p.len() {
                assert(s[k] == p[k]);
            }
        }
    }
}

proof fn lemma_digit_run_to_end(s: Seq<char>, j: int)
    requires
        0 <= j <= s.len(),
        forall|k: int| j <= k < s.len() ==> '0' <= #[trigger] s[k] && s[k] <= '9',
    ensures
        digit_run(s, j) == s.len() - j,
    decreases s.len() - j,
{
    if j < s.len() {
        assert('0' <= s[j] && s[j] <= '9');
        assert((s[j] as u32) < 0x80);
        assert(is_decimal(s[j]));
        lemma_digit_run_to_end(s, j + 1);
    }
}

proof fn lemma_key_text_then_number(t: Seq<char>, m: nat)
    requires
        ascii_without_digits(t),
    ensures
        natsort_key_of(t + nat_text(m), default_ns()) == seq![
            PartV::Text(t),
            PartV::Int(canon(RealV { neg: false, mant: m, scale: 0 })),
        ],
{
    let d = nat_text(m);
    let s = t + d;
    lemma_nat_text_digits(m);
    assert(all_ascii(s)) by {
        assert forall|k: int| 0 <= k < s.len() implies (#[trigger] s[k] as u32) < 0x80 by {
            if k < t.len() {
                assert(s[k] == t[k]);
            } else {
                assert(s[k] == d[k - t.len()]);
                assert('0' <= d[k - t.len()] && d[k - t.len()] <= '9');
            }
        }
    }
    assert(normalized(s) == s);
    assert forall|k: int| t.len() <= k < s.len() implies '0' <= #[trigger] s[k] && s[k] <= '9' by {
        assert(s[k] == d[k - t.len()]);
    }
    lemma_digit_run_to_end(s, t.len() as int);
    assert(s.take(t.len() as int) =~= t);
    assert(t.take(0) =~= Seq::<char>::empty());
    lemma_scan_prefix(s, t, 0, Seq::empty());
    let i = t.len() as int;
    assert(digits_at(s, i, i + d.len()) =~= d.map_values(|c: char| digit_of(c))) by {
        assert forall|k: int| 0 <= k < d.len() implies #[trigger] digits_at(s, i, i + d.len())[k] == d.map_values(|c: char| digit_of(c))[k] by {
            assert(s[i + k] == d[k]);
        }
    }
    assert(sign_len(s, i, default_ns()) == 0);
    assert(number_at(s, i, default_ns()) == Some((PartV::Int(canon(RealV { neg: false, mant: m, scale: 0 })), d.len())));
    assert((s[i] as u32) < 0x80);
    assert(Seq::<char>::empty() + t =~= t);
    lemma_transform_plain(t);
    assert(scan(s, s.len() as int, Seq::empty(), true, default_ns()) == Seq::<PartV>::empty());
    assert(i + d.len() == s.len());
}

proof fn lemma_scan_prefix(s: Seq<char>, t: Seq<char>, i: int, pending: Seq<char>)
    requires
        ascii_without_digits(t),
        t.len() <= s.len(),
        s.take(t.len() as int) == t,
        0 <= i <= t.len(),
        pending == t.take(i),
    ensures
        scan(s, i, pending, false, default_ns()) == scan(s, t.len() as int, t, false, default_ns()),
    decreases t.len() - i,
{
    if i < t.len() {
        assert(s[i] == t[i]) by {
            assert(s.take(t.len() as int)[i] == s[i]);
        }
        assert((s[i] as u32) < 0x80);
        assert(!is_decimal_at(s, i));
        assert(sign_len(s, i, default_ns()) == 0);
        assert(digit_run(s, i) == 0);
        assert(number_at(s, i, default_ns()) is None);
        assert(pending.push(s[i]) =~= t.take(i + 1));
        lemma_scan_prefix(s, t, i + 1, pending.push(s[i]));
    } else {
        assert(pending =~= t);
    }
}

/// Two texts that share a prefix without digits and end in numbers written
/// in decimal compare as the numbers do (under the default algorithm).
pub proof fn law_numbers_compare_by_value(t: Seq<char>, m: nat, n: nat)
    requires
        ascii_without_digits(t),
    ensures
        nat_order(t + nat_text(m), t + nat_text(n), default_ns()) == (if m < n {
            -1int
        } else if m == n {
            0int
        } else {
            1int
        }),
{
    lemma_key_text_then_number(t, m);
    lemma_key_text_then_number(t, n);
    let rm = RealV { neg: false, mant: m, scale: 0 };
    let rn = RealV { neg: false, mant: n, scale: 0 };
    lemma_canon_basic(rm);
    lemma_canon_basic(rn);
    assert(pow10(0) == 1);
    assert(rm.scaled(0) == m as int * 1);
    assert(rn.scaled(0) == n as int * 1);
    assert(real_order(rm, rn) == (if m < n { -1int } else if m == n { 0int } else { 1int }));
    lemma_real_order_congruent(canon(rm), canon(rn), rn);
    lemma_real_order_antisym(canon(rm), rn);
    lemma_real_order_congruent(rn, canon(rm), rm);
    lemma_real_order_antisym(rn, rm);
    crate::order::lemma_text_order(t, t, t);
    let ka = seq![PartV::Text(t), PartV::Int(canon(rm))];
    let kb = seq![PartV::Text(t), PartV::Int(canon(rn))];
    assert(part_order(ka[0], kb[0]) == 0);
    assert(ka.drop_first() =~= seq![PartV::Int(canon(rm))]);
    assert(kb.drop_first() =~= seq![PartV::Int(canon(rn))]);
    assert(ka.drop_first().drop_first() =~= Seq::<PartV>::empty());
    assert(kb.drop_first().drop_first() =~= Seq::<PartV>::empty());
    assert(key_order(Seq::<PartV>::empty(), Seq::<PartV>::empty()) == 0);
    let o = real_order(canon(rm), canon(rn));
    assert(o == real_order(rm, rn));
    assert(part_order(PartV::Int(canon(rm)), PartV::Int(canon(rn))) == o);
    assert(key_order(ka.drop_first(), kb.drop_first()) == o);
    assert(key_order(ka, kb) == o);
    assert(nat_order(t + nat_text(m), t + nat_text(n), default_ns()) == key_order(ka, kb));
}

} // verus!
