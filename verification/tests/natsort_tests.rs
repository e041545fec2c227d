use natsort_core::{
    as_ascii, as_utf8, decoder, humansorted, index_natsorted, index_realsorted, natcmp,
    natsort_key, natsorted, natsorted_alg, natsorted_reverse, numeric_regex_chooser,
    order_by_index, os_sorted, realsorted, Chunk, Ns, RealNum,
};
use std::cmp::Ordering;

/// An integer chunk holding `v`.
fn int_chunk(v: i128) -> Chunk {
    Chunk::Int(RealNum::from_int(v))
}

/// A real chunk holding the value of `x`, written exactly as its shortest
/// decimal representation; an infinity is held as `±10^309`, above every
/// double.
fn real_chunk(x: f64) -> Chunk {
    if x.is_infinite() {
        return Chunk::Real(RealNum::from_digits(x < 0.0, vec![1], 309));
    }
    let text = format!("{:e}", x);
    let (mantissa, exponent) = text.split_once('e').unwrap();
    let exponent: i128 = exponent.parse().unwrap();
    let negative = mantissa.starts_with('-');
    let mantissa = mantissa.trim_start_matches('-');
    let (int_part, frac_part) = match mantissa.split_once('.') {
        Some((i, f)) => (i, f),
        None => (mantissa, ""),
    };
    let digits: Vec<u8> = int_part
        .bytes()
        .chain(frac_part.bytes())
        .map(|b| b - b'0')
        .collect();
    Chunk::Real(RealNum::from_digits(negative, digits, exponent - frac_part.len() as i128))
}

fn text(s: &str) -> Chunk {
    Chunk::Text(s.to_string())
}

fn strings(items: &[&str]) -> Vec<String> {
    items.iter().map(|s| s.to_string()).collect()
}

fn ns_int() -> Ns {
    Ns::default()
}

#[test]
fn int_key_matches_python() {
    let k = natsort_key("num10", ns_int());
    assert_eq!(k, vec![Chunk::Text("num".into()), int_chunk(10)]);
    let k = natsort_key("1.5", ns_int());
    assert_eq!(
        k,
        vec![
            Chunk::Text("".into()),
            int_chunk(1),
            Chunk::Text(".".into()),
            int_chunk(5)
        ]
    );
}

#[test]
fn int_sign_stays_as_text() {
    let k = natsort_key("-5", ns_int());
    assert_eq!(k, vec![Chunk::Text("-".into()), int_chunk(5)]);
}

#[test]
fn signed_attaches_minus() {
    let alg = Ns { signed: true, ..Ns::default() };
    let k = natsort_key("a-5", alg);
    assert_eq!(k, vec![Chunk::Text("a".into()), int_chunk(-5)]);
}

#[test]
fn real_parses_floats() {
    let k = natsort_key("1.5", Ns::real_flags());
    assert_eq!(k, vec![Chunk::Text("".into()), real_chunk(1.5)]);
    let k = natsort_key("1e5", Ns::real_flags());
    assert_eq!(k, vec![Chunk::Text("".into()), real_chunk(100000.0)]);
}

#[test]
fn ignorecase_folds() {
    let alg = Ns { ignorecase: true, ..Ns::default() };
    let k = natsort_key("Num10", alg);
    assert_eq!(k, vec![Chunk::Text("num".into()), int_chunk(10)]);
}

#[test]
fn groupletters_expands() {
    let alg = Ns { groupletters: true, ..Ns::default() };
    let k = natsort_key("Num", alg);
    assert_eq!(k, vec![Chunk::Text("nNuumm".into())]);
}

#[test]
fn default_sort_is_natural() {
    let input = strings(&["num3", "num5", "num2", "num10"]);
    assert_eq!(natsorted(&input), vec!["num2", "num3", "num5", "num10"]);
}

#[test]
fn realsorted_orders_signed_floats() {
    let input = strings(&["-1", "2", "-3", "1.5"]);
    assert_eq!(realsorted(&input), vec!["-3", "-1", "1.5", "2"]);
}

#[test]
fn real_exponent_after_trailing_dot() {
    let k = natsort_key("1.e133", Ns::real_flags());
    assert_eq!(k, vec![Chunk::Text("".into()), real_chunk(1e133)]);
}

#[test]
fn real_bare_e_is_text_not_exponent() {
    let k = natsort_key("7.e", Ns::real_flags());
    assert_eq!(k, vec![Chunk::Text("".into()), real_chunk(7.0), Chunk::Text("e".into())]);
}

#[test]
fn presort_breaks_ties_lexicographically_not_by_input_order() {
    let items = vec!["a1".to_string(), "a01".to_string()];
    let alg = Ns { presort: true, ..Ns::default() };
    assert_eq!(natsorted_alg(&items, alg), vec!["a01", "a1"]);
    assert_eq!(natsorted_alg(&items, Ns::default()), vec!["a1", "a01"]);
}

#[test]
fn noexp_treats_e_as_literal_text() {
    let alg = Ns { noexp: true, ..Ns::real_flags() };
    let k = natsort_key("1e5", alg);
    assert_eq!(
        k,
        vec![Chunk::Text("".into()), real_chunk(1.0), Chunk::Text("e".into()), real_chunk(5.0)]
    );
}

#[test]
fn decoder_utf8_and_ascii_match_python() {
    assert_eq!(as_utf8(b"hello"), "hello");
    assert_eq!(as_ascii(b"abc"), "abc");
    assert_eq!(decoder("utf-8")(b"x"), "x");
}

#[test]
fn as_utf8_is_lossy_on_invalid_bytes() {
    let out = as_utf8(&[0xff, 0xfe]);
    assert!(out.contains('\u{FFFD}'));
}

#[test]
fn unicode_decimal_digits_parse_as_numbers() {
    assert_eq!(natsort_key("１２３", Ns::default()), vec![Chunk::Text("".into()), int_chunk(123)]);
    assert_eq!(natsort_key("๒5", Ns::default()), vec![Chunk::Text("".into()), int_chunk(25)]);
}

#[test]
fn unicode_fullwidth_float_parses() {
    assert_eq!(natsort_key("１.５", Ns::real_flags()), vec![Chunk::Text("".into()), real_chunk(1.5)]);
}

#[test]
fn isolated_digit_chars_are_separate_numbers() {
    assert_eq!(
        natsort_key("①②③", Ns::default()),
        vec![
            Chunk::Text("".into()), int_chunk(1),
            Chunk::Text("".into()), int_chunk(2),
            Chunk::Text("".into()), int_chunk(3),
        ]
    );
}

#[test]
fn numeric_chars_are_numbers_under_real_only() {
    assert_eq!(natsort_key("Ⅷ", Ns::default()), vec![Chunk::Text("Ⅷ".into())]);
    assert_eq!(natsort_key("Ⅷ", Ns::real_flags()), vec![Chunk::Text("".into()), real_chunk(8.0)]);
    assert_eq!(natsort_key("½", Ns::real_flags()), vec![Chunk::Text("".into()), real_chunk(0.5)]);
}

#[test]
fn natsort_key_public_example_matches_python() {
    let k = natsort_key("a-5.034e2", Ns::default());
    assert_eq!(k, vec![
        Chunk::Text("a-".into()), int_chunk(5),
        Chunk::Text(".".into()), int_chunk(34),
        Chunk::Text("e".into()), int_chunk(2),
    ]);
}

#[test]
fn multi_number_strings_compare_componentwise() {
    assert_eq!(natcmp("a1b2", "a1b10", Ns::default()), Ordering::Less);
}

#[test]
fn empty_string_sorts_first() {
    let input = strings(&["b", "", "a"]);
    assert_eq!(natsorted(&input), vec!["", "a", "b"]);
}

#[test]
fn pure_number_vs_pure_text() {
    assert_eq!(natcmp("1", "a", Ns::default()), Ordering::Less);
}

#[test]
fn float_scientific_notation_orders_correctly() {
    let input = strings(&["1e2", "1e1", "1e3"]);
    assert_eq!(realsorted(&input), vec!["1e1", "1e2", "1e3"]);
}

#[test]
fn negative_floats_order_before_positive() {
    let input = strings(&["1.0", "-2.0", "-1.0", "2.0"]);
    assert_eq!(realsorted(&input), vec!["-2.0", "-1.0", "1.0", "2.0"]);
}

#[test]
fn lowercasefirst_swaps_case_in_ordering() {
    let alg = Ns { lowercasefirst: true, ..Ns::default() };
    let k = natsort_key("aBc", alg);
    assert_eq!(k, vec![Chunk::Text("AbC".into())]);
}

#[test]
fn leading_zeros_preserved_in_value_not_width() {
    assert_eq!(natcmp("a007", "a7", Ns::default()), Ordering::Equal);
}

#[test]
fn huge_number_does_not_panic() {
    let big = "9".repeat(50);
    let _ = natsort_key(&big, Ns::default());
    let _ = natsort_key(&big, Ns::real_flags());
}

#[test]
fn signed_zero_ties_like_python() {
    assert_eq!(natcmp("-00", "0", Ns::real_flags()), Ordering::Equal);
    assert_eq!(natcmp("0", "-0", Ns::real_flags()), Ordering::Equal);
}

#[test]
fn os_sorted_is_case_insensitive_natural() {
    let input = strings(&["file10.txt", "file2.txt", "file1.txt", "File3.txt"]);
    let out = os_sorted(&input);
    assert_eq!(out, vec!["file1.txt", "file2.txt", "File3.txt", "file10.txt"]);
}

#[test]
fn reverse_sort_reverses_order() {
    let input = strings(&["a", "c", "b"]);
    assert_eq!(natsorted_reverse(&input, Ns::default(), true), vec!["c", "b", "a"]);
}

#[test]
fn order_by_index_roundtrips() {
    let items = strings(&["a", "b", "c"]);
    let idx = index_natsorted(&items);
    assert_eq!(order_by_index(&items, &idx), items);
}

#[test]
fn numeric_regex_chooser_ascii_patterns() {
    assert_eq!(numeric_regex_chooser(Ns::default()), r"\d+");
    assert_eq!(numeric_regex_chooser(Ns { signed: true, ..Ns::default() }), r"[-+]?\d+");
    assert_eq!(numeric_regex_chooser(Ns::real_flags()), r"[-+]?(?:\d+\.?\d*|\.\d+)(?:[eE][-+]?\d+)?");
}

#[test]
fn humansorted_is_case_insensitive_order() {
    let input = strings(&["b", "A", "a", "B"]);
    let out = humansorted(&input);
    assert_eq!(out[0].to_lowercase(), "a");
    assert_eq!(out[1].to_lowercase(), "a");
    assert_eq!(out[2].to_lowercase(), "b");
    assert_eq!(out[3].to_lowercase(), "b");
}

#[test]
fn index_realsorted_matches_realsorted() {
    let input = strings(&["-1", "2", "-3", "1.5"]);
    let idx = index_realsorted(&input);
    let via_index = order_by_index(&input, &idx);
    assert_eq!(via_index, realsorted(&input));
}

#[test]
fn chain_functions_composes_left_to_right() {
    let fns: Vec<Box<dyn Fn(String) -> String>> = vec![
        Box::new(|s: String| s.trim().to_string()),
        Box::new(|s: String| s.to_uppercase()),
    ];
    let f = natsort_core::chain_functions(fns);
    assert_eq!(f("  hi ".to_string()), "HI");
}
