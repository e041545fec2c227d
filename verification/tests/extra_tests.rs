use natsort_core::{
    alg_from_spec, alg_from_str, as_ascii, chain_functions, decoder, humansorted,
    index_humansorted, index_natsorted_alg, index_os_sorted, index_os_sorted_presort, natcmp,
    natsort_key, natsorted, natsorted_alg, natsorted_reverse, numeric_regex_chooser,
    order_by_index, os_sorted_presort, parse_alg, sort_lines, Chunk, Ns, RealNum, key_line,
    key_tokens, Token,
};
use std::cmp::Ordering;

fn strings(items: &[&str]) -> Vec<String> {
    items.iter().map(|s| s.to_string()).collect()
}

fn int_chunk(v: i128) -> Chunk {
    Chunk::Int(RealNum::from_int(v))
}

fn real_value(negative: bool, digits: &[u8], scale: i128) -> Chunk {
    Chunk::Real(RealNum::from_digits(negative, digits.to_vec(), scale))
}

fn sample() -> Vec<String> {
    strings(&["x10", "x9", "", "X2", "a01", "a1", "a-3", "1.5", "b", "B", "x2y3", "x2y10", "é1", "e1"])
}

fn all_algs() -> Vec<Ns> {
    vec![
        Ns::default(),
        Ns::real_flags(),
        Ns { signed: true, ..Ns::default() },
        Ns { float: true, ..Ns::default() },
        Ns { ignorecase: true, ..Ns::default() },
        Ns { lowercasefirst: true, ..Ns::default() },
        Ns { groupletters: true, ..Ns::default() },
        Ns { presort: true, ..Ns::default() },
        Ns { noexp: true, ..Ns::real_flags() },
    ]
}

#[test]
fn law_natcmp_is_antisymmetric_and_reflexive_on_samples() {
    let items = sample();
    for alg in all_algs() {
        for a in &items {
            assert_eq!(natcmp(a, a, alg), Ordering::Equal);
            for b in &items {
                assert_eq!(natcmp(a, b, alg), natcmp(b, a, alg).reverse());
            }
        }
    }
}

#[test]
fn law_natcmp_is_transitive_on_samples() {
    let items = sample();
    let alg = Ns::default();
    for a in &items {
        for b in &items {
            for c in &items {
                if natcmp(a, b, alg) != Ordering::Greater && natcmp(b, c, alg) != Ordering::Greater {
                    assert_ne!(natcmp(a, c, alg), Ordering::Greater);
                }
            }
        }
    }
}

#[test]
fn law_natsorted_is_idempotent_permutation_in_order() {
    let items = sample();
    for alg in all_algs() {
        let once = natsorted_alg(&items, alg);
        assert_eq!(natsorted_alg(&once, alg), once);
        let mut a = items.clone();
        a.sort();
        let mut b = once.clone();
        b.sort();
        assert_eq!(a, b);
        for w in once.windows(2) {
            assert_ne!(natcmp(&w[0], &w[1], alg), Ordering::Greater);
        }
    }
}

#[test]
fn law_index_then_order_is_sort() {
    let items = sample();
    for alg in all_algs() {
        let idx = index_natsorted_alg(&items, alg);
        assert_eq!(order_by_index(&items, &idx), natsorted_alg(&items, alg));
    }
    let idx = index_humansorted(&items);
    assert_eq!(order_by_index(&items, &idx), humansorted(&items));
    let idx = index_os_sorted_presort(&items, true);
    assert_eq!(order_by_index(&items, &idx), os_sorted_presort(&items, true));
}

#[test]
fn law_human_sort_is_idempotent_permutation() {
    let items = sample();
    let once = humansorted(&items);
    assert_eq!(humansorted(&once), once);
    let mut a = items.clone();
    a.sort();
    let mut b = once.clone();
    b.sort();
    assert_eq!(a, b);
}

#[test]
fn stable_sort_keeps_input_order_of_ties() {
    assert_eq!(natsorted(&strings(&["a1", "a01"])), vec!["a1", "a01"]);
    assert_eq!(natsorted(&strings(&["a01", "a1"])), vec!["a01", "a1"]);
}

#[test]
fn empty_list_and_single_item_sort() {
    let empty: Vec<String> = Vec::new();
    assert_eq!(natsorted(&empty), Vec::<String>::new());
    assert_eq!(natsorted(&strings(&["z"])), vec!["z"]);
}

#[test]
fn canonical_decomposition_splits_accents() {
    assert_eq!(natsort_key("é", Ns::default()), vec![Chunk::Text("e\u{301}".into())]);
}

#[test]
fn ignorecase_uses_full_case_fold() {
    let alg = Ns { ignorecase: true, ..Ns::default() };
    assert_eq!(natsort_key("ß", alg), vec![Chunk::Text("ss".into())]);
}

#[test]
fn groupletters_puts_fold_before_each_letter() {
    let alg = Ns { groupletters: true, ..Ns::default() };
    assert_eq!(natsort_key("Aß", alg), vec![Chunk::Text("aAssß".into())]);
}

#[test]
fn lowercasefirst_keeps_non_letters() {
    let alg = Ns { lowercasefirst: true, ..Ns::default() };
    assert_eq!(
        natsort_key("1-A", alg),
        vec![Chunk::Text("".into()), int_chunk(1), Chunk::Text("-a".into())]
    );
}

#[test]
fn integers_are_exact_however_long() {
    let big = "9".repeat(50);
    assert_eq!(
        natsort_key(&big, Ns::default()),
        vec![Chunk::Text("".into()), Chunk::Int(RealNum::from_digits(false, vec![9; 50], 0))]
    );
    let neg = format!("-{}", big);
    let alg = Ns { signed: true, ..Ns::default() };
    assert_eq!(
        natsort_key(&neg, alg),
        vec![Chunk::Text("".into()), Chunk::Int(RealNum::from_digits(true, vec![9; 50], 0))]
    );
    let a = format!("1{}", "0".repeat(40));
    let b = format!("2{}", "0".repeat(40));
    assert_eq!(natcmp(&a, &b, Ns::default()), Ordering::Less);
    assert_eq!(natcmp(&b, &a, Ns::default()), Ordering::Greater);
}

#[test]
fn values_past_the_double_range_overflow_and_tie() {
    let alg = Ns::real_flags();
    let inf = real_value(false, &[1], 309);
    assert_eq!(natsort_key("1e400", alg), vec![Chunk::Text("".into()), inf.clone()]);
    assert_eq!(natsort_key("1e99999999999999999999", alg), vec![Chunk::Text("".into()), inf]);
    assert_eq!(natsort_key("-1e400", alg), vec![Chunk::Text("".into()), real_value(true, &[1], 309)]);
    assert_eq!(natsorted_alg(&strings(&["1e400", "1e500"]), alg), vec!["1e400", "1e500"]);
    assert_eq!(natsorted_alg(&strings(&["1e500", "1e400"]), alg), vec!["1e500", "1e400"]);
    assert_eq!(natcmp("1.7976931348623157e308", "1e400", alg), Ordering::Less);
    assert_eq!(natcmp("1.7976931348623159e308", "1e400", alg), Ordering::Equal);
}

#[test]
fn values_below_the_double_range_underflow_to_zero() {
    let alg = Ns::real_flags();
    assert_eq!(natsort_key("1e-400", alg), vec![Chunk::Text("".into()), real_value(false, &[], 0)]);
    assert_eq!(natcmp("2e-324", "0", alg), Ordering::Equal);
    assert_eq!(natcmp("3e-324", "0", alg), Ordering::Greater);
    assert_eq!(natcmp("-1e-400", "1e-999", alg), Ordering::Equal);
}

#[test]
fn humansorted_breaks_exact_ties_by_text() {
    assert_eq!(humansorted(&strings(&["a1", "a01"])), vec!["a01", "a1"]);
    assert_eq!(humansorted(&strings(&["a01", "a1"])), vec!["a01", "a1"]);
}

#[test]
fn reverse_sort_keeps_ties_in_input_order() {
    let items = strings(&["a1", "a01", "a2"]);
    assert_eq!(natsorted_reverse(&items, Ns::default(), true), vec!["a2", "a1", "a01"]);
    let alg = Ns { presort: true, ..Ns::default() };
    assert_eq!(natsorted_reverse(&items, alg, true), vec!["a2", "a01", "a1"]);
}

#[test]
fn lowercasefirst_swaps_before_grouping_letters() {
    let alg = Ns { groupletters: true, lowercasefirst: true, ..Ns::default() };
    assert_eq!(natsorted_alg(&strings(&["Apple", "apple"]), alg), vec!["apple", "Apple"]);
    assert_eq!(natsort_key("Ab", alg), vec![Chunk::Text("aabB".into())]);
    let alg = Ns { groupletters: true, ignorecase: true, ..Ns::default() };
    assert_eq!(natsort_key("Ab", alg), vec![Chunk::Text("aabb".into())]);
    let alg = Ns { ignorecase: true, lowercasefirst: true, ..Ns::default() };
    assert_eq!(natsort_key("Ab", alg), vec![Chunk::Text("ab".into())]);
}

#[test]
fn decoder_reads_valid_utf8_and_replaces_the_rest() {
    assert_eq!(decoder("utf8")(&[0x61, 0xC3, 0xA9]), "a\u{e9}");
    assert_eq!(decoder("ASCII")(&[0x61, 0xC3, 0xA9]), "a\u{FFFD}\u{FFFD}");
    assert!(decoder("utf-8")(&[0xff]).contains('\u{FFFD}'));
}

#[test]
fn real_literal_forms() {
    let r = Ns::real_flags();
    assert_eq!(natsort_key(".5", r), vec![Chunk::Text("".into()), real_value(false, &[5], -1)]);
    assert_eq!(natsort_key("-.5", r), vec![Chunk::Text("".into()), real_value(true, &[5], -1)]);
    assert_eq!(natsort_key("1.", r), vec![Chunk::Text("".into()), real_value(false, &[1], 0)]);
    assert_eq!(natsort_key("a.b", r), vec![Chunk::Text("a.b".into())]);
    assert_eq!(natsort_key("1E5", r), vec![Chunk::Text("".into()), real_value(false, &[1], 5)]);
    assert_eq!(natsort_key("1e+5", r), vec![Chunk::Text("".into()), real_value(false, &[1], 5)]);
    assert_eq!(natsort_key("1e-5", r), vec![Chunk::Text("".into()), real_value(false, &[1], -5)]);
    assert_eq!(
        natsort_key("2e", r),
        vec![Chunk::Text("".into()), real_value(false, &[2], 0), Chunk::Text("e".into())]
    );
    assert_eq!(natsort_key("150.0", r), vec![Chunk::Text("".into()), real_value(false, &[1, 5], 1)]);
}

#[test]
fn float_without_sign_keeps_minus_as_text() {
    let alg = Ns { float: true, ..Ns::default() };
    assert_eq!(
        natsort_key("-2.5", alg),
        vec![Chunk::Text("-".into()), real_value(false, &[2, 5], -1)]
    );
}

#[test]
fn signed_plus_attaches_and_lone_sign_is_text() {
    let alg = Ns { signed: true, ..Ns::default() };
    assert_eq!(natsort_key("+5", alg), vec![Chunk::Text("".into()), int_chunk(5)]);
    assert_eq!(natsort_key("a+", alg), vec![Chunk::Text("a+".into())]);
}

#[test]
fn isolated_digit_is_real_under_real() {
    assert_eq!(natsort_key("①", Ns::real_flags()), vec![Chunk::Text("".into()), real_value(false, &[1], 0)]);
}

#[test]
fn text_sorts_after_numbers() {
    assert_eq!(natcmp("a", "1", Ns::default()), Ordering::Greater);
    assert_eq!(natcmp("x2y3", "x2y10", Ns::default()), Ordering::Less);
}

#[test]
fn humansorted_breaks_case_ties_by_plain_key() {
    let out = humansorted(&strings(&["B", "a", "A", "b"]));
    assert_eq!(out, vec!["A", "a", "B", "b"]);
}

#[test]
fn os_sorted_presort_breaks_ties_by_string() {
    let items = strings(&["a1", "a01"]);
    assert_eq!(os_sorted_presort(&items, true), vec!["a01", "a1"]);
    assert_eq!(os_sorted_presort(&items, false), vec!["a1", "a01"]);
    assert_eq!(index_os_sorted(&strings(&["b", "a"])), vec![1, 0]);
}

#[test]
fn natsorted_reverse_without_flag_is_plain_sort() {
    let input = strings(&["a10", "a9"]);
    assert_eq!(natsorted_reverse(&input, Ns::default(), false), vec!["a9", "a10"]);
}

#[test]
fn order_by_index_follows_any_index() {
    let items = strings(&["a", "b", "c"]);
    assert_eq!(order_by_index(&items, &[2, 2, 0]), vec!["c", "c", "a"]);
}

#[test]
fn sort_lines_splits_and_joins() {
    assert_eq!(sort_lines("b\r\na\nc\n", ""), "a\nb\nc");
    assert_eq!(sort_lines("", "real"), "");
    assert_eq!(sort_lines("x10\nx9", "real"), "x9\nx10");
}

#[test]
fn decoder_labels() {
    assert_eq!(decoder("ASCII")(&[0x41, 0xc3]), "A\u{FFFD}");
    assert_eq!(decoder("latin-1")(&[0x63, 0x61, 0x66, 0xc3, 0xa9]), "café");
    assert_eq!(as_ascii(&[0x80]), "\u{FFFD}");
}

#[test]
fn cli_flag_parsing() {
    let a = |xs: &[&str]| strings(xs);
    assert_eq!(
        parse_alg(&a(&["--signed", "--ignorecase"])),
        Ns { signed: true, ignorecase: true, ..Ns::default() }
    );
    assert_eq!(parse_alg(&a(&["--ignorecase", "--real"])), Ns::real_flags());
    assert_eq!(parse_alg(&a(&["--real", "--ignorecase"])), Ns { ignorecase: true, ..Ns::real_flags() });
    assert_eq!(alg_from_spec("signed,ignorecase"), Ns { signed: true, ignorecase: true, ..Ns::default() });
    assert_eq!(alg_from_spec(",,"), Ns::default());
    assert_eq!(alg_from_str("float"), Ns { float: true, ..Ns::default() });
    assert_eq!(alg_from_str("unknown"), Ns::default());
    assert_eq!(Ns::real_flags(), Ns { real: true, signed: true, float: true, ..Ns::default() });
}

#[test]
fn regex_for_unsigned_floats() {
    assert_eq!(
        numeric_regex_chooser(Ns { float: true, ..Ns::default() }),
        r"(?:\d+\.?\d*|\.\d+)(?:[eE][-+]?\d+)?"
    );
}

#[test]
fn chain_of_no_functions_is_identity() {
    let fns: Vec<Box<dyn Fn(String) -> String>> = Vec::new();
    let f = chain_functions(fns);
    assert_eq!(f("same".to_string()), "same");
}

#[test]
fn real_numbers_compare_by_value() {
    let a = RealNum::from_int(-120);
    let b = RealNum::from_digits(true, vec![1, 2], 1);
    assert_eq!(a.compare(&b), 0);
    assert_eq!(a, b);
    let five = RealNum::from_int(5);
    let almost = RealNum::from_digits(false, vec![4, 9, 9], -2);
    assert_eq!(five.compare(&almost), 1);
    assert_eq!(almost.compare(&five), -1);
    let x = RealNum::from_digits(false, vec![0, 1, 5, 0], -2);
    assert_eq!(x, RealNum::from_digits(false, vec![1, 5], -1));
    assert_eq!(x.mantissa_digits(), vec![1, 5]);
    assert_eq!(x.scale(), -1);
    assert!(!x.is_negative());
    let z = RealNum::from_digits(true, vec![0, 0], 7);
    assert_eq!(z, RealNum::zero());
    assert!(!z.is_negative());
}

fn token_strings(s: &str, alg: Ns) -> Vec<String> {
    key_tokens(s, alg)
        .iter()
        .map(|t| match t {
            Token::Text(x) => format!("T:{x}"),
            Token::Int(n) => format!("I:{n}"),
            Token::Real(r) => {
                let d: String = r.mantissa_digits().iter().map(|d| (b'0' + d) as char).collect();
                format!("R:{}{}e{}", if r.is_negative() { "-" } else { "" }, d, r.scale())
            }
        })
        .collect()
}

#[test]
fn key_tokens_write_texts_and_integers() {
    assert_eq!(token_strings("num10", Ns::default()), vec!["T:num", "I:10"]);
    assert_eq!(
        token_strings("a-5.034e2", Ns::default()),
        vec!["T:a-", "I:5", "T:.", "I:34", "T:e", "I:2"]
    );
    assert_eq!(token_strings("1.5", Ns::real_flags()), vec!["T:", "R:15e-1"]);
    assert_eq!(token_strings("x1000", Ns::default()), vec!["T:x", "I:1000"]);
    assert_eq!(token_strings("-007", Ns { signed: true, ..Ns::default() }), vec!["T:", "I:-7"]);
    assert_eq!(token_strings("-0", Ns { signed: true, ..Ns::default() }), vec!["T:", "I:0"]);
    let big = format!("1{}", "0".repeat(45));
    assert_eq!(token_strings(&big, Ns::default()), vec!["T:".to_string(), format!("I:{big}")]);
}

#[test]
fn law_key_shape_on_samples() {
    for alg in all_algs() {
        let float = alg.real || alg.float;
        for s in sample() {
            let k = natsort_key(&s, alg);
            assert!(!k.is_empty());
            for (i, c) in k.iter().enumerate() {
                match c {
                    Chunk::Text(_) => assert_eq!(i % 2, 0),
                    Chunk::Int(_) => assert!(i % 2 == 1 && !float),
                    Chunk::Real(_) => assert!(i % 2 == 1 && float),
                }
            }
            if k.len() >= 3 && k.len() % 2 == 1 {
                match k.last().unwrap() {
                    Chunk::Text(t) => assert!(!t.is_empty()),
                    _ => panic!("a key of odd length ends in text"),
                }
            }
        }
    }
}

#[test]
fn key_line_writes_typed_tokens() {
    let tokens = key_tokens("num10", Ns::default());
    let reals = vec![String::new(); tokens.len()];
    assert_eq!(key_line(&tokens, &reals), "T:num\tI:10");
    let tokens = key_tokens("a-5.034e2", Ns::default());
    let reals = vec![String::new(); tokens.len()];
    assert_eq!(key_line(&tokens, &reals), "T:a-\tI:5\tT:.\tI:34\tT:e\tI:2");
    let tokens = key_tokens("1.5", Ns::real_flags());
    let reals = vec![String::new(), "1.5".to_string()];
    assert_eq!(key_line(&tokens, &reals), "T:\tR:1.5");
    assert_eq!(key_line(&Vec::new(), &Vec::new()), "");
}

#[test]
fn os_sorted_keeps_input_order_of_ties_without_presort() {
    let items = strings(&["a1", "a01"]);
    assert_eq!(os_sorted_presort(&items, true), vec!["a01", "a1"]);
    assert_eq!(os_sorted_presort(&items, false), vec!["a1", "a01"]);
    assert_eq!(index_os_sorted_presort(&items, false), vec![0, 1]);
    assert_eq!(index_os_sorted_presort(&items, true), vec![1, 0]);
    assert_eq!(humansorted(&items), vec!["a01", "a1"]);
}

#[test]
fn chunks_compare_equal_by_value() {
    assert_eq!(Chunk::Int(RealNum::from_int(5)), Chunk::Real(RealNum::from_digits(false, vec![5, 0], -1)));
    assert_ne!(Chunk::Int(RealNum::from_int(5)), Chunk::Text("5".into()));
    assert_eq!(Chunk::Text("a".into()), Chunk::Text("a".into()));
}
