use natsort_core::{alg_from_spec, compare_to_str, parse_alg, Ns};

fn a(flags: &[&str]) -> Vec<String> {
    flags.iter().map(|s| s.to_string()).collect()
}

#[test]
fn parse_alg_reads_flags() {
    assert_eq!(parse_alg(&a(&["--real"])), Ns::real_flags());
    assert!(parse_alg(&a(&["--ignorecase"])).ignorecase);
    assert!(parse_alg(&a(&["--groupletters"])).groupletters);
    assert_eq!(parse_alg(&a(&[])), Ns::default());
}

#[test]
fn compare_to_str_matches_cli_contract() {
    assert_eq!(compare_to_str("num2", "num10", Ns::default()), "-1");
    assert_eq!(compare_to_str("num10", "num2", Ns::default()), "1");
    assert_eq!(compare_to_str("a", "a", Ns::default()), "0");
}

#[test]
fn alg_from_spec_parses_comma_flags() {
    assert_eq!(alg_from_spec("real"), Ns::real_flags());
    assert!(alg_from_spec("ignorecase").ignorecase);
    assert_eq!(alg_from_spec("int"), Ns::default());
    assert_eq!(alg_from_spec(""), Ns::default());
}
