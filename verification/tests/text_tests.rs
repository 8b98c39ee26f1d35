use pokedex::text::{
    before_last, eq_ignore_ascii_case, i64_to_decimal, join, parse_i64, replace_char, strip_prefix, to_lowercase,
    trim, trim_end_char, trim_start_char, u64_to_decimal,
};

#[test]
fn decimal_round_trip() {
    for n in [0i64, 7, -7, 42, 1025, i64::MAX, i64::MIN] {
        assert_eq!(parse_i64(&i64_to_decimal(n)), Some(n));
        assert_eq!(i64_to_decimal(n), n.to_string());
    }
    assert_eq!(u64_to_decimal(u64::MAX), u64::MAX.to_string());
}

#[test]
fn parse_matches_std() {
    for s in ["", "+", "-", "12a", "+12", "-0", "9223372036854775808", "007"] {
        assert_eq!(parse_i64(s), s.parse::<i64>().ok(), "{s}");
    }
}

#[test]
fn string_helpers_match_std() {
    assert_eq!(to_lowercase("ÉCLAIR Pikachu"), "éclair pikachu");
    assert_eq!(trim("  a b \n"), "a b");
    assert_eq!(trim_end_char("50%%", '%'), "50");
    assert_eq!(trim_start_char("--alola", '-'), "alola");
    assert_eq!(replace_char("a-b-c", '-', ' '), "a b c");
    assert_eq!(strip_prefix("vulpix-alola", "vulpix"), Some("-alola".to_string()));
    assert_eq!(strip_prefix("ab", "abc"), None);
    assert_eq!(before_last("a/b/c", '/'), Some("a/b".to_string()));
    assert_eq!(join(&["a", "b", "c"], ", "), "a, b, c");
    assert!(eq_ignore_ascii_case("FiRe", "fire"));
    assert!(!eq_ignore_ascii_case("fire", "fir"));
}
