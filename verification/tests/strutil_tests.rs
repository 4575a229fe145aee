use ape_dts::strutil::{find_char, parse_u64, replace, split_csv, str_eq, trim};

#[test]
fn trim_strips_surrounding_whitespace() {
    assert_eq!(trim("  a b \t"), "a b");
    assert_eq!(trim(""), "");
    assert_eq!(trim(" \t\r"), "");
    assert_eq!(trim("x"), "x");
}

#[test]
fn split_csv_trims_and_drops_empties() {
    assert_eq!(split_csv("a, b ,,c,"), vec!["a", "b", "c"]);
    assert_eq!(split_csv(""), Vec::<String>::new());
    assert_eq!(split_csv(" , "), Vec::<String>::new());
    assert_eq!(split_csv("only"), vec!["only"]);
}

#[test]
fn parse_u64_exact_values() {
    assert_eq!(parse_u64("0"), Some(0));
    assert_eq!(parse_u64("10008"), Some(10008));
    assert_eq!(parse_u64("18446744073709551615"), Some(u64::MAX));
    assert_eq!(parse_u64("18446744073709551616"), None);
    assert_eq!(parse_u64(""), None);
    assert_eq!(parse_u64("12a"), None);
    assert_eq!(parse_u64("-3"), None);
}

#[test]
fn replace_all_occurrences_left_to_right() {
    assert_eq!(replace("a.b.c", ".", "::"), "a::b::c");
    assert_eq!(replace("none here", "xyz", "!"), "none here");
    assert_eq!(replace("aaaa", "aa", "b"), "bb");
    assert_eq!(
        replace("CREATE INDEX i", "CREATE INDEX", "CREATE INDEX IF NOT EXISTS"),
        "CREATE INDEX IF NOT EXISTS i"
    );
}

#[test]
fn char_search_and_equality() {
    assert_eq!(find_char("a=b=c", '=', 0), Some(1));
    assert_eq!(find_char("a=b=c", '=', 2), Some(3));
    assert_eq!(find_char("a=b=c", '=', 4), None);
    assert!(str_eq("same", "same"));
    assert!(!str_eq("same", "sam"));
}
