use flow_engine::params::{arg_parse, parse_u64};

#[test]
fn extracts_quoted_value() {
    assert_eq!(arg_parse("{ms:'5'}", "ms"), Some("5".to_string()));
    assert_eq!(arg_parse("{url:'http://x.org/a', ms:'10'}", "ms"), Some("10".to_string()));
    assert_eq!(arg_parse("{url:'http://x.org/a', ms:'10'}", "url"), Some("http://x.org/a".to_string()));
}

#[test]
fn spaces_after_colon_are_skipped() {
    assert_eq!(arg_parse("{cron:   '* * * * * * *'}", "cron"), Some("* * * * * * *".to_string()));
    assert_eq!(arg_parse("{input:\t'red panda'}", "input"), Some("red panda".to_string()));
}

#[test]
fn missing_or_malformed_key_gives_none() {
    assert_eq!(arg_parse("", "ms"), None);
    assert_eq!(arg_parse("{ms:5}", "ms"), None);
    assert_eq!(arg_parse("{ms:'5}", "ms"), None);
    assert_eq!(arg_parse("{url:'x'}", "ms"), None);
}

#[test]
fn first_entry_wins_and_empty_value_is_kept() {
    assert_eq!(arg_parse("{ms:'1', ms:'2'}", "ms"), Some("1".to_string()));
    assert_eq!(arg_parse("{component:''}", "component"), Some("".to_string()));
}

#[test]
fn key_is_found_inside_a_longer_name() {
    // The key is matched wherever it stands, as the pattern `key:\s*'...'` does.
    assert_eq!(arg_parse("{back_time:'7'}", "time"), Some("7".to_string()));
}

#[test]
fn extracting_twice_gives_the_same_value() {
    let blob = "{component:'searchInput', input:'red panda'}";
    let first = arg_parse(blob, "input");
    let second = arg_parse(blob, "input");
    assert_eq!(first, second);
    assert_eq!(first, Some("red panda".to_string()));
    assert_eq!(arg_parse(blob, "missing"), arg_parse(blob, "missing"));
}

#[test]
fn reads_unsigned_numbers() {
    assert_eq!(parse_u64("0"), Some(0));
    assert_eq!(parse_u64("5"), Some(5));
    assert_eq!(parse_u64("+42"), Some(42));
    assert_eq!(parse_u64("007"), Some(7));
    assert_eq!(parse_u64("18446744073709551615"), Some(u64::MAX));
}

#[test]
fn rejects_what_is_not_an_unsigned_number() {
    assert_eq!(parse_u64(""), None);
    assert_eq!(parse_u64("+"), None);
    assert_eq!(parse_u64("-1"), None);
    assert_eq!(parse_u64("12a"), None);
    assert_eq!(parse_u64(" 1"), None);
    assert_eq!(parse_u64("18446744073709551616"), None);
}
