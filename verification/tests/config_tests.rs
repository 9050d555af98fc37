use peer_discovery::config::parse_key_val;

#[test]
fn parse_simple_pair() {
    let (k, v) = parse_key_val("a=b").unwrap();
    assert_eq!(k, "a");
    assert_eq!(v, "b");
}

#[test]
fn parse_splits_at_first_eq() {
    let (k, v) = parse_key_val("a=b=c").unwrap();
    assert_eq!(k, "a");
    assert_eq!(v, "b=c");
}

#[test]
fn parse_empty_key_and_value() {
    let (k, v) = parse_key_val("=v").unwrap();
    assert_eq!(k, "");
    assert_eq!(v, "v");
    let (k, v) = parse_key_val("k=").unwrap();
    assert_eq!(k, "k");
    assert_eq!(v, "");
}

#[test]
fn parse_missing_eq_fails_with_descriptive_error() {
    let e = parse_key_val("abc").unwrap_err();
    assert_eq!(e.input, "abc");
    assert_eq!(e.message(), "invalid KEY=value: no `=` found in `abc`");
}

#[test]
fn parse_empty_string_fails() {
    let e = parse_key_val("").unwrap_err();
    assert_eq!(e.input, "");
}
