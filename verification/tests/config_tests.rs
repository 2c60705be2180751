use denodo_search::parse_config;

fn args(list: &[&str]) -> Vec<String> {
    list.iter().map(|s| s.to_string()).collect()
}

#[test]
fn config_rejects_empty_argument_list() {
    let a = args(&[]);
    let r = parse_config(&a);
    assert!(r.is_err());
}

#[test]
fn config_rejects_one_argument() {
    let a = args(&["prog"]);
    let r = parse_config(&a);
    assert!(r.is_err());
}

#[test]
fn config_rejects_two_arguments() {
    let a = args(&["prog", "term"]);
    let r = parse_config(&a);
    let e = r.err().unwrap();
    assert_eq!(
        e.details(),
        "Two arguments should be provided: 'search term' 'credentials file'"
    );
}

#[test]
fn config_rejects_four_arguments() {
    let a = args(&["prog", "term", "creds", "extra"]);
    let r = parse_config(&a);
    assert!(r.is_err());
}

#[test]
fn config_accepts_exactly_three_and_keeps_order() {
    let a = args(&["prog", "the term", "creds.txt"]);
    let (term, path) = parse_config(&a).unwrap();
    assert_eq!(term, "the term");
    assert_eq!(path, "creds.txt");
}
