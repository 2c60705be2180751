use denodo_search::build_login_fields;
use denodo_search::parse_credential_fields;

fn pairs(v: &[(String, String)]) -> Vec<(&str, &str)> {
    v.iter().map(|(a, b)| (a.as_str(), b.as_str())).collect()
}

#[test]
fn credentials_two_lines_parse_in_order() {
    let fields = parse_credential_fields("user=alice\npass=secret");
    assert_eq!(pairs(&fields), vec![("user", "alice"), ("pass", "secret")]);
}

#[test]
fn credentials_token_heads_the_assembled_list() {
    let r = build_login_fields("abc123", "user=alice\npass=secret\n_eventId=submit");
    let fields = r.unwrap();
    assert_eq!(
        pairs(&fields),
        vec![
            ("execution", "abc123"),
            ("user", "alice"),
            ("pass", "secret"),
            ("_eventId", "submit"),
        ]
    );
}

#[test]
fn credentials_two_line_file_fails_count_check() {
    // The token plus two file fields come to three entries, not the
    // required four.
    let e = build_login_fields("abc123", "user=alice\npass=secret").err().unwrap();
    assert_eq!(e.details(), "username and password not present");
}

#[test]
fn credentials_one_valid_line_fails_count_check() {
    let e = build_login_fields("abc123", "user=alice").err().unwrap();
    assert_eq!(e.details(), "username and password not present");
}

#[test]
fn credentials_blank_and_malformed_lines_are_skipped() {
    let contents = "\nuser=alice\nthis line has no equals sign\n\npass=secret\n# comment\n";
    let fields = parse_credential_fields(contents);
    assert_eq!(pairs(&fields), vec![("user", "alice"), ("pass", "secret")]);
}

#[test]
fn credentials_malformed_lines_leave_count_check_unmoved() {
    let with_noise = "user=alice\nnoise\n\npass=secret\nmore noise\n_eventId=submit";
    let plain = "user=alice\npass=secret\n_eventId=submit";
    let a = build_login_fields("t", with_noise).unwrap();
    let b = build_login_fields("t", plain).unwrap();
    assert_eq!(pairs(&a), pairs(&b));
}

#[test]
fn credentials_split_at_first_equals_only() {
    let fields = parse_credential_fields("key=a=b=c");
    assert_eq!(pairs(&fields), vec![("key", "a=b=c")]);
}

#[test]
fn credentials_empty_value_and_empty_name_are_kept() {
    let fields = parse_credential_fields("name=\n=value");
    assert_eq!(pairs(&fields), vec![("name", ""), ("", "value")]);
}

#[test]
fn credentials_crlf_line_endings_lose_the_carriage_return() {
    let fields = parse_credential_fields("user=alice\r\npass=secret\r\n");
    assert_eq!(pairs(&fields), vec![("user", "alice"), ("pass", "secret")]);
}

#[test]
fn credentials_final_line_needs_no_newline() {
    let fields = parse_credential_fields("user=alice\npass=secret");
    assert_eq!(pairs(&fields), vec![("user", "alice"), ("pass", "secret")]);
}

#[test]
fn credentials_empty_file_yields_no_fields() {
    let fields = parse_credential_fields("");
    assert!(fields.is_empty());
}

#[test]
fn credentials_match_std_line_splitting() {
    let samples = [
        "a=1\nb=2\nc=3",
        "a=1\r\nb=2\r\n",
        "\n\na=1\n",
        "lonely",
        "a=1\nnoise line\nb=2\n",
        "trailing=cr\r",
    ];
    for contents in samples {
        let got = pairs(&parse_credential_fields(contents))
            .iter()
            .map(|(a, b)| (a.to_string(), b.to_string()))
            .collect::<Vec<_>>();
        let expected: Vec<(String, String)> = contents
            .lines()
            .filter_map(|line| {
                line.split_once('=')
                    .map(|(a, b)| (a.to_string(), b.to_string()))
            })
            .collect();
        assert_eq!(got, expected, "contents: {contents:?}");
    }
}
