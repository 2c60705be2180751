use denodo_search::build_search_url;
use denodo_search::encode_component;
use denodo_search::encode_form;

#[test]
fn encoding_space_and_ampersand_are_escaped() {
    let encoded = encode_component("foo & bar");
    assert_eq!(encoded, "foo%20%26%20bar");
    assert!(!encoded.contains(' '));
    assert!(!encoded.contains('&'));
}

#[test]
fn encoding_unreserved_bytes_pass_through() {
    let term = "AZaz09-._~";
    assert_eq!(encode_component(term), term);
}

#[test]
fn encoding_reserved_bytes_become_uppercase_hex() {
    assert_eq!(encode_component("?=#%/"), "%3F%3D%23%25%2F");
}

#[test]
fn encoding_multibyte_characters_encode_their_utf8_bytes() {
    assert_eq!(encode_component("caf\u{e9}"), "caf%C3%A9");
}

#[test]
fn encoding_matches_reference_implementation() {
    let samples = [
        "",
        "plain",
        "foo & bar",
        "a=b&c=d?e#f",
        "sp ace+plus%percent",
        "tilde~dot.dash-under_score",
        "\u{e9}\u{f6}\u{4e16}\u{754c}",
        "quote\"slash/back\\slash",
    ];
    for s in samples {
        assert_eq!(
            encode_component(s),
            urlencoding::encode(s).into_owned(),
            "term: {s:?}"
        );
    }
}

#[test]
fn encoding_form_body_joins_pairs_in_order() {
    let fields = vec![
        ("execution".to_string(), "tok/1".to_string()),
        ("user".to_string(), "alice".to_string()),
        ("pass".to_string(), "p w&x".to_string()),
    ];
    assert_eq!(encode_form(&fields), "execution=tok%2F1&user=alice&pass=p%20w%26x");
}

#[test]
fn encoding_form_body_of_empty_list_is_empty() {
    let fields: Vec<(String, String)> = vec![];
    assert_eq!(encode_form(&fields), "");
}

#[test]
fn encoding_search_url_carries_the_encoded_term() {
    assert_eq!(
        build_search_url("foo & bar"),
        "https://search.denodo.com/results/ajax/casesCaseComments?filter=foo%20%26%20bar&version=8"
    );
}

#[test]
fn encoding_search_url_for_plain_term() {
    assert_eq!(
        build_search_url("widgets"),
        "https://search.denodo.com/results/ajax/casesCaseComments?filter=widgets&version=8"
    );
}
