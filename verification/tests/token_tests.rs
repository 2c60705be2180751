use denodo_search::extract_execution_token;
use regex::Regex;

const PATTERN: &str = "<input type=\"hidden\" name=\"execution\" value=\"([^\"]+)\"/>";

fn reference_extract(body: &str) -> Option<String> {
    let re = Regex::new(PATTERN).unwrap();
    re.captures(body)
        .and_then(|cap| cap.get(1).map(|m| m.as_str().to_string()))
}

#[test]
fn token_found_in_simple_page() {
    let body = "<html><input type=\"hidden\" name=\"execution\" value=\"abc123\"/></html>";
    let token = extract_execution_token(body).unwrap();
    assert_eq!(token, "abc123");
}

#[test]
fn token_missing_gives_parse_error() {
    let body = "<html><input type=\"text\" name=\"user\" value=\"x\"/></html>";
    let e = extract_execution_token(body).err().unwrap();
    assert_eq!(e.details(), "execution token not found");
}

#[test]
fn token_empty_value_is_no_match() {
    let body = "<input type=\"hidden\" name=\"execution\" value=\"\"/>";
    assert!(extract_execution_token(body).is_err());
    assert_eq!(reference_extract(body), None);
}

#[test]
fn token_first_occurrence_wins() {
    let body = "<input type=\"hidden\" name=\"execution\" value=\"first\"/>\
                <input type=\"hidden\" name=\"execution\" value=\"second\"/>";
    let token = extract_execution_token(body).unwrap();
    assert_eq!(token, "first");
}

#[test]
fn token_broken_terminator_is_skipped() {
    let body = "<input type=\"hidden\" name=\"execution\" value=\"broken\">\
                <input type=\"hidden\" name=\"execution\" value=\"good\"/>";
    let token = extract_execution_token(body).unwrap();
    assert_eq!(token, "good");
}

#[test]
fn token_matches_reference_regex() {
    let bodies = [
        "",
        "no token here",
        "<input type=\"hidden\" name=\"execution\" value=\"e1s1\"/>",
        "x<input type=\"hidden\" name=\"execution\" value=\"a/b=c&d\"/>y",
        "<input type=\"hidden\" name=\"execution\" value=\"unterminated",
        "<input type=\"hidden\" name=\"execution\" value=\"\"/>",
        "<input type=\"hidden\" name=\"execution\" value=\"one\"/> and \
         <input type=\"hidden\" name=\"execution\" value=\"two\"/>",
        "prefix only: <input type=\"hidden\" name=\"execution\" ",
        "caf\u{e9} <input type=\"hidden\" name=\"execution\" value=\"t\u{f6}k\"/> caf\u{e9}",
    ];
    for body in bodies {
        let got = extract_execution_token(body).ok();
        assert_eq!(got, reference_extract(body), "body: {body:?}");
    }
}
