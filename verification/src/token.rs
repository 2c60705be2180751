//! Extraction of the hidden execution token from the login page.
//!
//! The page carries the token as the value attribute of a hidden HTML
//! input named `execution`. The extractor finds the leftmost occurrence
//! of that fragment: the fixed prefix up to the opening quote of the
//! value, a non-empty run of characters free of `"`, and the closing
//! `"/>`. The first such occurrence wins, and its captured run is the
//! token.

use vstd::prelude::*;
use vstd::string::StrSliceExecFns;
use crate::errors::ParseError;
use crate::strutil::find_char;
use crate::strutil::matches_at;

verus! {

/// The fixed fragment that immediately precedes the token.
pub open spec fn token_prefix() -> Seq<char> {
    "<input type=\"hidden\" name=\"execution\" value=\""@
}

/// A complete occurrence of the token fragment starting at `i`, whose
/// captured value spans `[i + prefix, j)` and ends at the closing `"/>`.
pub open spec fn match_at(s: Seq<char>, i: int, j: int) -> bool {
    &&& 0 <= i
    &&& i + token_prefix().len() < j
    &&& j + 3 <= s.len()
    &&& s.subrange(i, i + token_prefix().len()) == token_prefix()
    &&& (forall|k: int| i + token_prefix().len() <= k < j ==> s[k] != '"')
    &&& s[j] == '"'
    &&& s[j + 1] == '/'
    &&& s[j + 2] == '>'
}

/// An occurrence of the token fragment starts at `i`.
pub open spec fn match_starts_at(s: Seq<char>, i: int) -> bool {
    exists|j: int| match_at(s, i, j)
}

/// The page holds at least one occurrence of the token fragment.
pub open spec fn has_token(s: Seq<char>) -> bool {
    exists|i: int| match_starts_at(s, i)
}

/// The end of an occurrence starting at `i` is the first quote after the
/// prefix: no other end position can complete a match at `i`.
proof fn lemma_match_end_is_first_quote(s: Seq<char>, i: int, j2: int, j: int)
    requires
        match_at(s, i, j2),
        i + token_prefix().len() <= j < s.len(),
        s[j] == '"',
        forall|k: int| i + token_prefix().len() <= k < j ==> s[k] != '"',
    ensures
        j2 == j,
{
    if j2 < j {
        assert(s[j2] != '"');
    }
    if j2 > j {
        assert(s[j] != '"');
    }
}

/// Finds the execution token in the login-page body.
///
/// Returns the captured value of the leftmost occurrence of the token
/// fragment, or a parse error when the page holds none.
pub fn extract_execution_token(body: &str) -> (r: Result<String, ParseError>)
    ensures
        r is Ok <==> has_token(body@),
        r is Ok ==> exists|i: int, j: int|
            match_at(body@, i, j) && (forall|i2: int| match_starts_at(body@, i2) ==> i <= i2)
                && r->Ok_0@ == body@.subrange(i + token_prefix().len(), j),
        r is Err ==> r->Err_0@ == "execution token not found"@,
{
    let pat = "<input type=\"hidden\" name=\"execution\" value=\"";
    let n = body.unicode_len();
    let plen = pat.unicode_len();
    proof {
        assert(pat@ == token_prefix());
    }
    let mut i: usize = 0;
    while i < n
        invariant
            0 <= i <= n,
            n == body@.len(),
            n <= usize::MAX,
            plen == token_prefix().len(),
            pat@ == token_prefix(),
            forall|i2: int| 0 <= i2 < i ==> !match_starts_at(body@, i2),
        decreases n - i,
    {
        if n - i >= plen && matches_at(body, i, pat) {
            let start = i + plen;
            match find_char(body, start, n, '"') {
                Some(j) => {
                    if j == start {
                        proof {
                            assert(!match_starts_at(body@, i as int)) by {
                                if match_starts_at(body@, i as int) {
                                    let j2 = choose|j2: int| match_at(body@, i as int, j2);
                                    assert(body@[start as int] != '"');
                                }
                            }
                        }
                    } else if n - j < 3 {
                        proof {
                            assert(!match_starts_at(body@, i as int)) by {
                                if match_starts_at(body@, i as int) {
                                    let j2 = choose|j2: int| match_at(body@, i as int, j2);
                                    lemma_match_end_is_first_quote(
                                        body@,
                                        i as int,
                                        j2,
                                        j as int,
                                    );
                                }
                            }
                        }
                    } else if body.get_char(j + 1) != '/' || body.get_char(j + 2) != '>' {
                        proof {
                            assert(!match_starts_at(body@, i as int)) by {
                                if match_starts_at(body@, i as int) {
                                    let j2 = choose|j2: int| match_at(body@, i as int, j2);
                                    lemma_match_end_is_first_quote(
                                        body@,
                                        i as int,
                                        j2,
                                        j as int,
                                    );
                                }
                            }
                        }
                    } else {
                        let token = body.substring_char(start, j).to_owned();
                        proof {
                            assert(match_at(body@, i as int, j as int));
                            assert(match_starts_at(body@, i as int));
                            assert(has_token(body@));
                            assert(forall|i2: int|
                                match_starts_at(body@, i2) ==> i as int <= i2);
                        }
                        return Ok(token);
                    }
                },
                None => {
                    proof {
                        assert(!match_starts_at(body@, i as int)) by {
                            if match_starts_at(body@, i as int) {
                                let j2 = choose|j2: int| match_at(body@, i as int, j2);
                                assert(body@[j2] != '"');
                            }
                        }
                    }
                },
            }
        } else {
            proof {
                assert(!match_starts_at(body@, i as int)) by {
                    if match_starts_at(body@, i as int) {
                        let j2 = choose|j2: int| match_at(body@, i as int, j2);
                    }
                }
            }
        }
        i = i + 1;
    }
    proof {
        assert(!has_token(body@)) by {
            if has_token(body@) {
                let i2 = choose|i2: int| match_starts_at(body@, i2);
                let j2 = choose|j2: int| match_at(body@, i2, j2);
                assert(0 <= i2 < n);
            }
        }
    }
    Err(ParseError::new("execution token not found"))
}

} // verus!
