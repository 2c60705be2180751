//! Parsing of the credentials file and assembly of the ordered login
//! form-field list.
//!
//! The file holds one `name=value` pair per line, split at the first
//! `=`; lines without `=` (blank lines among them) contribute nothing.
//! The assembled list starts with the synthesized `execution` field and
//! must come to exactly four entries in all.

use vstd::prelude::*;
use vstd::string::StrSliceExecFns;
use crate::errors::ParseError;
use crate::strutil::contains_char;
use crate::strutil::find_char;
use crate::strutil::first_pos;
use crate::strutil::lemma_first_pos;
use crate::strutil::lemma_first_pos_of_witness;

verus! {

/// The number of entries the assembled field list must have: the
/// execution token plus the fields the credentials file must supply.
pub const REQUIRED_FIELD_COUNT: usize = 4;

/// A line without the carriage return a CRLF ending leaves behind.
pub open spec fn strip_cr(line: Seq<char>) -> Seq<char> {
    if line.len() > 0 && line.last() == '\r' {
        line.drop_last()
    } else {
        line
    }
}

/// The fields one line contributes: its split at the first `=`, or
/// nothing when it has no `=`.
pub open spec fn line_fields(line: Seq<char>) -> Seq<(Seq<char>, Seq<char>)> {
    if contains_char(line, '=') {
        seq![(line.take(first_pos(line, '=')), line.skip(first_pos(line, '=') + 1))]
    } else {
        Seq::empty()
    }
}

/// The fields parsed from the whole credentials file, in file order.
/// Lines end at `\n`; a line ended by `\r\n` loses the carriage return;
/// a final unterminated line is taken as it stands.
pub open spec fn parsed_fields(s: Seq<char>) -> Seq<(Seq<char>, Seq<char>)>
    decreases s.len(),
    via parsed_fields_decreases
{
    if s.len() == 0 {
        Seq::empty()
    } else if contains_char(s, '\n') {
        line_fields(strip_cr(s.take(first_pos(s, '\n')))) + parsed_fields(
            s.skip(first_pos(s, '\n') + 1),
        )
    } else {
        line_fields(s)
    }
}

#[via_fn]
proof fn parsed_fields_decreases(s: Seq<char>) {
    lemma_first_pos(s, '\n');
}

/// The complete ordered field list: the execution token first, then the
/// fields of the credentials file.
pub open spec fn assembled_fields(token: Seq<char>, contents: Seq<char>) -> Seq<
    (Seq<char>, Seq<char>),
> {
    seq![("execution"@, token)] + parsed_fields(contents)
}

/// A line without `=` contributes no field: a file that begins with
/// such a line (blank lines among them), its newline included, parses
/// to exactly the fields of the rest of the file, so a malformed line
/// never moves the final count check.
pub proof fn lemma_line_without_eq_is_skipped(line: Seq<char>, rest: Seq<char>)
    requires
        forall|k: int| 0 <= k < line.len() ==> line[k] != '\n' && line[k] != '=',
    ensures
        parsed_fields(line + seq!['\n'] + rest) == parsed_fields(rest),
{
    let s = line + seq!['\n'] + rest;
    assert(s[line.len() as int] == '\n');
    assert(forall|k: int| 0 <= k < line.len() ==> s[k] == line[k]);
    lemma_first_pos_of_witness(s, '\n', line.len() as int);
    assert(s.take(line.len() as int) =~= line);
    assert(s.skip((line.len() + 1) as int) =~= rest);
    let stripped = strip_cr(line);
    assert(!contains_char(stripped, '=')) by {
        if contains_char(stripped, '=') {
            let w = choose|k: int| 0 <= k < stripped.len() && stripped[k] == '=';
            assert(line[w] != '=');
        }
    }
    assert(line_fields(stripped) + parsed_fields(rest) =~= parsed_fields(rest));
}

/// Parses the credentials file contents into its field pairs, keeping
/// file order.
pub fn parse_credential_fields(contents: &str) -> (r: Vec<(String, String)>)
    ensures
        r.deep_view() == parsed_fields(contents@),
{
    let n = contents.unicode_len();
    let mut out: Vec<(String, String)> = Vec::new();
    let mut i: usize = 0;
    proof {
        assert(contents@.skip(0) =~= contents@);
        assert(out.deep_view() + parsed_fields(contents@) =~= parsed_fields(contents@));
    }
    while i < n
        invariant
            0 <= i <= n,
            n == contents@.len(),
            n <= usize::MAX,
            parsed_fields(contents@) == out.deep_view() + parsed_fields(
                contents@.skip(i as int),
            ),
        decreases n - i,
    {
        let ghost suffix = contents@.skip(i as int);
        proof {
            assert(forall|k: int| 0 <= k < suffix.len() ==> suffix[k] == contents@[i + k]);
        }
        let newline = find_char(contents, i, n, '\n');
        let line_end: usize = match newline {
            Some(j) => j,
            None => n,
        };
        proof {
            match newline {
                Some(j) => {
                    lemma_first_pos_of_witness(suffix, '\n', j - i);
                },
                None => {
                    assert(!contains_char(suffix, '\n')) by {
                        if contains_char(suffix, '\n') {
                            let w = choose|k: int|
                                0 <= k < suffix.len() && suffix[k] == '\n';
                            assert(contents@[i + w] != '\n');
                        }
                    }
                },
            }
        }
        // Strip a carriage return only from a line that a newline ended.
        let content_end: usize = if line_end > i && matches!(newline, Some(_))
            && contents.get_char(line_end - 1) == '\r' {
            line_end - 1
        } else {
            line_end
        };
        let ghost line = match newline {
            Some(j) => strip_cr(suffix.take(j - i)),
            None => suffix,
        };
        proof {
            assert(line =~= contents@.subrange(i as int, content_end as int));
            assert(forall|k: int| 0 <= k < line.len() ==> line[k] == contents@[i + k]);
        }
        match find_char(contents, i, content_end, '=') {
            Some(k) => {
                proof {
                    lemma_first_pos_of_witness(line, '=', k - i);
                }
                let name = contents.substring_char(i, k).to_owned();
                let value = contents.substring_char(k + 1, content_end).to_owned();
                let ghost before = out.deep_view();
                out.push((name, value));
                proof {
                    assert(name@ =~= line.take(k - i));
                    assert(value@ =~= line.skip(k - i + 1));
                    assert(out.deep_view() =~= before + line_fields(line));
                }
            },
            None => {
                proof {
                    assert(!contains_char(line, '=')) by {
                        if contains_char(line, '=') {
                            let w = choose|k2: int| 0 <= k2 < line.len() && line[k2] == '=';
                            assert(contents@[i + w] != '=');
                        }
                    }
                    assert(out.deep_view() =~= out.deep_view() + line_fields(line));
                }
            },
        }
        proof {
            match newline {
                Some(j) => {
                    assert(suffix.skip(j - i + 1) =~= contents@.skip(j + 1));
                },
                None => {
                    assert(contents@.skip(n as int) =~= Seq::<char>::empty());
                    assert(parsed_fields(suffix) == line_fields(line));
                },
            }
        }
        i = match newline {
            Some(j) => j + 1,
            None => n,
        };
    }
    proof {
        assert(contents@.skip(n as int) =~= Seq::<char>::empty());
        assert(out.deep_view() + parsed_fields(Seq::<char>::empty()) =~= out.deep_view());
    }
    out
}

/// Assembles the complete login field list: the execution token first,
/// then the fields of the credentials file, in order. Succeeds exactly
/// when the list comes to the required four entries.
pub fn build_login_fields(token: &str, contents: &str) -> (r: Result<
    Vec<(String, String)>,
    ParseError,
>)
    ensures
        r is Ok <==> assembled_fields(token@, contents@).len() == REQUIRED_FIELD_COUNT,
        r is Ok ==> r->Ok_0.deep_view() == assembled_fields(token@, contents@),
        r is Err ==> r->Err_0@ == "username and password not present"@,
{
    let mut fields: Vec<(String, String)> = Vec::new();
    fields.push(("execution".to_owned(), token.to_owned()));
    let mut parsed = parse_credential_fields(contents);
    fields.append(&mut parsed);
    proof {
        assert(fields.deep_view() =~= assembled_fields(token@, contents@));
    }
    if fields.len() == REQUIRED_FIELD_COUNT {
        Ok(fields)
    } else {
        Err(ParseError::new("username and password not present"))
    }
}

} // verus!
