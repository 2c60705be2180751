//! Percent-encoding of URL components, form-body encoding of the ordered
//! field list, and assembly of the search URL.
//!
//! A byte is kept as it stands when it is an ASCII letter, a digit, or
//! one of `-`, `.`, `_`, `~`; every other byte becomes `%` followed by
//! two uppercase hexadecimal digits.

use vstd::prelude::*;
use vstd::string::StrSliceExecFns;
use vstd::string::StringExecFns;
use vstd::string::StringSliceAdditionalSpecFns;
use crate::strutil::push_char;

verus! {

/// A byte that percent-encoding keeps unchanged.
pub open spec fn is_unreserved_byte(b: u8) -> bool {
    (48 <= b <= 57)  // '0' ..= '9'
    || (65 <= b <= 90)  // 'A' ..= 'Z'
    || (97 <= b <= 122)  // 'a' ..= 'z'
    || b == 45  // '-'
    || b == 46  // '.'
    || b == 95  // '_'
    || b == 126  // '~'
}

/// The uppercase hexadecimal digit for a value below 16.
pub open spec fn hex_digit_char(d: u8) -> char
    recommends
        d < 16,
{
    if d < 10 {
        ((48 + d) as u8) as char
    } else {
        ((55 + d) as u8) as char  // 'A' is 65, so 10 maps to 65
    }
}

/// What one byte contributes to the encoded output.
pub open spec fn encoded_byte(b: u8) -> Seq<char> {
    if is_unreserved_byte(b) {
        seq![b as char]
    } else {
        seq!['%', hex_digit_char(b / 16), hex_digit_char(b % 16)]
    }
}

/// The percent-encoding of a byte sequence.
pub open spec fn percent_encoded(bs: Seq<u8>) -> Seq<char>
    decreases bs.len(),
{
    if bs.len() == 0 {
        Seq::empty()
    } else {
        percent_encoded(bs.drop_last()) + encoded_byte(bs.last())
    }
}

/// Percent-encodes a byte sequence into a string.
pub fn encode_bytes(bs: &[u8]) -> (r: String)
    ensures
        r@ == percent_encoded(bs@),
{
    let mut out = String::new();
    let mut i: usize = 0;
    while i < bs.len()
        invariant
            0 <= i <= bs@.len(),
            out@ == percent_encoded(bs@.take(i as int)),
        decreases bs@.len() - i,
    {
        let b = bs[i];
        if (48 <= b && b <= 57) || (65 <= b && b <= 90) || (97 <= b && b <= 122) || b == 45
            || b == 46 || b == 95 || b == 126 {
            push_char(&mut out, b as char);
        } else {
            push_char(&mut out, '%');
            let hi = b / 16;
            let lo = b % 16;
            push_char(&mut out, if hi < 10 { (48 + hi) as char } else { (55 + hi) as char });
            push_char(&mut out, if lo < 10 { (48 + lo) as char } else { (55 + lo) as char });
        }
        proof {
            assert(bs@.take(i + 1).drop_last() =~= bs@.take(i as int));
            assert(bs@.take(i + 1).last() == bs@[i as int]);
            assert(out@ =~= percent_encoded(bs@.take(i as int)) + encoded_byte(bs@[i as int]));
        }
        i = i + 1;
    }
    proof {
        assert(bs@.take(bs@.len() as int) =~= bs@);
    }
    out
}

/// Percent-encodes the UTF-8 bytes of a string, as a URL query component
/// must be encoded.
pub fn encode_component(s: &str) -> (r: String)
    ensures
        r@ == percent_encoded(s.spec_bytes()),
{
    encode_bytes(s.as_bytes())
}

/// One `name=value` unit of a form body, both sides percent-encoded.
pub open spec fn encoded_pair(name: Seq<u8>, value: Seq<u8>) -> Seq<char> {
    percent_encoded(name) + seq!['='] + percent_encoded(value)
}

/// The bytes of the strings of one field pair.
pub open spec fn pair_bytes(f: (Seq<char>, Seq<char>)) -> (Seq<u8>, Seq<u8>) {
    (vstd::utf8::encode_utf8(f.0), vstd::utf8::encode_utf8(f.1))
}

/// The standard URL-encoded form body of an ordered field list:
/// `name=value` units joined by `&`.
pub open spec fn form_body(fs: Seq<(Seq<char>, Seq<char>)>) -> Seq<char>
    decreases fs.len(),
{
    if fs.len() == 0 {
        Seq::empty()
    } else if fs.len() == 1 {
        encoded_pair(pair_bytes(fs[0]).0, pair_bytes(fs[0]).1)
    } else {
        form_body(fs.drop_last()) + seq!['&'] + encoded_pair(
            pair_bytes(fs.last()).0,
            pair_bytes(fs.last()).1,
        )
    }
}

/// Encodes the ordered field list as a form body, insertion order kept.
pub fn encode_form(fields: &Vec<(String, String)>) -> (r: String)
    ensures
        r@ == form_body(fields.deep_view()),
{
    let mut out = String::new();
    let mut i: usize = 0;
    while i < fields.len()
        invariant
            0 <= i <= fields@.len(),
            out@ == form_body(fields.deep_view().take(i as int)),
        decreases fields@.len() - i,
    {
        if i > 0 {
            push_char(&mut out, '&');
        }
        let name_enc = encode_component(fields[i].0.as_str());
        out.append(name_enc.as_str());
        push_char(&mut out, '=');
        let value_enc = encode_component(fields[i].1.as_str());
        out.append(value_enc.as_str());
        proof {
            assert(fields.deep_view().take(i + 1).drop_last() =~= fields.deep_view().take(
                i as int,
            ));
            assert(fields.deep_view().take(i + 1).last() == fields.deep_view()[i as int]);
            assert(fields.deep_view()[i as int] == (fields@[i as int].0@, fields@[i as int].1@));
            assert(out@ =~= form_body(fields.deep_view().take(i + 1)));
        }
        i = i + 1;
    }
    proof {
        assert(fields.deep_view().take(fields@.len() as int) =~= fields.deep_view());
    }
    out
}

/// The fixed search URL carrying the percent-encoded term as its
/// `filter` parameter.
pub open spec fn search_url(term_bytes: Seq<u8>) -> Seq<char> {
    "https://search.denodo.com/results/ajax/casesCaseComments?filter="@ + percent_encoded(
        term_bytes,
    ) + "&version=8"@
}

/// Builds the search URL for a term.
pub fn build_search_url(search: &str) -> (r: String)
    ensures
        r@ == search_url(search.spec_bytes()),
{
    let mut out = "https://search.denodo.com/results/ajax/casesCaseComments?filter=".to_owned();
    let term = encode_component(search);
    out.append(term.as_str());
    out.append("&version=8");
    out
}

/// Percent-encoded output never holds a character that delimits a query
/// string: no space, `&`, `=`, `?`, or `#` survives encoding, so an
/// encoded value cannot split or terminate the parameter it stands in.
pub proof fn lemma_percent_encoding_is_query_safe(bs: Seq<u8>)
    ensures
        forall|i: int|
            0 <= i < percent_encoded(bs).len() ==> percent_encoded(bs)[i] != ' '
                && percent_encoded(bs)[i] != '&' && percent_encoded(bs)[i] != '='
                && percent_encoded(bs)[i] != '?' && percent_encoded(bs)[i] != '#',
    decreases bs.len(),
{
    if bs.len() > 0 {
        lemma_percent_encoding_is_query_safe(bs.drop_last());
        let b = bs.last();
        assert(forall|i: int|
            0 <= i < encoded_byte(b).len() ==> encoded_byte(b)[i] != ' ' && encoded_byte(b)[i]
                != '&' && encoded_byte(b)[i] != '=' && encoded_byte(b)[i] != '?' && encoded_byte(
                b,
            )[i] != '#');
        let left = percent_encoded(bs.drop_last());
        assert forall|i: int| 0 <= i < percent_encoded(bs).len() implies percent_encoded(bs)[i]
            != ' ' && percent_encoded(bs)[i] != '&' && percent_encoded(bs)[i] != '='
            && percent_encoded(bs)[i] != '?' && percent_encoded(bs)[i] != '#' by {
            if i < left.len() {
                assert(percent_encoded(bs)[i] == left[i]);
            } else {
                assert(percent_encoded(bs)[i] == encoded_byte(b)[i - left.len()]);
            }
        }
    }
}

} // verus!
