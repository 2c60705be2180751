//! Command-line configuration: exactly two user-supplied arguments
//! (search term and credentials-file path) beyond the program name.

use vstd::prelude::*;
use crate::errors::ParseError;

verus! {

/// The message carried by the usage error.
pub open spec fn usage_message() -> Seq<char> {
    "Two arguments should be provided: 'search term' 'credentials file'"@
}

/// Validates the argument list and extracts the search term and the
/// credentials-file path.
///
/// Succeeds exactly on a list of length 3 (program name plus two
/// arguments), returning the 2nd and 3rd elements unchanged and in order.
pub fn parse_config<'a>(args: &'a [String]) -> (r: Result<(&'a str, &'a str), ParseError>)
    ensures
        r is Ok <==> args@.len() == 3,
        r is Ok ==> r->Ok_0.0@ == args@[1]@ && r->Ok_0.1@ == args@[2]@,
        r is Err ==> r->Err_0@ == usage_message(),
{
    if args.len() != 3 {
        return Err(ParseError::new(
            "Two arguments should be provided: 'search term' 'credentials file'",
        ));
    }
    Ok((args[1].as_str(), args[2].as_str()))
}

} // verus!
