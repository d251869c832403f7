use vstd::prelude::*;

use crate::decimal::{is_unsigned_decimal, parse_unsigned, unsigned_value};
use crate::error::Error;
use crate::model::{violations_of, violations_view, TodoInput};

verus! {

/// A path parameter, already read as its type.
pub struct Path<T>(pub T);

/// A request body, already parsed and checked against its field rules.
pub struct JsonExtractor<T>(pub T);

/// Whether a path segment reads as a `u32`.
pub open spec fn is_u32_segment(raw: Seq<char>) -> bool {
    is_unsigned_decimal(raw) && unsigned_value(raw) <= u32::MAX
}

/// The client-facing text for a path segment that is not a `u32`.
pub open spec fn path_rejection_text(raw: Seq<char>) -> Seq<char> {
    "Invalid URL: Cannot parse `\""@ + raw + "\"` to a `u32`"@
}

impl Path<u32> {
    /// Reads a path segment as an id; text that is not a `u32` is refused.
    pub fn from_segment(raw: &str) -> (r: Result<Path<u32>, Error>)
        ensures
            r is Ok <==> is_u32_segment(raw@),
            r matches Ok(p) ==> p.0 == unsigned_value(raw@),
            r matches Err(e) ==> e matches Error::PathExtractor(m) && m@ == path_rejection_text(raw@),
    {
        match parse_unsigned(raw, 0xffff_ffff) {
            Some(v) => Ok(Path(v as u32)),
            None => {
                let mut m = String::from_str("Invalid URL: Cannot parse `\"");
                m.append(raw);
                m.append("\"` to a `u32`");
                Err(Error::PathExtractor(m))
            },
        }
    }
}

impl JsonExtractor<TodoInput> {
    /// Takes the outcome of parsing a body: a parse failure, with its text, is refused as an
    /// invalid body; a parsed input that breaks a field rule is refused with every violation.
    pub fn from_parsed(parsed: Result<TodoInput, String>) -> (r: Result<
        JsonExtractor<TodoInput>,
        Error,
    >)
        ensures
            parsed matches Err(m) ==> r == Err::<JsonExtractor<TodoInput>, Error>(
                Error::JSONExtractor(m),
            ),
            parsed matches Ok(input) ==> (r is Ok <==> violations_of(input).len() == 0),
            parsed matches Ok(input) ==> (r matches Ok(j) ==> j.0 == input),
            parsed matches Ok(input) ==> (r matches Err(e) ==> e matches Error::Validator(v)
                && violations_view(v@) == violations_of(input)),
    {
        match parsed {
            Err(m) => Err(Error::JSONExtractor(m)),
            Ok(input) => match input.validate() {
                Ok(()) => Ok(JsonExtractor(input)),
                Err(v) => Err(Error::Validator(v)),
            },
        }
    }
}

} // verus!
