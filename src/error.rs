use vstd::prelude::*;

use crate::decimal::{decimal, decimal_of};
use crate::model::{violations_view, FieldViolation};

verus! {

/// A failure as a storage backend reports it, before it is given meaning.
#[derive(Clone, Debug, PartialEq)]
pub enum StoreError {
    /// The query matched no row.
    RowNotFound,
    /// Any other fault of the backing store, with its diagnostic text.
    Other(String),
}

/// Every error that can reach the HTTP boundary.
#[derive(Clone, Debug, PartialEq)]
pub enum Error {
    /// No entity of this name has this id.
    ResourceNotFound { name: String, id: u32 },
    /// The request body is not well-formed JSON of the expected shape.
    JSONExtractor(String),
    /// A path parameter could not be read as its type.
    PathExtractor(String),
    /// The body was read but broke field rules; every violation is kept.
    Validator(Vec<FieldViolation>),
    /// Anything unanticipated from a lower layer.
    Unexpected(String),
}

/// The HTTP status of an error.
pub open spec fn status_of(e: Error) -> u16 {
    match e {
        Error::ResourceNotFound { .. } => 404,
        Error::JSONExtractor(_) => 400,
        Error::PathExtractor(_) => 400,
        Error::Validator(_) => 400,
        Error::Unexpected(_) => 500,
    }
}

/// The stable machine-readable code of an error.
pub open spec fn error_code_of(e: Error) -> Seq<char> {
    match e {
        Error::ResourceNotFound { .. } => "error.entity.not-found"@,
        Error::JSONExtractor(_) => "error.payload.invalid"@,
        Error::Validator(_) => "error.payload.invalid"@,
        Error::PathExtractor(_) => "error.path-parms.invalid"@,
        Error::Unexpected(_) => "error.unexpected"@,
    }
}

/// The type URL of an error: its code under the `type://` scheme.
pub open spec fn type_url_of(e: Error) -> Seq<char> {
    "type://"@ + error_code_of(e)
}

/// One violation as a line of text.
pub open spec fn violation_line(v: (Seq<char>, Seq<char>)) -> Seq<char> {
    v.0 + ": "@ + v.1
}

/// All violations, one per line.
pub open spec fn violations_text(v: Seq<(Seq<char>, Seq<char>)>) -> Seq<char>
    decreases v.len(),
{
    if v.len() == 0 {
        seq![]
    } else if v.len() == 1 {
        violation_line(v[0])
    } else {
        violations_text(v.drop_last()) + "\n"@ + violation_line(v.last())
    }
}

/// The diagnostic text an error shows to the client, if any.
pub open spec fn details_of(e: Error) -> Option<Seq<char>> {
    match e {
        Error::JSONExtractor(body) => Some(body@),
        Error::PathExtractor(body) => Some(body@),
        Error::Validator(v) => Some(violations_text(violations_view(v@))),
        _ => None,
    }
}

/// The human-readable title of an error.
pub open spec fn title_of(e: Error) -> Seq<char> {
    match e {
        Error::ResourceNotFound { name, id } => "Requested resource '"@ + name@ + "' with ID: "@
            + decimal_of(id as nat) + " not found"@,
        Error::JSONExtractor(_) => "Error extracting json payload"@,
        Error::PathExtractor(_) => "Error extracting path parameters"@,
        Error::Validator(_) => "Invalid request body"@,
        Error::Unexpected(_) => "Unexpected error"@,
    }
}

/// The error that a store failure means during a lookup of `id` in `name`.
pub open spec fn from_context_of(e: StoreError, name: String, id: u32) -> Error {
    match e {
        StoreError::RowNotFound => Error::ResourceNotFound { name, id },
        StoreError::Other(msg) => Error::Unexpected(msg),
    }
}

/// Whether an error says that the entity `name` has no row with `id`.
pub open spec fn is_not_found(e: Error, name: Seq<char>, id: u32) -> bool {
    e matches Error::ResourceNotFound { name: n, id: i } && n@ == name && i == id
}

/// Whether an error says that no todo has `id`.
pub open spec fn is_todo_not_found(e: Error, id: u32) -> bool {
    is_not_found(e, "todo"@, id)
}

/// The not-found error for a todo id.
pub fn todo_not_found(id: u32) -> (e: Error)
    ensures
        is_todo_not_found(e, id),
{
    Error::ResourceNotFound { name: String::from_str("todo"), id }
}

/// Renders violations one per line, as `field: message`.
pub fn render_violations(v: &Vec<FieldViolation>) -> (r: String)
    ensures
        r@ == violations_text(violations_view(v@)),
{
    let ghost view = violations_view(v@);
    let mut out = String::new();
    let mut i: usize = 0;
    while i < v.len()
        invariant
            i <= v.len(),
            view == violations_view(v@),
            out@ == violations_text(view.subrange(0, i as int)),
        decreases v.len() - i,
    {
        proof {
            let next = view.subrange(0, i + 1);
            assert(next.drop_last() =~= view.subrange(0, i as int));
            assert(next.last() == view[i as int]);
        }
        if i > 0 {
            out.append("\n");
        }
        out.append(v[i].field.as_str());
        out.append(": ");
        out.append(v[i].message.as_str());
        proof {
            let next = view.subrange(0, i + 1);
            if i == 0 {
                assert(out@ =~= violation_line(next[0]));
            } else {
                assert(out@ =~= violations_text(next.drop_last()) + "\n"@ + violation_line(next.last()));
            }
        }
        i = i + 1;
    }
    assert(view.subrange(0, v.len() as int) =~= view);
    out
}

impl Error {
    /// The stable dotted code that identifies this kind of error.
    pub fn error_code(&self) -> (r: &'static str)
        ensures
            r@ == error_code_of(*self),
    {
        match self {
            Error::ResourceNotFound { .. } => "error.entity.not-found",
            Error::JSONExtractor(_) => "error.payload.invalid",
            Error::Validator(_) => "error.payload.invalid",
            Error::PathExtractor(_) => "error.path-parms.invalid",
            Error::Unexpected(_) => "error.unexpected",
        }
    }

    /// The HTTP status this error is answered with.
    pub fn status_code(&self) -> (r: u16)
        ensures
            r == status_of(*self),
    {
        match self {
            Error::ResourceNotFound { .. } => 404,
            Error::JSONExtractor(_) => 400,
            Error::PathExtractor(_) => 400,
            Error::Validator(_) => 400,
            Error::Unexpected(_) => 500,
        }
    }

    /// Diagnostic text for the client; none for not-found and unexpected errors.
    pub fn details(&self) -> (r: Option<String>)
        ensures
            r is Some <==> details_of(*self) is Some,
            r matches Some(d) ==> Some(d@) == details_of(*self),
    {
        match self {
            Error::JSONExtractor(body) => Some(body.clone()),
            Error::PathExtractor(body) => Some(body.clone()),
            Error::Validator(v) => Some(render_violations(v)),
            _ => None,
        }
    }

    /// The type URL: `type://` followed by the error code.
    pub fn type_url(&self) -> (r: String)
        ensures
            r@ == type_url_of(*self),
    {
        String::from_str("type://").concat(self.error_code())
    }

    /// The human-readable message of this error.
    pub fn title(&self) -> (r: String)
        ensures
            r@ == title_of(*self),
    {
        match self {
            Error::ResourceNotFound { name, id } => {
                let mut s = String::from_str("Requested resource '");
                s.append(name.as_str());
                s.append("' with ID: ");
                let digits = decimal(*id);
                s.append(digits.as_str());
                s.append(" not found");
                s
            },
            Error::JSONExtractor(_) => String::from_str("Error extracting json payload"),
            Error::PathExtractor(_) => String::from_str("Error extracting path parameters"),
            Error::Validator(_) => String::from_str("Invalid request body"),
            Error::Unexpected(_) => String::from_str("Unexpected error"),
        }
    }

    /// Whether this error must be logged in full on the server side.
    pub fn needs_logging(&self) -> (r: bool)
        ensures
            r <==> *self is Unexpected,
    {
        match self {
            Error::Unexpected(_) => true,
            _ => false,
        }
    }

    /// Gives a store failure its meaning in a lookup of `entity_id` in `entity_name`:
    /// a missing row is a not-found error for that very id; anything else is unexpected.
    pub fn from_with_context(error: StoreError, entity_name: String, entity_id: u32) -> (r: Error)
        ensures
            r == from_context_of(error, entity_name, entity_id),
    {
        match error {
            StoreError::RowNotFound => Error::ResourceNotFound { name: entity_name, id: entity_id },
            StoreError::Other(msg) => Error::Unexpected(msg),
        }
    }

    /// A store failure met outside any lookup: always unexpected.
    pub fn from_store(error: StoreError) -> (r: Error)
        ensures
            r is Unexpected,
            error matches StoreError::Other(m) ==> r == Error::Unexpected(m),
    {
        match error {
            StoreError::RowNotFound => Error::Unexpected(String::from_str("no rows returned")),
            StoreError::Other(msg) => Error::Unexpected(msg),
        }
    }
}

/// The structured problem document an error is answered with.
#[derive(Clone, Debug, PartialEq)]
pub struct Problem {
    pub status: u16,
    pub title: String,
    pub type_url: String,
    pub error_code: String,
    pub detail: Option<String>,
}

/// Whether a problem document carries exactly what an error maps to.
pub open spec fn is_problem_of(p: Problem, e: Error) -> bool {
    &&& p.status == status_of(e)
    &&& p.title@ == title_of(e)
    &&& p.type_url@ == type_url_of(e)
    &&& p.error_code@ == error_code_of(e)
    &&& (p.detail is Some <==> details_of(e) is Some)
    &&& (p.detail matches Some(d) ==> Some(d@) == details_of(e))
}

impl Problem {
    /// The problem document for an error: status, title, type URL, code and detail.
    pub fn from_error(e: &Error) -> (r: Problem)
        ensures
            is_problem_of(r, *e),
    {
        Problem {
            status: e.status_code(),
            title: e.title(),
            type_url: e.type_url(),
            error_code: String::from_str(e.error_code()),
            detail: e.details(),
        }
    }
}

} // verus!
