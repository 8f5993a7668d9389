use crate::location::{line_col, location_of};
use vstd::prelude::*;
use vstd::string::StringExecFns;

verus! {

/// A 1-based source position (line, column) within the original query text.
#[derive(Clone, Copy, Debug, PartialEq, Eq, Structural)]
pub struct ErrorLocation {
    pub line: usize,
    pub col: usize,
}

/// One step of a response path: the name of a field, or a zero-based index
/// into a list value.
#[derive(Clone, Debug, PartialEq, Eq)]
pub enum PathSegment {
    Field(String),
    ListIndex(usize),
}

/// A field node of the parsed query, reduced to what error reporting reads of
/// it: the character span `[span_start, span_end)` of the node in the query
/// text.
#[derive(Clone, Copy, Debug, PartialEq, Eq, Structural)]
pub struct FieldNode {
    pub span_start: usize,
    pub span_end: usize,
}

/// An opaque field-level failure raised during field execution, reduced to its
/// message-producing contract.
#[derive(Clone, Debug, PartialEq, Eq)]
pub struct FieldError {
    pub message: String,
}

/// An opaque parse failure, reduced to its message-producing contract.
#[derive(Clone, Debug, PartialEq, Eq)]
pub struct ParseError {
    pub message: String,
}

/// An opaque coercion failure. It is itself convertible to the final record
/// shape: it produces its own message and, when it has them, its own response
/// path and source locations.
#[derive(Clone, Debug, PartialEq, Eq)]
pub struct CoercionError {
    pub message: String,
    pub path: Option<Vec<PathSegment>>,
    pub locations: Option<Vec<ErrorLocation>>,
}

/// The final, spec-shaped response error record reported to callers.
#[derive(Clone, Debug, PartialEq, Eq)]
pub struct ResponseErrorRecord {
    pub message: String,
    pub path: Option<Vec<PathSegment>>,
    pub locations: Option<Vec<ErrorLocation>>,
}

/// The sequence of elements of an optional vector, `None` kept as `None`.
pub open spec fn opt_elements<T>(v: Option<Vec<T>>) -> Option<Seq<T>> {
    match v {
        Some(v) => Some(v@),
        None => None,
    }
}

/// The location record for character position `pos` of `text`.
pub open spec fn location_at(text: Seq<char>, pos: int) -> ErrorLocation {
    ErrorLocation { line: location_of(text, pos).0 as usize, col: location_of(text, pos).1 as usize }
}

impl ResponseErrorRecord {
    /// Assembles a record from its parts, verbatim.
    pub fn new(
        message: String,
        path: Option<Vec<PathSegment>>,
        locations: Option<Vec<ErrorLocation>>,
    ) -> (r: Self)
        ensures
            r.message == message,
            r.path == path,
            r.locations == locations,
    {
        ResponseErrorRecord { message, path, locations }
    }
}

impl CoercionError {
    /// Delegated conversion: a coercion failure renders as its own message,
    /// path and locations, unchanged.
    pub fn into_record(self) -> (r: ResponseErrorRecord)
        ensures
            r.message == self.message,
            r.path == self.path,
            r.locations == self.locations,
    {
        ResponseErrorRecord { message: self.message, path: self.path, locations: self.locations }
    }
}

/// One failure during request setup or execution: a closed set of variants,
/// each carrying exactly the data needed to render a spec-shaped response
/// error record.
#[derive(Debug)]
pub enum ExecutionError<'a> {
    NoOperationWithName { name: &'a str },
    CannotUseAnonymousOperation,
    RequiredVariableMissingValue { name: &'a str },
    ApplicationError(String),
    CoercionError(CoercionError),
    ParseError(ParseError),
    FieldError { error: FieldError, path: Vec<PathSegment>, query: &'a str, fields: Vec<FieldNode> },
}

impl<'a> ExecutionError<'a> {
    /// The message of the record this error renders to.
    pub open spec fn message_spec(self) -> Seq<char> {
        match self {
            ExecutionError::NoOperationWithName { name } => "No operation definition named `"@
                + name@ + "`"@,
            ExecutionError::CannotUseAnonymousOperation => "Operation name is required when document does not contain exactly 1 operation definition"@,
            ExecutionError::RequiredVariableMissingValue { name } => "No value was provided for required variable `$"@
                + name@ + "`"@,
            ExecutionError::ApplicationError(message) => "Internal error: "@ + message@,
            ExecutionError::CoercionError(error) => error.message@,
            ExecutionError::ParseError(error) => error.message@,
            ExecutionError::FieldError { error, .. } => error.message@,
        }
    }

    /// The response path of the record this error renders to: the carried path,
    /// verbatim and in order, for a field error; the coercion failure's own
    /// path for a coercion error; nothing otherwise.
    pub open spec fn path_spec(self) -> Option<Seq<PathSegment>> {
        match self {
            ExecutionError::FieldError { path, .. } => Some(path@),
            ExecutionError::CoercionError(error) => opt_elements(error.path),
            _ => None,
        }
    }

    /// The source locations of the record this error renders to: for a field
    /// error, the location of each carried field node's span start against the
    /// original query text, in the order the nodes were supplied.
    pub open spec fn locations_spec(self) -> Option<Seq<ErrorLocation>> {
        match self {
            ExecutionError::FieldError { query, fields, .. } => Some(
                Seq::new(
                    fields@.len(),
                    |i: int| location_at(query@, fields@[i].span_start as int),
                ),
            ),
            ExecutionError::CoercionError(error) => opt_elements(error.locations),
            _ => None,
        }
    }

    /// Internal consistency: every carried span lies within the query text it
    /// was parsed from. Spans produced by parsing that same text always do.
    pub open spec fn wf(self) -> bool {
        match self {
            ExecutionError::FieldError { query, fields, .. } => forall|i: int|
                0 <= i < fields@.len() ==> (#[trigger] fields@[i]).span_start <= query@.len()
                    && fields@[i].span_start < usize::MAX,
            _ => true,
        }
    }

    /// Exhaustively converts this error into its response error record:
    /// the variant's message, and — for field and coercion errors only — the
    /// response path and source locations. A span outside the query text would
    /// be an internal-consistency fault; such inputs are excluded up front
    /// rather than reported as a record.
    pub fn render(self) -> (r: ResponseErrorRecord)
        requires
            self.wf(),
        ensures
            r.message@ == self.message_spec(),
            opt_elements(r.path) == self.path_spec(),
            opt_elements(r.locations) == self.locations_spec(),
    {
        match self {
            ExecutionError::NoOperationWithName { name } => {
                let mut message = String::from_str("No operation definition named `");
                message.append(name);
                message.append("`");
                ResponseErrorRecord::new(message, None, None)
            },
            ExecutionError::CannotUseAnonymousOperation => {
                let message = String::from_str(
                    "Operation name is required when document does not contain exactly 1 operation definition",
                );
                ResponseErrorRecord::new(message, None, None)
            },
            ExecutionError::RequiredVariableMissingValue { name } => {
                let mut message = String::from_str(
                    "No value was provided for required variable `$",
                );
                message.append(name);
                message.append("`");
                ResponseErrorRecord::new(message, None, None)
            },
            ExecutionError::ApplicationError(detail) => {
                let mut message = String::from_str("Internal error: ");
                message.append(detail.as_str());
                ResponseErrorRecord::new(message, None, None)
            },
            ExecutionError::CoercionError(error) => error.into_record(),
            ExecutionError::ParseError(error) => ResponseErrorRecord::new(error.message, None, None),
            ExecutionError::FieldError { error, path, query, fields } => {
                let ghost expected = Seq::new(
                    fields@.len(),
                    |i: int| location_at(query@, fields@[i].span_start as int),
                );
                let mut locations: Vec<ErrorLocation> = Vec::new();
                let mut i: usize = 0;
                while i < fields.len()
                    invariant
                        i <= fields.len(),
                        forall|j: int|
                            0 <= j < fields@.len() ==> (#[trigger] fields@[j]).span_start
                                <= query@.len() && fields@[j].span_start < usize::MAX,
                        expected == Seq::new(
                            fields@.len(),
                            |k: int| location_at(query@, fields@[k].span_start as int),
                        ),
                        locations@ =~= expected.take(i as int),
                    decreases fields.len() - i,
                {
                    let node = fields[i];
                    let lc = line_col(query, node.span_start);
                    let pair = lc.unwrap();
                    locations.push(ErrorLocation { line: pair.0, col: pair.1 });
                    i = i + 1;
                }
                proof {
                    assert(locations@ =~= expected);
                }
                ResponseErrorRecord::new(error.message, Some(path), Some(locations))
            },
        }
    }
}

/// Law: every failure renders with something to say. Each variant's message is
/// non-empty, provided the messages carried by the opaque payload variants are
/// themselves non-empty (a payload with an empty message would be passed
/// through verbatim).
pub proof fn lemma_message_nonempty<'a>(e: ExecutionError<'a>)
    requires
        e matches ExecutionError::CoercionError(c) ==> c.message@.len() > 0,
        e matches ExecutionError::ParseError(p) ==> p.message@.len() > 0,
        e matches ExecutionError::FieldError { error, .. } ==> error.message@.len() > 0,
    ensures
        e.message_spec().len() > 0,
{
    reveal_strlit("No operation definition named `");
    reveal_strlit(
        "Operation name is required when document does not contain exactly 1 operation definition",
    );
    reveal_strlit("No value was provided for required variable `$");
    reveal_strlit("Internal error: ");
}

/// Law: only a field error or a coercion error may locate itself — every other
/// variant renders with no response path and no source locations.
pub proof fn lemma_only_field_and_coercion_locate<'a>(e: ExecutionError<'a>)
    requires
        !(e matches ExecutionError::FieldError { .. }),
        !(e matches ExecutionError::CoercionError(_)),
    ensures
        e.path_spec() is None,
        e.locations_spec() is None,
{
}

} // verus!

