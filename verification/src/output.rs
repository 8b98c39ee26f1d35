//! The response envelope every command produces: data, follow-up actions
//! (literal command lines) and metadata, or an error with suggestions.
use vstd::prelude::*;
use crate::text::{cat3, lowercase, owned, str_eq, to_lowercase};

verus! {

/// A literal command line the caller can run next, tagged with its relation.
#[derive(Debug, Clone)]
pub struct Action {
    pub rel: String,
    pub cmd: String,
    pub description: Option<String>,
}

/// Metadata of a response: the command that produced it and, for paged
/// listings, the total, the page size and the offset.
#[derive(Debug, Clone)]
pub struct Meta {
    pub command: String,
    pub total: Option<u64>,
    pub limit: Option<u64>,
    pub offset: Option<u64>,
}

/// A successful response.
#[derive(Debug, Clone)]
pub struct Response<T> {
    pub data: T,
    pub actions: Vec<Action>,
    pub meta: Meta,
}

/// The error part of an error response.
#[derive(Debug, Clone)]
pub struct ErrorDetail {
    pub code: String,
    pub message: String,
}

/// An error response with recovery suggestions.
#[derive(Debug, Clone)]
pub struct ErrorResponse {
    pub error: ErrorDetail,
    pub actions: Vec<Action>,
}

/// How responses are rendered.
#[derive(Debug, Clone, Copy, PartialEq, Eq, Structural)]
pub enum OutputFormat {
    Json,
    Table,
}

impl Default for OutputFormat {
    fn default() -> (r: Self)
        ensures
            r == OutputFormat::Json,
    {
        OutputFormat::Json
    }
}

/// Specification of an action built from a relation and a command.
pub open spec fn action_is(a: Action, rel: Seq<char>, cmd: Seq<char>) -> bool {
    a.rel@ == rel && a.cmd@ == cmd && a.description is None
}

/// What an action holds: relation, command line and description.
pub type ActionView = (Seq<char>, Seq<char>, Option<Seq<char>>);

impl View for Action {
    type V = ActionView;

    open spec fn view(&self) -> ActionView {
        (self.rel@, self.cmd@, match self.description {
            Some(d) => Some(d@),
            None => None,
        })
    }
}

/// The view of an action without a description.
pub open spec fn act(rel: Seq<char>, cmd: Seq<char>) -> ActionView {
    (rel, cmd, None)
}

/// The views of a list of actions.
pub open spec fn views_of(actions: Seq<Action>) -> Seq<ActionView> {
    actions.map_values(|a: Action| a@)
}

impl Action {
    pub fn new(rel: &str, cmd: &str) -> (a: Self)
        ensures
            action_is(a, rel@, cmd@),
            a@ == act(rel@, cmd@),
    {
        Action { rel: owned(rel), cmd: owned(cmd), description: None }
    }

    /// A copy of the action.
    pub fn clone_action(&self) -> (a: Self)
        ensures
            a@ == self@,
    {
        Action {
            rel: self.rel.clone(),
            cmd: self.cmd.clone(),
            description: match &self.description {
                Some(d) => Some(d.clone()),
                None => None,
            },
        }
    }

    pub fn with_description(rel: &str, cmd: &str, desc: &str) -> (a: Self)
        ensures
            a.rel@ == rel@,
            a.cmd@ == cmd@,
            a.description matches Some(d) && d@ == desc@,
            a@ == (rel@, cmd@, Some(desc@)),
    {
        Action { rel: owned(rel), cmd: owned(cmd), description: Some(owned(desc)) }
    }
}

impl Meta {
    pub fn simple(command: &str) -> (m: Self)
        ensures
            m.command@ == command@,
            m.total is None,
            m.limit is None,
            m.offset is None,
    {
        Meta { command: owned(command), total: None, limit: None, offset: None }
    }

    pub fn paginated(command: &str, total: u64, limit: u64, offset: u64) -> (m: Self)
        ensures
            m.command@ == command@,
            m.total == Some(total),
            m.limit == Some(limit),
            m.offset == Some(offset),
    {
        Meta { command: owned(command), total: Some(total), limit: Some(limit), offset: Some(offset) }
    }
}

impl<T> Response<T> {
    pub fn new(data: T, actions: Vec<Action>, meta: Meta) -> (r: Self)
        ensures
            r.data == data,
            r.actions == actions,
            r.meta == meta,
    {
        Response { data, actions, meta }
    }
}

impl ErrorResponse {
    /// A `NOT_FOUND` error with the given suggestions.
    pub fn not_found(message: &str, suggestions: Vec<Action>) -> (e: Self)
        ensures
            e.error.code@ == "NOT_FOUND"@,
            e.error.message@ == message@,
            e.actions == suggestions,
    {
        ErrorResponse {
            error: ErrorDetail { code: owned("NOT_FOUND"), message: owned(message) },
            actions: suggestions,
        }
    }

    /// An `INVALID_PARAMETER` error with the given suggestions.
    pub fn invalid_parameter(message: &str, suggestions: Vec<Action>) -> (e: Self)
        ensures
            e.error.code@ == "INVALID_PARAMETER"@,
            e.error.message@ == message@,
            e.actions == suggestions,
    {
        ErrorResponse {
            error: ErrorDetail { code: owned("INVALID_PARAMETER"), message: owned(message) },
            actions: suggestions,
        }
    }
}

/// Reads an output format name, ignoring case.
pub fn parse_output_format(s: &str) -> (r: Result<OutputFormat, String>)
    ensures
        r == Ok::<OutputFormat, String>(OutputFormat::Json) <==> lowercase(s@) == "json"@,
        r == Ok::<OutputFormat, String>(OutputFormat::Table) <==> lowercase(s@) == "table"@ && lowercase(s@) != "json"@,
        r matches Err(m) ==> m@ == "Unknown format: "@ + s@ + ". Expected 'json' or 'table'"@,
        r is Err <==> lowercase(s@) != "json"@ && lowercase(s@) != "table"@,
{
    let l = to_lowercase(s);
    if str_eq(l.as_str(), "json") {
        Ok(OutputFormat::Json)
    } else if str_eq(l.as_str(), "table") {
        Ok(OutputFormat::Table)
    } else {
        Err(cat3("Unknown format: ", s, ". Expected 'json' or 'table'"))
    }
}

impl core::str::FromStr for OutputFormat {
    type Err = String;

    fn from_str(s: &str) -> (r: Result<Self, Self::Err>)
        ensures
            r == Ok::<OutputFormat, String>(OutputFormat::Json) <==> lowercase(s@) == "json"@,
            r == Ok::<OutputFormat, String>(OutputFormat::Table) <==> lowercase(s@) == "table"@ && lowercase(s@) != "json"@,
            r matches Err(m) ==> m@ == "Unknown format: "@ + s@ + ". Expected 'json' or 'table'"@,
            r is Err <==> lowercase(s@) != "json"@ && lowercase(s@) != "table"@,
    {
        parse_output_format(s)
    }
}

} // verus!
