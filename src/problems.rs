//! Problem details (RFC 7807): the fixed kinds of failure and the record
//! each of them is sent to clients as.
use vstd::prelude::*;

verus! {

/// The media type of a problem body.
pub const PROBLEM_CONTENT_TYPE: &'static str = "application/problem+json";

/// The status of a response whose target was not found.
pub const NOT_FOUND: u16 = 404;

/// The status of a response to a request that failed on the server.
pub const INTERNAL_SERVER_ERROR: u16 = 500;

/// A failure, as the response layer knows it.
#[derive(Clone, Debug)]
pub enum Problem {
    /// The operation is not exposed.
    EndpointNotFound,
    /// No resource of the given kind has the given id.
    ResourceNotFound { resource: String, id: String },
    /// Something failed on the server; its detail stays there.
    InternalError,
}

/// A problem as plain values.
pub enum ProblemView {
    EndpointNotFound,
    ResourceNotFound(Seq<char>, Seq<char>),
    InternalError,
}

impl View for Problem {
    type V = ProblemView;

    open spec fn view(&self) -> ProblemView {
        match self {
            Problem::EndpointNotFound => ProblemView::EndpointNotFound,
            Problem::ResourceNotFound { resource, id } => ProblemView::ResourceNotFound(
                resource@,
                id@,
            ),
            Problem::InternalError => ProblemView::InternalError,
        }
    }
}

/// The record a problem is sent as: `{type, title, status, detail}`.
pub struct JsonProblem {
    pub type_uri: String,
    pub title: String,
    pub status: u16,
    pub detail: String,
}

/// The status code of a problem.
pub open spec fn problem_status(p: ProblemView) -> u16 {
    match p {
        ProblemView::InternalError => INTERNAL_SERVER_ERROR,
        _ => NOT_FOUND,
    }
}

/// The type identifier of a problem.
pub open spec fn problem_type(p: ProblemView) -> Seq<char> {
    match p {
        ProblemView::EndpointNotFound => "/errors/endpoint-not-found"@,
        ProblemView::ResourceNotFound(..) => "/errors/resource-not-found"@,
        ProblemView::InternalError => "/errors/internal-server-error"@,
    }
}

/// The title of a problem: the reason phrase of its status.
pub open spec fn problem_title(p: ProblemView) -> Seq<char> {
    match p {
        ProblemView::InternalError => "Internal Server Error"@,
        _ => "Not Found"@,
    }
}

/// The human-readable detail of a problem.
pub open spec fn problem_detail(p: ProblemView) -> Seq<char> {
    match p {
        ProblemView::EndpointNotFound => "The endpoint was not found."@,
        ProblemView::ResourceNotFound(resource, id) => "The resource '"@ + resource + "' with id '"@
            + id + "' was not found."@,
        ProblemView::InternalError => "An unexpected error occurred on the server."@,
    }
}

/// Whether a record is the one a problem is sent as.
pub open spec fn is_json_of(j: JsonProblem, p: ProblemView) -> bool {
    &&& j.type_uri@ == problem_type(p)
    &&& j.title@ == problem_title(p)
    &&& j.status == problem_status(p)
    &&& j.detail@ == problem_detail(p)
}

/// Relies on `http::StatusCode::canonical_reason` (reached through `StatusCode::from_u16`):
/// the reason phrase of a status code, where it has one.
#[verifier::external_body]
fn canonical_reason(code: u16) -> (r: Option<String>)
    ensures
        code == 404 ==> r.is_some() && r.unwrap()@ == "Not Found"@,
        code == 500 ==> r.is_some() && r.unwrap()@ == "Internal Server Error"@,
{
    axum::http::StatusCode::from_u16(code).ok().and_then(|s| s.canonical_reason()).map(
        |t| t.to_string(),
    )
}

/// The title of a status: its reason phrase, or its digits where it has none.
fn status_title(code: u16, digits: &str) -> (r: String)
    ensures
        code == 404 ==> r@ == "Not Found"@,
        code == 500 ==> r@ == "Internal Server Error"@,
{
    match canonical_reason(code) {
        Some(t) => t,
        None => String::from_str(digits),
    }
}

impl Problem {
    /// The status code of the problem.
    pub fn status(&self) -> (r: u16)
        ensures
            r == problem_status(self@),
    {
        match self {
            Problem::InternalError => INTERNAL_SERVER_ERROR,
            _ => NOT_FOUND,
        }
    }

    /// Converts the problem into the record that is sent to clients.
    pub fn to_json_problem(self) -> (r: JsonProblem)
        ensures
            is_json_of(r, self@),
    {
        match self {
            Problem::ResourceNotFound { resource, id } => {
                let detail = String::from_str("The resource '").concat(resource.as_str()).concat(
                    "' with id '",
                ).concat(id.as_str()).concat("' was not found.");
                JsonProblem {
                    type_uri: String::from_str("/errors/resource-not-found"),
                    title: status_title(NOT_FOUND, "404"),
                    status: NOT_FOUND,
                    detail,
                }
            },
            Problem::EndpointNotFound => JsonProblem {
                type_uri: String::from_str("/errors/endpoint-not-found"),
                title: status_title(NOT_FOUND, "404"),
                status: NOT_FOUND,
                detail: String::from_str("The endpoint was not found."),
            },
            Problem::InternalError => JsonProblem {
                type_uri: String::from_str("/errors/internal-server-error"),
                title: status_title(INTERNAL_SERVER_ERROR, "500"),
                status: INTERNAL_SERVER_ERROR,
                detail: String::from_str("An unexpected error occurred on the server."),
            },
        }
    }
}

} // verus!
