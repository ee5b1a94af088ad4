//! The response envelope and the mapping from capability outcomes to it.
use vstd::prelude::*;

use crate::errors::Error;
use crate::problems::{problem_status, Problem, ProblemView};

verus! {

/// The status of a successful read or update.
pub const OK: u16 = 200;

/// The status of a successful creation.
pub const CREATED: u16 = 201;

/// The status of a successful deletion.
pub const NO_CONTENT: u16 = 204;

/// Every outcome a handler can answer with.
pub enum ApiResponse<T> {
    /// A value, with status 200.
    Success(T),
    Created(T),
    NoContent,
    NotFound(Problem),
    Erroneous(Problem),
    /// A status of the caller's choice with a body; for special cases only.
    Custom(u16, T),
}

/// A response as plain values.
pub enum ResponseView<T> {
    Success(T),
    Created(T),
    NoContent,
    NotFound(ProblemView),
    Erroneous(ProblemView),
    Custom(u16, T),
}

impl<T> View for ApiResponse<T> {
    type V = ResponseView<T>;

    open spec fn view(&self) -> ResponseView<T> {
        match self {
            ApiResponse::Success(v) => ResponseView::Success(*v),
            ApiResponse::Created(v) => ResponseView::Created(*v),
            ApiResponse::NoContent => ResponseView::NoContent,
            ApiResponse::NotFound(p) => ResponseView::NotFound(p@),
            ApiResponse::Erroneous(p) => ResponseView::Erroneous(p@),
            ApiResponse::Custom(code, v) => ResponseView::Custom(*code, *v),
        }
    }
}

/// The HTTP status of a response.
pub open spec fn response_status<T>(r: ResponseView<T>) -> u16 {
    match r {
        ResponseView::Success(_) => OK,
        ResponseView::Created(_) => CREATED,
        ResponseView::NoContent => NO_CONTENT,
        ResponseView::NotFound(p) => problem_status(p),
        ResponseView::Erroneous(p) => problem_status(p),
        ResponseView::Custom(code, _) => code,
    }
}

/// The answer to a failed capability call: an opaque internal error.
pub open spec fn failure<T>() -> ResponseView<T> {
    ResponseView::Erroneous(ProblemView::InternalError)
}

/// The answer to a creation.
pub open spec fn create_response<T>(o: Result<T, Error>) -> ResponseView<T> {
    match o {
        Ok(v) => ResponseView::Created(v),
        Err(_) => failure(),
    }
}

/// The answer to a read of one resource of kind `resource` under `id`.
pub open spec fn read_one_response<T>(
    resource: Seq<char>,
    id: Seq<char>,
    o: Result<Option<T>, Error>,
) -> ResponseView<T> {
    match o {
        Ok(Some(v)) => ResponseView::Success(v),
        Ok(None) => ResponseView::NotFound(ProblemView::ResourceNotFound(resource, id)),
        Err(_) => failure(),
    }
}

/// The answer to a read, update or replacement that returns a value.
pub open spec fn value_response<T>(o: Result<T, Error>) -> ResponseView<T> {
    match o {
        Ok(v) => ResponseView::Success(v),
        Err(_) => failure(),
    }
}

/// The answer to a deletion.
pub open spec fn delete_response<T>(o: Result<(), Error>) -> ResponseView<T> {
    match o {
        Ok(_) => ResponseView::NoContent,
        Err(_) => failure(),
    }
}

/// The answer of an operation that is not exposed.
pub open spec fn disabled_response<T>() -> ResponseView<T> {
    ResponseView::NotFound(ProblemView::EndpointNotFound)
}

impl<T> ApiResponse<T> {
    /// The HTTP status of the response.
    pub fn status(&self) -> (r: u16)
        ensures
            r == response_status(self@),
    {
        match self {
            ApiResponse::Success(_) => OK,
            ApiResponse::Created(_) => CREATED,
            ApiResponse::NoContent => NO_CONTENT,
            ApiResponse::NotFound(p) => p.status(),
            ApiResponse::Erroneous(p) => p.status(),
            ApiResponse::Custom(code, _) => *code,
        }
    }
}

/// Maps the outcome of a creation: the new resource with 201, or an internal error.
pub fn respond_created<T>(outcome: Result<T, Error>) -> (r: ApiResponse<T>)
    ensures
        r@ == create_response(outcome),
{
    match outcome {
        Ok(v) => ApiResponse::Created(v),
        Err(_) => ApiResponse::Erroneous(Problem::InternalError),
    }
}

/// Maps the outcome of reading one resource: the resource with 200, a
/// resource-not-found problem naming `resource` and `id`, or an internal error.
pub fn respond_read_one<T>(resource: &str, id: &str, outcome: Result<Option<T>, Error>) -> (r:
    ApiResponse<T>)
    ensures
        r@ == read_one_response(resource@, id@, outcome),
{
    match outcome {
        Ok(Some(v)) => ApiResponse::Success(v),
        Ok(None) => ApiResponse::NotFound(
            Problem::ResourceNotFound { resource: String::from_str(resource), id: String::from_str(id) },
        ),
        Err(_) => ApiResponse::Erroneous(Problem::InternalError),
    }
}

/// Maps the outcome of a call that returns a value (a read of all resources,
/// an update, a replacement): the value with 200, or an internal error.
pub fn respond_value<T>(outcome: Result<T, Error>) -> (r: ApiResponse<T>)
    ensures
        r@ == value_response(outcome),
{
    match outcome {
        Ok(v) => ApiResponse::Success(v),
        Err(_) => ApiResponse::Erroneous(Problem::InternalError),
    }
}

/// Maps the outcome of a deletion: no content with 204, or an internal error.
pub fn respond_deleted<T>(outcome: Result<(), Error>) -> (r: ApiResponse<T>)
    ensures
        r@ == delete_response::<T>(outcome),
{
    match outcome {
        Ok(_) => ApiResponse::NoContent,
        Err(_) => ApiResponse::Erroneous(Problem::InternalError),
    }
}

/// The fixed answer of an operation that is not exposed: endpoint not found.
pub fn respond_disabled<T>() -> (r: ApiResponse<T>)
    ensures
        r@ == disabled_response::<T>(),
{
    ApiResponse::NotFound(Problem::EndpointNotFound)
}

/// A failed capability call is answered with status 500 and the same opaque
/// problem whatever the error was, so no error text reaches the client.
pub proof fn lemma_errors_stay_on_server<T>(resource: Seq<char>, id: Seq<char>, e1: Error, e2: Error)
    ensures
        read_one_response::<T>(resource, id, Err(e1)) == read_one_response::<T>(resource, id, Err(e2)),
        read_one_response::<T>(resource, id, Err(e1)) == failure::<T>(),
        create_response::<T>(Err(e1)) == create_response::<T>(Err(e2)),
        value_response::<T>(Err(e1)) == value_response::<T>(Err(e2)),
        delete_response::<T>(Err(e1)) == delete_response::<T>(Err(e2)),
        response_status(failure::<T>()) == 500,
{
}

/// Reading one resource twice, with no write in between so that the
/// capability returns the same resource both times, gives identical
/// responses: status 200 with that resource.
pub proof fn lemma_read_one_repeatable<T>(resource: Seq<char>, id: Seq<char>, first: T, second: T)
    requires
        first == second,
    ensures
        read_one_response(resource, id, Ok(Some(first))) == read_one_response(
            resource,
            id,
            Ok(Some(second)),
        ),
        read_one_response(resource, id, Ok(Some(first))) == ResponseView::Success(first),
        response_status(read_one_response(resource, id, Ok(Some(first)))) == 200,
{
}

} // verus!
