//! The endpoint of a resource: its schema, its enabled operations, the routes
//! it registers, and the handlers that call the resource's capabilities.
use vstd::prelude::*;

use crate::endpoints::{first_unknown, known_name, named_ops, names_view, resolve_endpoints, resolved, EndpointSet};
use crate::errors::{BuildError, Error};
use crate::responses::{
    create_response, delete_response, disabled_response, read_one_response, respond_created,
    respond_deleted, respond_disabled, respond_read_one, respond_value, value_response, ApiResponse,
    ResponseView,
};
use crate::problems::ProblemView;
use crate::routes::{
    collection_path, item_path, route_method, route_name, route_path, HttpMethod, Routes,
};
use crate::schema::{derive_schema, schema_outcome, ResourceSchema, StructFields};
use crate::text::{snake_case, to_snake_case};

verus! {

/// The capabilities a resource's business logic provides; the sole extension
/// point. `T` is the resource, `U` the payload that creates or updates it.
pub trait Repository<T, U> {
    fn create_one(payload: &U) -> Result<T, Error>;

    fn read_one(id: &String) -> Result<Option<T>, Error>;

    fn read_all() -> Result<Vec<T>, Error>;

    fn update_one(id: &String, payload: &U) -> Result<T, Error>;

    fn delete_one(id: &String) -> Result<(), Error>;
}

/// The operations that have a route, in the order they are registered.
pub open spec fn routed_ops() -> Seq<Routes> {
    seq![
        Routes::CreateOne,
        Routes::ReadOne,
        Routes::ReadMany,
        Routes::UpdateOne,
        Routes::ReplaceOne,
        Routes::DeleteOne,
    ]
}

/// One registration: an operation, its method and path, and whether it is
/// bound to its capability (enabled) or to the fixed endpoint-not-found answer.
pub struct RouteSpec {
    pub operation: Routes,
    pub method: HttpMethod,
    pub path: String,
    pub enabled: bool,
}

/// A resource made ready to be served.
pub struct EndpointDef {
    /// The name of the resource type as declared.
    pub name: String,
    /// The path segment: the snake-case form of the name.
    pub segment: String,
    pub schema: ResourceSchema,
    pub endpoints: EndpointSet,
}

/// What a handler answers, with the capability error to log, if there was one.
pub struct Reply<T> {
    pub response: ApiResponse<T>,
    pub error: Option<Error>,
}

/// The error a capability outcome carries, if any.
pub open spec fn reported<X>(o: Result<X, Error>) -> Option<Error> {
    match o {
        Ok(_) => None,
        Err(e) => Some(e),
    }
}

/// Whether `r` is the fixed answer of an operation that is not exposed.
pub open spec fn answers_disabled<T>(r: Reply<T>) -> bool {
    r.response@ == disabled_response::<T>() && r.error is None
}

impl EndpointDef {
    /// The endpoint is well formed: its set of operations holds one flag per operation.
    pub open spec fn wf(&self) -> bool {
        self.endpoints.wf()
    }

    /// The path segment of the resource.
    pub fn get_name(&self) -> (r: &str)
        ensures
            r@ == self.segment@,
    {
        self.segment.as_str()
    }

    /// The collection path: `/` and the segment.
    pub fn get_path(&self) -> (r: String)
        ensures
            r@ == collection_path(self.segment@),
    {
        let r = String::from_str("/").concat(self.segment.as_str());
        proof {
            reveal_strlit("/");
        }
        assert(r@ =~= collection_path(self.segment@));
        r
    }

    /// The item path: the collection path and `/{id}`.
    pub fn get_path_with_id(&self) -> (r: String)
        ensures
            r@ == item_path(self.segment@),
    {
        let r = self.get_path().concat("/{id}");
        r
    }

    /// The registrations of the resource: one for each operation that has a
    /// route, with the method and path of the table, enabled exactly when the
    /// operation is in the resolved set.
    pub fn routes(&self) -> (r: Vec<RouteSpec>)
        requires
            self.wf(),
        ensures
            r@.len() == routed_ops().len(),
            forall|k: int|
                0 <= k < r@.len() ==> {
                    let e = #[trigger] r@[k];
                    &&& e.operation == routed_ops()[k]
                    &&& route_method(e.operation) == Some(e.method)
                    &&& route_path(e.operation, self.segment@) == Some(e.path@)
                    &&& e.enabled == self.endpoints@.contains(e.operation)
                },
    {
        let ops = vec![
            Routes::CreateOne,
            Routes::ReadOne,
            Routes::ReadMany,
            Routes::UpdateOne,
            Routes::ReplaceOne,
            Routes::DeleteOne,
        ];
        assert(ops@ =~= routed_ops());
        let mut r: Vec<RouteSpec> = Vec::new();
        let mut i: usize = 0;
        while i < ops.len()
            invariant
                self.wf(),
                ops@ == routed_ops(),
                i <= ops@.len(),
                r@.len() == i,
                forall|k: int|
                    0 <= k < i ==> {
                        let e = #[trigger] r@[k];
                        &&& e.operation == routed_ops()[k]
                        &&& route_method(e.operation) == Some(e.method)
                        &&& route_path(e.operation, self.segment@) == Some(e.path@)
                        &&& e.enabled == self.endpoints@.contains(e.operation)
                    },
            decreases ops@.len() - i,
        {
            let op = ops[i];
            let method = op.method();
            let path = op.path_template(self.segment.as_str());
            match (method, path) {
                (Some(m), Some(p)) => {
                    let enabled = self.endpoints.contains(op);
                    r.push(RouteSpec { operation: op, method: m, path: p, enabled });
                },
                _ => {
                    assert(false);
                },
            }
            i = i + 1;
        }
        r
    }

    /// Handles `POST /{resource}`: creates a resource from the payload.
    pub fn handle_create_one<T, U, R: Repository<T, U>>(&self, payload: &U) -> (r: Reply<T>)
        requires
            self.wf(),
        ensures
            self.endpoints@.contains(Routes::CreateOne) ==> exists|o: Result<T, Error>|
                call_ensures(R::create_one, (payload,), o) && #[trigger] create_response(o)
                    == r.response@ && reported(o) == r.error,
            !self.endpoints@.contains(Routes::CreateOne) ==> answers_disabled(r),
    {
        if !self.endpoints.contains(Routes::CreateOne) {
            return Reply { response: respond_disabled(), error: None };
        }
        let o = R::create_one(payload);
        let error = match &o {
            Ok(_) => None,
            Err(e) => Some(*e),
        };
        let ghost og = o;
        let response = respond_created(o);
        let r = Reply { response, error };
        assert(create_response(og) == r.response@ && reported(og) == r.error);
        r
    }

    /// Handles `GET /{resource}/{id}`: reads one resource.
    pub fn handle_read_one<T, U, R: Repository<T, U>>(&self, id: &String) -> (r: Reply<T>)
        requires
            self.wf(),
        ensures
            self.endpoints@.contains(Routes::ReadOne) ==> exists|o: Result<Option<T>, Error>|
                call_ensures(R::read_one, (id,), o) && #[trigger] read_one_response(
                    self.segment@,
                    id@,
                    o,
                ) == r.response@ && reported(o) == r.error,
            !self.endpoints@.contains(Routes::ReadOne) ==> answers_disabled(r),
    {
        if !self.endpoints.contains(Routes::ReadOne) {
            return Reply { response: respond_disabled(), error: None };
        }
        let o = R::read_one(id);
        let error = match &o {
            Ok(_) => None,
            Err(e) => Some(*e),
        };
        let ghost og = o;
        let response = respond_read_one(self.segment.as_str(), id.as_str(), o);
        let r = Reply { response, error };
        assert(read_one_response(self.segment@, id@, og) == r.response@ && reported(og) == r.error);
        r
    }

    /// Handles `GET /{resource}`: reads every resource.
    pub fn handle_read_many<T, U, R: Repository<T, U>>(&self) -> (r: Reply<Vec<T>>)
        requires
            self.wf(),
        ensures
            self.endpoints@.contains(Routes::ReadMany) ==> exists|o: Result<Vec<T>, Error>|
                call_ensures(R::read_all, (), o) && #[trigger] value_response(o) == r.response@
                    && reported(o) == r.error,
            !self.endpoints@.contains(Routes::ReadMany) ==> answers_disabled(r),
    {
        if !self.endpoints.contains(Routes::ReadMany) {
            return Reply { response: respond_disabled(), error: None };
        }
        let o = R::read_all();
        let error = match &o {
            Ok(_) => None,
            Err(e) => Some(*e),
        };
        let ghost og = o;
        let response = respond_value(o);
        let r = Reply { response, error };
        assert(value_response(og) == r.response@ && reported(og) == r.error);
        r
    }

    /// Hands the payload to the update capability, which returns the
    /// resource as it now stands; `op` is the operation that answers.
    fn handle_update<T, U, R: Repository<T, U>>(&self, op: Routes, id: &String, payload: &U) -> (r:
        Reply<T>)
        requires
            self.wf(),
        ensures
            self.endpoints@.contains(op) ==> exists|o: Result<T, Error>|
                call_ensures(R::update_one, (id, payload), o) && #[trigger] value_response(o)
                    == r.response@ && reported(o) == r.error,
            !self.endpoints@.contains(op) ==> answers_disabled(r),
    {
        if !self.endpoints.contains(op) {
            return Reply { response: respond_disabled(), error: None };
        }
        let o = R::update_one(id, payload);
        let error = match &o {
            Ok(_) => None,
            Err(e) => Some(*e),
        };
        let ghost og = o;
        let response = respond_value(o);
        let r = Reply { response, error };
        assert(value_response(og) == r.response@ && reported(og) == r.error);
        r
    }

    /// Handles `PATCH /{resource}/{id}`: updates one resource from the payload.
    pub fn handle_update_one<T, U, R: Repository<T, U>>(&self, id: &String, payload: &U) -> (r: Reply<
        T,
    >)
        requires
            self.wf(),
        ensures
            self.endpoints@.contains(Routes::UpdateOne) ==> exists|o: Result<T, Error>|
                call_ensures(R::update_one, (id, payload), o) && #[trigger] value_response(o)
                    == r.response@ && reported(o) == r.error,
            !self.endpoints@.contains(Routes::UpdateOne) ==> answers_disabled(r),
    {
        self.handle_update::<T, U, R>(Routes::UpdateOne, id, payload)
    }

    /// Handles `PUT /{resource}/{id}`: replaces one resource with the payload,
    /// which carries every client-supplied field; the update capability does the work.
    pub fn handle_replace_one<T, U, R: Repository<T, U>>(&self, id: &String, payload: &U) -> (r:
        Reply<T>)
        requires
            self.wf(),
        ensures
            self.endpoints@.contains(Routes::ReplaceOne) ==> exists|o: Result<T, Error>|
                call_ensures(R::update_one, (id, payload), o) && #[trigger] value_response(o)
                    == r.response@ && reported(o) == r.error,
            !self.endpoints@.contains(Routes::ReplaceOne) ==> answers_disabled(r),
    {
        self.handle_update::<T, U, R>(Routes::ReplaceOne, id, payload)
    }

    /// Handles `DELETE /{resource}/{id}`: deletes one resource.
    pub fn handle_delete_one<T, U, R: Repository<T, U>>(&self, id: &String) -> (r: Reply<T>)
        requires
            self.wf(),
        ensures
            self.endpoints@.contains(Routes::DeleteOne) ==> exists|o: Result<(), Error>|
                call_ensures(R::delete_one, (id,), o) && #[trigger] delete_response::<T>(o)
                    == r.response@ && reported(o) == r.error,
            !self.endpoints@.contains(Routes::DeleteOne) ==> answers_disabled(r),
    {
        if !self.endpoints.contains(Routes::DeleteOne) {
            return Reply { response: respond_disabled(), error: None };
        }
        let o = R::delete_one(id);
        let error = match &o {
            Ok(_) => None,
            Err(e) => Some(*e),
        };
        let ghost og = o;
        let response = respond_deleted(o);
        let r = Reply { response, error };
        assert(delete_response::<T>(og) == r.response@ && reported(og) == r.error);
        r
    }
}

/// Builds the endpoint of a resource from its type name, its declared fields
/// and the allow-list of operations. An unknown operation name is rejected
/// first; then a record without named fields or with a reserved field name.
pub fn build_endpoint(resource_name: &str, shape: &StructFields, requested: &Vec<String>) -> (r: Result<
    EndpointDef,
    BuildError,
>)
    ensures
        !(forall|i: int| 0 <= i < requested@.len() ==> known_name(#[trigger] requested@[i]@)) ==> (
        exists|i: int|
            first_unknown(names_view(requested@), i) && r == Err::<EndpointDef, BuildError>(
                BuildError::UnknownOperation(requested@[i]),
            )),
        (forall|i: int| 0 <= i < requested@.len() ==> known_name(#[trigger] requested@[i]@)) ==> (
        match r {
            Ok(d) => {
                &&& d.wf()
                &&& d.name@ == resource_name@
                &&& d.segment@ == snake_case(resource_name@)
                &&& d.endpoints@ == resolved(names_view(requested@))
                &&& schema_outcome(*shape, Ok(d.schema))
            },
            Err(e) => schema_outcome(*shape, Err(e)),
        }),
{
    let endpoints = match resolve_endpoints(requested) {
        Ok(set) => set,
        Err(e) => {
            return Err(e);
        },
    };
    let schema = match derive_schema(shape) {
        Ok(s) => s,
        Err(e) => {
            return Err(e);
        },
    };
    Ok(
        EndpointDef {
            name: String::from_str(resource_name),
            segment: to_snake_case(resource_name),
            schema,
            endpoints,
        },
    )
}

/// The route table: creation and reading of all resources at the collection
/// path, reading, update, replacement and deletion of one resource at the
/// item path, each under its method; every operation that has a route is
/// registered once, and the bulk writes have none.
pub proof fn lemma_route_table(segment: Seq<char>)
    ensures
        route_method(Routes::CreateOne) == Some(HttpMethod::Post),
        route_path(Routes::CreateOne, segment) == Some(collection_path(segment)),
        route_method(Routes::ReadOne) == Some(HttpMethod::Get),
        route_path(Routes::ReadOne, segment) == Some(item_path(segment)),
        route_method(Routes::ReadMany) == Some(HttpMethod::Get),
        route_path(Routes::ReadMany, segment) == Some(collection_path(segment)),
        route_method(Routes::UpdateOne) == Some(HttpMethod::Patch),
        route_path(Routes::UpdateOne, segment) == Some(item_path(segment)),
        route_method(Routes::ReplaceOne) == Some(HttpMethod::Put),
        route_path(Routes::ReplaceOne, segment) == Some(item_path(segment)),
        route_method(Routes::DeleteOne) == Some(HttpMethod::Delete),
        route_path(Routes::DeleteOne, segment) == Some(item_path(segment)),
        forall|op: Routes| #[trigger] route_method(op) is Some <==> routed_ops().contains(op),
        forall|op: Routes| #[trigger] route_method(op) is Some <==> route_path(op, segment) is Some,
        routed_ops().no_duplicates(),
{
    assert forall|op: Routes| #[trigger] route_method(op) is Some <==> routed_ops().contains(op) by {
        if route_method(op) is Some {
            let k: int = match op {
                Routes::CreateOne => 0,
                Routes::ReadOne => 1,
                Routes::ReadMany => 2,
                Routes::UpdateOne => 3,
                Routes::ReplaceOne => 4,
                _ => 5,
            };
            assert(routed_ops()[k] == op);
        }
    }
}

/// An operation left out of a non-empty allow-list is not enabled, so each of
/// its handlers answers with the fixed endpoint-not-found problem and status 404.
pub proof fn lemma_omitted_operation_not_found<T>(names: Seq<Seq<char>>, op: Routes)
    requires
        names.len() > 0,
        forall|i: int| 0 <= i < names.len() ==> names[i] != route_name(op),
    ensures
        !resolved(names).contains(op),
        disabled_response::<T>() == ResponseView::<T>::NotFound(ProblemView::EndpointNotFound),
        crate::responses::response_status(disabled_response::<T>()) == 404,
{
    assert(!named_ops(names).contains(op));
}

} // verus!
