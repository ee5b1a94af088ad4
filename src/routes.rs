//! The fixed universe of operations and the HTTP surface of each.
use vstd::prelude::*;

use crate::text::same_text;

verus! {

/// One of the ten operations that can be exposed for a resource.
#[derive(Clone, Copy, Debug, PartialEq, Eq, Structural)]
pub enum Routes {
    CreateOne,
    CreateMany,
    ReadOne,
    ReadMany,
    ReplaceOne,
    ReplaceMany,
    UpdateOne,
    UpdateMany,
    DeleteOne,
    DeleteMany,
}

/// The HTTP methods that routes are registered under.
#[derive(Clone, Copy, Debug, PartialEq, Eq, Structural)]
pub enum HttpMethod {
    Get,
    Post,
    Put,
    Patch,
    Delete,
}

/// The configuration name of an operation.
pub open spec fn route_name(r: Routes) -> Seq<char> {
    match r {
        Routes::CreateOne => "create_one"@,
        Routes::CreateMany => "create_many"@,
        Routes::ReadOne => "read_one"@,
        Routes::ReadMany => "read_many"@,
        Routes::ReplaceOne => "replace_one"@,
        Routes::ReplaceMany => "replace_many"@,
        Routes::UpdateOne => "update_one"@,
        Routes::UpdateMany => "update_many"@,
        Routes::DeleteOne => "delete_one"@,
        Routes::DeleteMany => "delete_many"@,
    }
}

/// Distinct operations carry distinct names.
pub proof fn lemma_route_name_injective(a: Routes, b: Routes)
    ensures
        route_name(a) == route_name(b) ==> a == b,
{
    reveal_strlit("create_one");
    reveal_strlit("create_many");
    reveal_strlit("read_one");
    reveal_strlit("read_many");
    reveal_strlit("replace_one");
    reveal_strlit("replace_many");
    reveal_strlit("update_one");
    reveal_strlit("update_many");
    reveal_strlit("delete_one");
    reveal_strlit("delete_many");
    if route_name(a) == route_name(b) {
        assert(route_name(a).len() == route_name(b).len());
        assert(route_name(a)[0] == route_name(b)[0]);
    }
}

/// The position of an operation in the fixed order of the universe.
pub open spec fn route_index(r: Routes) -> int {
    match r {
        Routes::CreateOne => 0,
        Routes::CreateMany => 1,
        Routes::ReadOne => 2,
        Routes::ReadMany => 3,
        Routes::ReplaceOne => 4,
        Routes::ReplaceMany => 5,
        Routes::UpdateOne => 6,
        Routes::UpdateMany => 7,
        Routes::DeleteOne => 8,
        Routes::DeleteMany => 9,
    }
}

/// The whole universe of operations, in its fixed order.
pub open spec fn universe() -> Seq<Routes> {
    seq![
        Routes::CreateOne,
        Routes::CreateMany,
        Routes::ReadOne,
        Routes::ReadMany,
        Routes::ReplaceOne,
        Routes::ReplaceMany,
        Routes::UpdateOne,
        Routes::UpdateMany,
        Routes::DeleteOne,
        Routes::DeleteMany,
    ]
}

/// The method an operation is registered under; bulk operations other than
/// `read_many` have none.
pub open spec fn route_method(r: Routes) -> Option<HttpMethod> {
    match r {
        Routes::CreateOne => Some(HttpMethod::Post),
        Routes::ReadOne => Some(HttpMethod::Get),
        Routes::ReadMany => Some(HttpMethod::Get),
        Routes::UpdateOne => Some(HttpMethod::Patch),
        Routes::ReplaceOne => Some(HttpMethod::Put),
        Routes::DeleteOne => Some(HttpMethod::Delete),
        _ => None,
    }
}

/// The collection path of a resource: `/` followed by its path segment.
pub open spec fn collection_path(segment: Seq<char>) -> Seq<char> {
    seq!['/'] + segment
}

/// The item path of a resource: the collection path followed by `/{id}`.
pub open spec fn item_path(segment: Seq<char>) -> Seq<char> {
    collection_path(segment) + "/{id}"@
}

/// The path template an operation is registered under.
pub open spec fn route_path(r: Routes, segment: Seq<char>) -> Option<Seq<char>> {
    match r {
        Routes::CreateOne | Routes::ReadMany => Some(collection_path(segment)),
        Routes::ReadOne | Routes::UpdateOne | Routes::ReplaceOne | Routes::DeleteOne => Some(
            item_path(segment),
        ),
        _ => None,
    }
}

/// The name of an HTTP method as it stands on the wire.
pub open spec fn method_name(m: HttpMethod) -> Seq<char> {
    match m {
        HttpMethod::Get => "GET"@,
        HttpMethod::Post => "POST"@,
        HttpMethod::Put => "PUT"@,
        HttpMethod::Patch => "PATCH"@,
        HttpMethod::Delete => "DELETE"@,
    }
}

impl HttpMethod {
    /// The name of the method as it stands on the wire.
    pub fn as_str(&self) -> (r: &'static str)
        ensures
            r@ == method_name(*self),
    {
        match self {
            HttpMethod::Get => "GET",
            HttpMethod::Post => "POST",
            HttpMethod::Put => "PUT",
            HttpMethod::Patch => "PATCH",
            HttpMethod::Delete => "DELETE",
        }
    }
}

impl Routes {
    /// The configuration name of the operation (`create_one`, `read_many`, ...).
    pub fn get_path(&self) -> (r: &'static str)
        ensures
            r@ == route_name(*self),
    {
        match self {
            Routes::CreateOne => "create_one",
            Routes::CreateMany => "create_many",
            Routes::ReadOne => "read_one",
            Routes::ReadMany => "read_many",
            Routes::ReplaceOne => "replace_one",
            Routes::ReplaceMany => "replace_many",
            Routes::UpdateOne => "update_one",
            Routes::UpdateMany => "update_many",
            Routes::DeleteOne => "delete_one",
            Routes::DeleteMany => "delete_many",
        }
    }

    /// The position of the operation in the fixed order of the universe.
    pub fn index(&self) -> (r: usize)
        ensures
            r as int == route_index(*self),
            r < 10,
    {
        match self {
            Routes::CreateOne => 0,
            Routes::CreateMany => 1,
            Routes::ReadOne => 2,
            Routes::ReadMany => 3,
            Routes::ReplaceOne => 4,
            Routes::ReplaceMany => 5,
            Routes::UpdateOne => 6,
            Routes::UpdateMany => 7,
            Routes::DeleteOne => 8,
            Routes::DeleteMany => 9,
        }
    }

    /// All ten operations, in their fixed order.
    pub fn all() -> (r: Vec<Routes>)
        ensures
            r@ == universe(),
    {
        let r = vec![
            Routes::CreateOne,
            Routes::CreateMany,
            Routes::ReadOne,
            Routes::ReadMany,
            Routes::ReplaceOne,
            Routes::ReplaceMany,
            Routes::UpdateOne,
            Routes::UpdateMany,
            Routes::DeleteOne,
            Routes::DeleteMany,
        ];
        assert(r@ =~= universe());
        r
    }

    /// The operation with the given configuration name, if there is one.
    pub fn from_name(name: &str) -> (r: Option<Routes>)
        ensures
            r matches Some(op) ==> route_name(op) == name@,
            r is None ==> forall|op: Routes| route_name(op) != name@,
    {
        let all = Routes::all();
        let mut i: usize = 0;
        while i < all.len()
            invariant
                all@ == universe(),
                i <= all@.len(),
                forall|j: int| 0 <= j < i ==> route_name(#[trigger] all@[j]) != name@,
            decreases all@.len() - i,
        {
            let op = all[i];
            if same_text(op.get_path(), name) {
                return Some(op);
            }
            i = i + 1;
        }
        assert forall|op: Routes| route_name(op) != name@ by {
            assert(all@[route_index(op)] == op);
        }
        None
    }

    /// The HTTP method the operation is registered under, if it has a route.
    pub fn method(&self) -> (r: Option<HttpMethod>)
        ensures
            r == route_method(*self),
    {
        match self {
            Routes::CreateOne => Some(HttpMethod::Post),
            Routes::ReadOne => Some(HttpMethod::Get),
            Routes::ReadMany => Some(HttpMethod::Get),
            Routes::UpdateOne => Some(HttpMethod::Patch),
            Routes::ReplaceOne => Some(HttpMethod::Put),
            Routes::DeleteOne => Some(HttpMethod::Delete),
            _ => None,
        }
    }

    /// The path template the operation is registered under for a resource
    /// whose path segment is `segment`, if it has a route.
    pub fn path_template(&self, segment: &str) -> (r: Option<String>)
        ensures
            r matches Some(p) ==> route_path(*self, segment@) == Some(p@),
            r is None ==> route_path(*self, segment@) is None,
    {
        match self {
            Routes::CreateOne | Routes::ReadMany => {
                let p = String::from_str("/").concat(segment);
                proof {
                    reveal_strlit("/");
                }
                assert(p@ =~= collection_path(segment@));
                Some(p)
            },
            Routes::ReadOne | Routes::UpdateOne | Routes::ReplaceOne | Routes::DeleteOne => {
                let p = String::from_str("/").concat(segment).concat("/{id}");
                proof {
                    reveal_strlit("/");
                }
                assert(p@ =~= item_path(segment@));
                Some(p)
            },
            _ => None,
        }
    }
}

} // verus!
