//! Resolution of the set of operations to expose for a resource.
use vstd::prelude::*;

use crate::errors::BuildError;
use crate::routes::{lemma_route_name_injective, route_index, route_name, Routes};

verus! {

/// Whether some operation carries the given name.
pub open spec fn known_name(name: Seq<char>) -> bool {
    exists|op: Routes| route_name(op) == name
}

/// The operations that a list of names asks for.
pub open spec fn named_ops(names: Seq<Seq<char>>) -> Set<Routes> {
    Set::new(|op: Routes| exists|i: int| 0 <= i < names.len() && names[i] == route_name(op))
}

/// Every operation.
pub open spec fn all_ops() -> Set<Routes> {
    Set::new(|op: Routes| true)
}

/// The view of a list of strings as a sequence of character sequences.
pub open spec fn names_view(names: Seq<String>) -> Seq<Seq<char>> {
    names.map_values(|s: String| s@)
}

/// The set that an allow-list resolves to, when every name in it is known:
/// all operations for an empty list, else exactly the named ones.
pub open spec fn resolved(names: Seq<Seq<char>>) -> Set<Routes> {
    if names.len() == 0 {
        all_ops()
    } else {
        named_ops(names)
    }
}

/// Whether the name at `i` is the first one in the list that names no operation.
pub open spec fn first_unknown(names: Seq<Seq<char>>, i: int) -> bool {
    &&& 0 <= i < names.len()
    &&& !known_name(names[i])
    &&& forall|j: int| 0 <= j < i ==> known_name(#[trigger] names[j])
}

/// A set of enabled operations, one flag per operation of the universe.
#[derive(Clone, Debug)]
pub struct EndpointSet {
    enabled: Vec<bool>,
}

impl View for EndpointSet {
    type V = Set<Routes>;

    closed spec fn view(&self) -> Set<Routes> {
        Set::new(|op: Routes| self.enabled@[route_index(op)])
    }
}

impl EndpointSet {
    /// The set holds exactly one flag per operation.
    pub closed spec fn wf(&self) -> bool {
        self.enabled@.len() == 10
    }

    /// The set with no operation in it.
    pub fn none() -> (r: EndpointSet)
        ensures
            r.wf(),
            r@ == Set::<Routes>::empty(),
    {
        let r = EndpointSet { enabled: vec![false, false, false, false, false, false, false, false, false, false] };
        assert(r@ =~= Set::<Routes>::empty());
        r
    }

    /// The set of every operation.
    pub fn every() -> (r: EndpointSet)
        ensures
            r.wf(),
            r@ == all_ops(),
    {
        let r = EndpointSet { enabled: vec![true, true, true, true, true, true, true, true, true, true] };
        assert(r@ =~= all_ops());
        r
    }

    /// Adds an operation to the set.
    pub fn insert(&mut self, op: Routes)
        requires
            old(self).wf(),
        ensures
            final(self).wf(),
            final(self)@ == old(self)@.insert(op),
    {
        let i = op.index();
        self.enabled.set(i, true);
        assert(self@ =~= old(self)@.insert(op));
    }

    /// Whether the operation is enabled.
    pub fn contains(&self, op: Routes) -> (r: bool)
        requires
            self.wf(),
        ensures
            r == self@.contains(op),
    {
        self.enabled[op.index()]
    }
}

/// Resolves an allow-list of operation names. An empty list enables every
/// operation; otherwise exactly the named ones are enabled. A name outside
/// the universe is rejected with the first such name.
pub fn resolve_endpoints(requested: &Vec<String>) -> (r: Result<EndpointSet, BuildError>)
    ensures
        r matches Ok(set) ==> set.wf() && set@ == resolved(names_view(requested@)),
        r is Ok <==> forall|i: int| 0 <= i < requested@.len() ==> known_name(#[trigger] requested@[i]@),
        r matches Err(e) ==> exists|i: int| first_unknown(names_view(requested@), i)
            && e == BuildError::UnknownOperation(requested@[i]),
{
    if requested.len() == 0 {
        let set = EndpointSet::every();
        return Ok(set);
    }
    let ghost names = names_view(requested@);
    let mut set = EndpointSet::none();
    let mut i: usize = 0;
    while i < requested.len()
        invariant
            names == names_view(requested@),
            i <= requested@.len(),
            set.wf(),
            set@ == named_ops(names.subrange(0, i as int)),
            forall|j: int| 0 <= j < i ==> known_name(#[trigger] requested@[j]@),
        decreases requested@.len() - i,
    {
        let name = &requested[i];
        match Routes::from_name(name.as_str()) {
            Some(op) => {
                set.insert(op);
                let ghost prev = names.subrange(0, i as int);
                let ghost next = names.subrange(0, i + 1);
                assert(next[i as int] == route_name(op));
                assert forall|k: int| 0 <= k < i implies #[trigger] next[k] == prev[k] by {}
                assert(set@ =~= named_ops(next)) by {
                    assert forall|o: Routes| #[trigger] named_ops(next).contains(o)
                        implies set@.contains(o) by {
                        let k = choose|k: int| 0 <= k < next.len() && #[trigger] next[k] == route_name(o);
                        if k < i {
                            assert(prev[k] == route_name(o));
                            assert(named_ops(prev).contains(o));
                        } else {
                            lemma_route_name_injective(o, op);
                        }
                    }
                    assert forall|o: Routes| #[trigger] set@.contains(o)
                        implies named_ops(next).contains(o) by {
                        if o != op {
                            assert(named_ops(prev).contains(o));
                            let k = choose|k: int| 0 <= k < prev.len() && #[trigger] prev[k] == route_name(o);
                            assert(next[k] == route_name(o));
                        }
                    }
                }
            },
            None => {
                let e = BuildError::UnknownOperation(name.clone());
                assert(first_unknown(names, i as int));
                return Err(e);
            },
        }
        i = i + 1;
    }
    assert(names.subrange(0, requested@.len() as int) =~= names);
    Ok(set)
}

} // verus!
