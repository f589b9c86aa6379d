//! The query surface over one registry and one store: `topology`,
//! `resource` and `resources`, with the error policy of the taxonomy —
//! a missing directly-named resource is fatal to its call, everything
//! local to one relationship or one discovered node degrades to a
//! diagnostic inside the traversal.

use vstd::prelude::*;
use crate::model::{QueryError, Resource, Topology, spec_project, spec_node_id};
use crate::paging::{Page, list, spec_cursor_offset, spec_page_end, projected};
use crate::registry::Registry;
use crate::store::{ResourceStore, spec_find, spec_matching};
use crate::topology::{
    build_topology,
    distinct_edges,
    distinct_ids,
    spec_node_ids,
    spec_topology_of,
};
use crate::cursor::spec_cursor_token;

verus! {

/// How deep a topology query traverses; relationship graphs are dense
/// and potentially cyclic, so unbounded traversal is not offered.
pub const DEFAULT_MAX_DEPTH: usize = 2;

/// How many resources one listing page carries.
pub const DEFAULT_PAGE_LIMIT: usize = 50;

/// The engine: an immutable registry and the store it queries.
pub struct Engine {
    pub registry: Registry,
    pub store: ResourceStore,
}

impl Engine {
    /// An engine over the given catalog and store.
    pub fn new(registry: Registry, store: ResourceStore) -> (r: Engine)
        ensures
            r.registry == registry,
            r.store == store,
    {
        Engine { registry, store }
    }

    /// The relationship graph around the named seed resource, to the
    /// default depth.  Fails with `ResourceNotFound`, and only then, when
    /// the seed is absent; no partial graph is returned.
    pub fn topology(&self, type_str: &str, identifier: &str) -> (r: Result<Topology, QueryError>)
        ensures
            r is Ok <==> spec_find(self.store.records@, type_str@, identifier@, 0) is Some,
            match r {
                Ok(t) => {
                    &&& t@ == spec_topology_of(
                        self.store.records@,
                        self.registry.entries@,
                        identifier@,
                        DEFAULT_MAX_DEPTH as nat,
                    )
                    &&& distinct_ids(spec_node_ids(t@.nodes))
                    &&& distinct_edges(t@.edges)
                    &&& t@.nodes.len() >= 1
                    &&& spec_node_id(t@.nodes[0]) == identifier@
                },
                Err(e) => e == QueryError::ResourceNotFound,
            },
    {
        build_topology(&self.store, &self.registry, type_str, identifier, DEFAULT_MAX_DEPTH)
    }

    /// The named resource, projected onto the typed union.  Fails with
    /// `ResourceNotFound`, and only then, when it is absent.
    pub fn resource(&self, type_str: &str, identifier: &str) -> (r: Result<Resource, QueryError>)
        ensures
            r is Ok <==> spec_find(self.store.records@, type_str@, identifier@, 0) is Some,
            match r {
                Ok(res) => res == spec_project(
                    self.store.records@[spec_find(
                        self.store.records@,
                        type_str@,
                        identifier@,
                        0,
                    ).unwrap()].resource,
                ),
                Err(e) => e == QueryError::ResourceNotFound,
            },
    {
        match self.store.get(type_str, identifier) {
            Some(rec) => Ok(rec.resource.get_resource()),
            None => Err(QueryError::ResourceNotFound),
        }
    }

    /// One page of the resources of one type, resuming at `next_token`;
    /// the filter is interpreted by the store.  Fails with
    /// `InvalidCursor`, and only then, when the token is present and does
    /// not stand for an offset into the current matches of the current
    /// store generation.
    pub fn resources(
        &self,
        type_str: &str,
        next_token: Option<&String>,
        resource_model: Option<&String>,
    ) -> (r: Result<Page, QueryError>)
        ensures
            ({
                let ms = spec_matching(
                    self.store.records@,
                    type_str@,
                    match resource_model {
                        Some(p) => Some(p@),
                        None => None,
                    },
                );
                let off = spec_cursor_offset(
                    self.store.generation as nat,
                    ms.len(),
                    match next_token {
                        Some(c) => Some(c@),
                        None => None,
                    },
                );
                &&& (r is Ok <==> off is Some)
                &&& match r {
                    Ok(p) => {
                        let o = off.unwrap();
                        let e = spec_page_end(ms.len(), o, DEFAULT_PAGE_LIMIT as nat);
                        &&& p.items@ == projected(ms.subrange(o as int, e as int))
                        &&& match p.next_token {
                            Some(tok) => e < ms.len() && tok@ == spec_cursor_token(
                                self.store.generation as nat,
                                e,
                            ),
                            None => e == ms.len(),
                        }
                    },
                    Err(e) => e == QueryError::InvalidCursor,
                }
            }),
    {
        list(&self.store, type_str, resource_model, next_token, DEFAULT_PAGE_LIMIT)
    }
}

} // verus!
