//! The in-memory resource store: ingested raw records with their parsed
//! property documents, in ingestion order.  Read-only with respect to
//! every query; the generation counter stamps issued cursors so that a
//! cursor outlived by a mutation is detected.

use vstd::prelude::*;
use crate::model::AwsResource;
use crate::props::PropValue;
use crate::text::is_prefix_of;

verus! {

/// One ingested record: the raw wire record and its parsed properties.
pub struct ResourceRecord {
    pub resource: AwsResource,
    pub properties: PropValue,
}

/// The store: records in ingestion order plus a mutation counter.
pub struct ResourceStore {
    pub records: Vec<ResourceRecord>,
    pub generation: u64,
}

/// First record from index `k` on with the given type string and
/// identifier.
pub open spec fn spec_find(
    records: Seq<ResourceRecord>,
    t: Seq<char>,
    id: Seq<char>,
    k: int,
) -> Option<int>
    decreases records.len() - k,
{
    if k < 0 || k >= records.len() {
        None
    } else if records[k].resource.resource_type@ == t && records[k].resource.identifier@ == id {
        Some(k)
    } else {
        spec_find(records, t, id, k + 1)
    }
}

/// First record from index `k` on with the given identifier, regardless
/// of type.
pub open spec fn spec_find_by_id(records: Seq<ResourceRecord>, id: Seq<char>, k: int) -> Option<
    int,
>
    decreases records.len() - k,
{
    if k < 0 || k >= records.len() {
        None
    } else if records[k].resource.identifier@ == id {
        Some(k)
    } else {
        spec_find_by_id(records, id, k + 1)
    }
}

/// Does a record match a listing query?  The type string must be equal;
/// this store interprets a filter as a prefix of the identifier.
pub open spec fn spec_matches(r: ResourceRecord, t: Seq<char>, f: Option<Seq<char>>) -> bool {
    r.resource.resource_type@ == t && match f {
        None => true,
        Some(p) => is_prefix_of(p, r.resource.identifier@),
    }
}

/// The raw records matching a listing query, in store order.
pub open spec fn spec_matching(
    records: Seq<ResourceRecord>,
    t: Seq<char>,
    f: Option<Seq<char>>,
) -> Seq<AwsResource>
    decreases records.len(),
{
    if records.len() == 0 {
        Seq::<AwsResource>::empty()
    } else {
        let rest = spec_matching(records.drop_last(), t, f);
        if spec_matches(records.last(), t, f) {
            rest.push(records.last().resource)
        } else {
            rest
        }
    }
}

impl ResourceStore {
    /// An empty store at generation zero.
    pub fn new() -> (r: ResourceStore)
        ensures
            r.records@ =~= Seq::<ResourceRecord>::empty(),
            r.generation == 0,
    {
        ResourceStore { records: Vec::new(), generation: 0 }
    }

    /// Ingest one record at the end of the store, advancing the
    /// generation so that previously issued cursors become stale.
    pub fn insert(&mut self, rec: ResourceRecord)
        requires
            old(self).generation < u64::MAX,
        ensures
            final(self).records@ == old(self).records@.push(rec),
            final(self).generation == old(self).generation + 1,
    {
        self.records.push(rec);
        self.generation = self.generation + 1;
    }

    /// The first record with the given type string and identifier, if
    /// any.
    pub fn get(&self, t: &str, id: &str) -> (r: Option<&ResourceRecord>)
        ensures
            match spec_find(self.records@, t@, id@, 0) {
                Some(j) => r is Some && *r.unwrap() == self.records@[j],
                None => r is None,
            },
    {
        let n = self.records.len();
        let mut k: usize = 0;
        while k < n
            invariant
                k <= n,
                n == self.records@.len(),
                spec_find(self.records@, t@, id@, 0) == spec_find(
                    self.records@,
                    t@,
                    id@,
                    k as int,
                ),
            decreases n - k,
        {
            if crate::text::str_eq(self.records[k].resource.resource_type.as_str(), t)
                && crate::text::str_eq(self.records[k].resource.identifier.as_str(), id) {
                return Some(&self.records[k]);
            }
            k = k + 1;
        }
        None
    }

    /// The first record with the given identifier, regardless of type, if
    /// any.
    pub fn find_by_identifier(&self, id: &str) -> (r: Option<&ResourceRecord>)
        ensures
            match spec_find_by_id(self.records@, id@, 0) {
                Some(j) => r is Some && *r.unwrap() == self.records@[j],
                None => r is None,
            },
    {
        let n = self.records.len();
        let mut k: usize = 0;
        while k < n
            invariant
                k <= n,
                n == self.records@.len(),
                spec_find_by_id(self.records@, id@, 0) == spec_find_by_id(
                    self.records@,
                    id@,
                    k as int,
                ),
            decreases n - k,
        {
            if crate::text::str_eq(self.records[k].resource.identifier.as_str(), id) {
                return Some(&self.records[k]);
            }
            k = k + 1;
        }
        None
    }

    /// Every raw record matching the type string and filter, in store
    /// order.
    #[verifier::loop_isolation(false)]
    pub fn matching(&self, t: &str, f: Option<&String>) -> (r: Vec<AwsResource>)
        ensures
            r@ == spec_matching(
                self.records@,
                t@,
                match f {
                    Some(p) => Some(p@),
                    None => None,
                },
            ),
    {
        let ghost fv: Option<Seq<char>> = match f {
            Some(p) => Some(p@),
            None => None,
        };
        let mut out: Vec<AwsResource> = Vec::new();
        let n = self.records.len();
        let mut k: usize = 0;
        while k < n
            invariant
                k <= n,
                n == self.records@.len(),
                out@ == spec_matching(self.records@.take(k as int), t@, fv),
            decreases n - k,
        {
            let rec = &self.records[k];
            let type_ok = crate::text::str_eq(rec.resource.resource_type.as_str(), t);
            let filter_ok = match f {
                Some(p) => {
                    let pr = crate::text::str_has_prefix(
                        rec.resource.identifier.as_str(),
                        p.as_str(),
                    );
                    pr
                },
                None => true,
            };
            proof {
                let pre = self.records@.take(k as int);
                let cur = self.records@.take(k + 1);
                assert(cur.drop_last() =~= pre);
                assert(cur.last() == self.records@[k as int]);
                assert(cur.len() == k + 1);
                assert(spec_matching(cur, t@, fv) == if spec_matches(
                    self.records@[k as int],
                    t@,
                    fv,
                ) {
                    spec_matching(pre, t@, fv).push(self.records@[k as int].resource)
                } else {
                    spec_matching(pre, t@, fv)
                });
                assert((type_ok && filter_ok) == spec_matches(self.records@[k as int], t@, fv));
            }
            if type_ok && filter_ok {
                out.push(rec.resource.duplicate());
            }
            k = k + 1;
        }
        proof {
            assert(self.records@.take(n as int) =~= self.records@);
        }
        out
    }
}

} // verus!
