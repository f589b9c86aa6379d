//! The listing service: paged enumeration of resources by type and
//! filter, in store order, with opaque resume cursors.  A cursor not
//! issued by a prior call, or issued against a store generation that a
//! mutation has outlived, is rejected as invalid — never silently
//! accepted.

use vstd::prelude::*;
use crate::cursor::{spec_decode, spec_cursor_token, decode_cursor, encode_cursor};
use crate::model::{AwsResource, QueryError, Resource, spec_project};
use crate::store::{ResourceStore, spec_matching};

verus! {

/// One page of a listing: the projected resources of the page and the
/// token resuming after them, absent on the last page.
pub struct Page {
    pub items: Vec<Resource>,
    pub next_token: Option<String>,
}

/// The typed projections of a sequence of raw records.
pub open spec fn projected(s: Seq<AwsResource>) -> Seq<Resource> {
    s.map_values(|a: AwsResource| spec_project(a))
}

/// The resume offset a cursor stands for against a store generation and
/// match count: zero for no cursor; nothing for a token that decoding
/// rejects, whose generation is stale, or whose offset lies beyond the
/// matches.
pub open spec fn spec_cursor_offset(generation: nat, total: nat, c: Option<Seq<char>>) -> Option<
    nat,
> {
    match c {
        None => Some(0),
        Some(s) => match spec_decode(s) {
            Some(p) => if p.0 == generation && p.1 <= total {
                Some(p.1)
            } else {
                None
            },
            None => None,
        },
    }
}

/// Where a page starting at `offset` with the given limit ends.
pub open spec fn spec_page_end(total: nat, offset: nat, limit: nat) -> nat {
    if offset + limit <= total {
        offset + limit
    } else {
        total
    }
}

/// List one page of the resources of one type, filtered by the store's
/// filter semantics, resuming at `cursor`.
///
/// Returns `InvalidCursor`, and only then, when the cursor is present and
/// does not stand for an offset into the current matches of the current
/// store generation.  On success the page holds exactly the projected
/// matches from the resume offset up to the limit, in store order, and a
/// resume token exactly when matches remain.
#[verifier::loop_isolation(false)]
pub fn list(
    store: &ResourceStore,
    t: &str,
    filter: Option<&String>,
    cursor: Option<&String>,
    limit: usize,
) -> (r: Result<Page, QueryError>)
    requires
        limit >= 1,
    ensures
        ({
            let ms = spec_matching(
                store.records@,
                t@,
                match filter {
                    Some(p) => Some(p@),
                    None => None,
                },
            );
            let off = spec_cursor_offset(
                store.generation as nat,
                ms.len(),
                match cursor {
                    Some(c) => Some(c@),
                    None => None,
                },
            );
            &&& (r is Ok <==> off is Some)
            &&& match r {
                Ok(p) => {
                    let o = off.unwrap();
                    let e = spec_page_end(ms.len(), o, limit as nat);
                    &&& p.items@ == projected(ms.subrange(o as int, e as int))
                    &&& match p.next_token {
                        Some(tok) => e < ms.len() && tok@ == spec_cursor_token(
                            store.generation as nat,
                            e,
                        ),
                        None => e == ms.len(),
                    }
                },
                Err(e) => e == QueryError::InvalidCursor,
            }
        }),
{
    let ms = store.matching(t, filter);
    let ghost msv = ms@;
    let offset: usize = match cursor {
        None => 0,
        Some(c) => {
            match decode_cursor(c.as_str()) {
                None => {
                    return Err(QueryError::InvalidCursor);
                },
                Some(p) => {
                    if p.0 != store.generation {
                        return Err(QueryError::InvalidCursor);
                    }
                    if p.1 > ms.len() as u64 {
                        return Err(QueryError::InvalidCursor);
                    }
                    p.1 as usize
                },
            }
        },
    };
    let end = if limit <= ms.len() - offset {
        offset + limit
    } else {
        ms.len()
    };
    let mut items: Vec<Resource> = Vec::new();
    let mut i: usize = offset;
    proof {
        assert(items@ =~= projected(msv.subrange(offset as int, offset as int)));
    }
    while i < end
        invariant
            offset <= i <= end,
            end <= msv.len(),
            msv == ms@,
            items@ == projected(msv.subrange(offset as int, i as int)),
        decreases end - i,
    {
        let p = ms[i].get_resource();
        items.push(p);
        proof {
            let pre = msv.subrange(offset as int, i as int);
            let cur = msv.subrange(offset as int, i + 1);
            assert(cur.drop_last() =~= pre);
            assert(cur.last() == msv[i as int]);
            assert forall|x: int| 0 <= x < cur.len() implies projected(cur)[x] == items@[x] by {
                assert(projected(cur)[x] == spec_project(cur[x]));
                if x < pre.len() {
                    assert(cur[x] == pre[x]);
                    assert(projected(pre)[x] == spec_project(pre[x]));
                }
            }
            assert(items@ =~= projected(cur));
        }
        i = i + 1;
    }
    let next_token = if end < ms.len() {
        Some(encode_cursor(store.generation, end as u64))
    } else {
        None
    };
    Ok(Page { items, next_token })
}

/// A resume token this service issues is accepted by the generation it
/// was issued against and resumes at exactly the offset it encodes.
pub proof fn lemma_issued_cursor_resumes(generation: u64, total: nat, e: u64)
    requires
        e as nat <= total,
    ensures
        spec_cursor_offset(
            generation as nat,
            total,
            Some(spec_cursor_token(generation as nat, e as nat)),
        ) == Some(e as nat),
{
    crate::cursor::lemma_cursor_round_trip(generation, e);
}

/// Pagination completeness: against an unchanged store, a first page and
/// the page its resume token yields are disjoint segments that together
/// are exactly the first `e2` matches in order — the full match list
/// when the second page carries no further token.
pub proof fn lemma_pagination_complete(ms: Seq<AwsResource>, l1: nat, l2: nat)
    requires
        l1 >= 1,
        l2 >= 1,
    ensures
        ({
            let e1 = spec_page_end(ms.len(), 0, l1);
            let e2 = spec_page_end(ms.len(), e1, l2);
            &&& projected(ms.subrange(0, e1 as int)) + projected(
                ms.subrange(e1 as int, e2 as int),
            ) == projected(ms.subrange(0, e2 as int))
            &&& e2 == ms.len() ==> projected(ms.subrange(0, e1 as int)) + projected(
                ms.subrange(e1 as int, e2 as int),
            ) == projected(ms)
        }),
{
    let e1 = spec_page_end(ms.len(), 0, l1);
    let e2 = spec_page_end(ms.len(), e1, l2);
    let a = ms.subrange(0, e1 as int);
    let b = ms.subrange(e1 as int, e2 as int);
    let c = ms.subrange(0, e2 as int);
    assert forall|x: int| 0 <= x < c.len() implies (projected(a) + projected(b))[x] == projected(
        c,
    )[x] by {
        assert(projected(c)[x] == spec_project(c[x]));
        if x < a.len() {
            assert(projected(a)[x] == spec_project(a[x]));
            assert(a[x] == c[x]);
        } else {
            assert(projected(b)[x - a.len()] == spec_project(b[x - a.len()]));
            assert(b[x - a.len()] == c[x]);
        }
    }
    assert(projected(a) + projected(b) =~= projected(c));
    if e2 == ms.len() {
        assert(ms.subrange(0, e2 as int) =~= ms);
    }
}

} // verus!
