//! Role-gated, paginated data access.
//!
//! [`get_page_authorized`] composes the authorization narrowing of
//! [`AuthContext`] with a bounded, ordered page slice and its totals: the one
//! tested implementation that every entity type shares.

use vstd::prelude::*;
use crate::auth::{AccessError, AuthContext};
use crate::{ceil_div, spec_ceil_div};

verus! {

/// A stored record together with the identity that owns it: what the access
/// layer reads of an entity row.
#[derive(Debug)]
pub struct OwnedRecord<R> {
    pub owner_id: String,
    pub record: R,
}

/// A bounded, ordered slice of records plus pagination totals.
#[derive(Debug)]
pub struct PageResult<R> {
    /// The records of the requested page, in store order.
    pub items: Vec<R>,
    /// The requested page number, 1-based.
    pub page: u64,
    /// Number of pages the matching records fill.
    pub total_pages: u64,
    /// Number of matching records across all pages.
    pub total_items: u64,
}

impl<R> PageResult<R> {
    /// Pagination invariant for a page size: the slice is bounded by the
    /// page size, the page count is the ceiling of items over size, and a
    /// page past the end is empty rather than an error.
    pub open spec fn wf(self, page_size: int) -> bool {
        &&& self.items@.len() <= page_size
        &&& self.total_pages as int == spec_ceil_div(self.total_items as int, page_size)
        &&& self.page as int > self.total_pages as int ==> self.items@.len() == 0
    }
}

/// The records of `s` owned by `owner`, in store order.
pub open spec fn spec_owned_by<R>(s: Seq<OwnedRecord<R>>, owner: Seq<char>) -> Seq<
    OwnedRecord<R>,
> {
    s.filter(|e: OwnedRecord<R>| e.owner_id@ == owner)
}

/// Appending a record extends the owned selection exactly when the record's
/// owner matches.
pub proof fn lemma_owned_by_push<R>(s: Seq<OwnedRecord<R>>, x: OwnedRecord<R>, owner: Seq<char>)
    ensures
        spec_owned_by(s.push(x), owner) == (if x.owner_id@ == owner {
            spec_owned_by(s, owner).push(x)
        } else {
            spec_owned_by(s, owner)
        }),
{
    reveal(Seq::filter);
    assert(s.push(x).drop_last() =~= s);
}

/// The slice of `s` that page `page` (1-based) of size `size` holds: empty
/// once the page start runs past the end.
pub open spec fn spec_page_slice<A>(s: Seq<A>, page: int, size: int) -> Seq<A>
    recommends
        page >= 1,
        size >= 1,
{
    let start = if (page - 1) * size > s.len() {
        s.len() as int
    } else {
        (page - 1) * size
    };
    let end = if start + size > s.len() {
        s.len() as int
    } else {
        start + size
    };
    s.subrange(start, end)
}

/// A page past the last one starts at or beyond the end of the records.
pub proof fn lemma_page_beyond_total_is_empty(n: int, page: int, size: int)
    requires
        size >= 1,
        page >= 1,
        n >= 0,
        page > spec_ceil_div(n, size),
    ensures
        (page - 1) * size >= n,
{
    let pages = spec_ceil_div(n, size);
    assert(pages * size >= n) by (nonlinear_arith)
        requires
            size >= 1,
            n >= 0,
            pages == (n + size - 1) / size,
    {
    }
    assert((page - 1) * size >= pages * size) by (nonlinear_arith)
        requires
            page - 1 >= pages,
            size >= 1,
    {
    }
}

/// Pagination loses nothing: every record lies on the page its index
/// computes, at its computed place, and that page is within the page count.
pub proof fn lemma_each_record_on_its_page<A>(s: Seq<A>, size: int, i: int)
    requires
        size >= 1,
        0 <= i < s.len(),
    ensures
        ({
            let page = i / size + 1;
            &&& 1 <= page <= spec_ceil_div(s.len() as int, size)
            &&& 0 <= i - (page - 1) * size < spec_page_slice(s, page, size).len()
            &&& spec_page_slice(s, page, size)[i - (page - 1) * size] == s[i]
        }),
{
    let n = s.len() as int;
    let q = i / size;
    let r = i % size;
    assert(0 <= r < size && 0 <= q && i == q * size + r) by (nonlinear_arith)
        requires
            size >= 1,
            0 <= i,
            q == i / size,
            r == i % size,
    {
    }
    assert(spec_ceil_div(n, size) >= q + 1) by (nonlinear_arith)
        requires
            size >= 1,
            n >= q * size + 1,
            0 <= q,
    {
    }
}

/// Keeps the records owned by `owner`, in store order.
fn keep_owned_by<R>(items: Vec<OwnedRecord<R>>, owner: &String) -> (kept: Vec<OwnedRecord<R>>)
    ensures
        kept@ == spec_owned_by(items@, owner@),
{
    let ghost orig = items@;
    let mut rest = items;
    let mut kept: Vec<OwnedRecord<R>> = Vec::new();
    proof {
        reveal(Seq::filter);
        assert(orig.subrange(0, 0) =~= Seq::<OwnedRecord<R>>::empty());
        assert(kept@ == spec_owned_by(orig.subrange(0, 0), owner@));
    }
    while rest.len() > 0
        invariant
            rest.len() <= orig.len(),
            rest@ == orig.subrange(orig.len() - rest.len(), orig.len() as int),
            kept@ == spec_owned_by(orig.subrange(0, orig.len() - rest.len()), owner@),
        decreases rest.len(),
    {
        let ghost i = orig.len() - rest.len();
        let e = rest.remove(0);
        proof {
            assert(e == orig.subrange(i as int, orig.len() as int)[0]);
            assert(rest@ =~= orig.subrange(i + 1, orig.len() as int));
            assert(orig.subrange(0, i + 1) =~= orig.subrange(0, i as int).push(orig[i as int]));
            lemma_owned_by_push(orig.subrange(0, i as int), orig[i as int], owner@);
        }
        if e.owner_id == *owner {
            kept.push(e);
        }
    }
    proof {
        assert(orig.subrange(0, orig.len() as int) =~= orig);
    }
    kept
}

/// Moves out the slice that the requested page holds.
fn take_page_slice<R>(items: Vec<R>, page_number: u64, page_size: u64) -> (r: Vec<R>)
    requires
        page_number >= 1,
        page_size >= 1,
    ensures
        r@ == spec_page_slice(items@, page_number as int, page_size as int),
{
    let ghost orig = items@;
    let mut v = items;
    let len: usize = v.len();
    let len64: u64 = len as u64;
    let start64: u64 = if page_number - 1 > len64 / page_size {
        proof {
            assert((page_number - 1) * page_size > len64) by (nonlinear_arith)
                requires
                    page_size >= 1,
                    page_number - 1 > len64 / page_size,
                    len64 >= 0,
            {
            }
        }
        len64
    } else {
        proof {
            assert((page_number - 1) * page_size <= len64) by (nonlinear_arith)
                requires
                    page_size >= 1,
                    0 <= page_number - 1 <= len64 / page_size,
                    len64 >= 0,
            {
            }
        }
        (page_number - 1) * page_size
    };
    let start: usize = start64 as usize;
    let end: usize = if page_size > (len - start) as u64 {
        len
    } else {
        start + page_size as usize
    };
    v.truncate(end);
    proof {
        assert(v@ =~= orig.subrange(0, end as int));
    }
    let mut removed: usize = 0;
    while removed < start
        invariant
            removed <= start <= end <= orig.len(),
            v@ == orig.subrange(removed as int, end as int),
        decreases start - removed,
    {
        let ghost before = v@;
        v.remove(0);
        removed = removed + 1;
        proof {
            assert(before.remove(0) =~= orig.subrange(removed as int, end as int));
        }
    }
    proof {
        assert(v@ =~= spec_page_slice(orig, page_number as int, page_size as int));
    }
    v
}

/// Builds the page result from the store collaborator's two answers: the
/// count of matching records and the fetched slice for the planned window.
///
/// Answers that break the pagination invariant — a slice longer than the
/// page size, or records on a page past the computed end — are a store
/// failure, surfaced without detail; a consistent answer yields a
/// well-formed page with exact totals.
pub fn assemble_page<R>(
    records: Vec<R>,
    total_items: u64,
    page_number: u64,
    page_size: u64,
) -> (r: Result<PageResult<R>, AccessError>)
    ensures
        page_number == 0 || page_size == 0 ==> (r matches Err(e) && e
            == AccessError::Validation),
        page_number >= 1 && page_size >= 1 ==> {
            let pages = spec_ceil_div(total_items as int, page_size as int);
            let consistent = records@.len() <= page_size && (page_number as int > pages
                ==> records@.len() == 0);
            &&& consistent ==> (r matches Ok(p) && p.items@ == records@ && p.page == page_number
                && p.total_items == total_items && p.total_pages as int == pages && p.wf(
                page_size as int,
            ))
            &&& !consistent ==> (r matches Err(e) && e == AccessError::Store)
        },
{
    if page_number == 0 || page_size == 0 {
        return Err(AccessError::Validation);
    }
    let total_pages = ceil_div(total_items, page_size);
    let len64: u64 = records.len() as u64;
    if len64 > page_size || (page_number > total_pages && len64 > 0) {
        return Err(AccessError::Store);
    }
    Ok(
        PageResult {
            items: records,
            page: page_number,
            total_pages,
            total_items,
        },
    )
}

/// Returns the requested page of the records the caller may see.
///
/// A zero page number or page size is a validation failure, resolved before
/// anything else.  The ownership narrowing is explicit: the requested owner
/// id is resolved against the caller's context, and a non-elevated caller
/// naming another owner receives an authorization error, never a silently
/// substituted filter.  On success the page holds the slice of the resolved
/// owner's records — every record for an elevated caller querying another
/// owner, only the caller's own otherwise — with exact totals; a page past
/// the end is empty, not an error.
pub fn get_page_authorized<R>(
    page_number: u64,
    page_size: u64,
    store: Vec<OwnedRecord<R>>,
    requested_owner_id: &String,
    auth: &AuthContext,
) -> (r: Result<PageResult<OwnedRecord<R>>, AccessError>)
    ensures
        page_number == 0 || page_size == 0 ==> (r matches Err(e) && e
            == AccessError::Validation),
        page_number >= 1 && page_size >= 1 && auth.spec_resolved_owner(
            requested_owner_id@,
        ) is None ==> (r matches Err(e) && e == AccessError::Authorization),
        page_number >= 1 && page_size >= 1 ==> (auth.spec_resolved_owner(requested_owner_id@)
            matches Some(owner) ==> (r matches Ok(p) && {
            let matching = spec_owned_by(store@, owner);
            &&& p.page == page_number
            &&& p.total_items == matching.len()
            &&& p.total_pages as int == spec_ceil_div(matching.len() as int, page_size as int)
            &&& p.items@ == spec_page_slice(matching, page_number as int, page_size as int)
            &&& p.wf(page_size as int)
        })),
{
    if page_number == 0 || page_size == 0 {
        return Err(AccessError::Validation);
    }
    let owner = match auth.resolve_owner(requested_owner_id) {
        Ok(o) => o,
        Err(e) => {
            return Err(e);
        },
    };
    let matching = keep_owned_by(store, &owner);
    let total: u64 = matching.len() as u64;
    let total_pages = ceil_div(total, page_size);
    let items = take_page_slice(matching, page_number, page_size);
    proof {
        if page_number as int > total_pages as int {
            lemma_page_beyond_total_is_empty(total as int, page_number as int, page_size as int);
        }
    }
    Ok(
        PageResult {
            items,
            page: page_number,
            total_pages,
            total_items: total,
        },
    )
}

} // verus!
