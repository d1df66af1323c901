//! Filter predicates in the shape the store collaborator accepts: a
//! conjunction / disjunction tree of equality comparisons over named columns,
//! plus the decision step that turns one authorized page request into the
//! query window the store is asked for.

use vstd::prelude::*;
use crate::auth::{AccessError, AuthContext};

verus! {

/// A filter condition over named columns.
#[derive(Debug)]
pub enum Filter {
    /// The named column equals the value.
    Eq(String, String),
    /// Both branches hold.
    All(Box<Filter>, Box<Filter>),
    /// At least one branch holds.
    Any(Box<Filter>, Box<Filter>),
}

impl Filter {
    /// Whether a row — a map from column name to value — satisfies this
    /// filter.  A row lacking the named column fails an equality comparison.
    pub open spec fn matches(self, row: Map<Seq<char>, Seq<char>>) -> bool
        decreases self,
    {
        match self {
            Filter::Eq(col, val) => row.dom().contains(col@) && row[col@] == val@,
            Filter::All(a, b) => (*a).matches(row) && (*b).matches(row),
            Filter::Any(a, b) => (*a).matches(row) || (*b).matches(row),
        }
    }
}

/// The column that stores a record's owner.
pub fn owner_column() -> (c: String)
    ensures
        c@ == "user_id"@,
{
    "user_id".to_owned()
}

/// Conjoins the ownership narrowing with a resource-specific filter: the
/// result admits exactly the rows owned by `owner` that also pass `extra`.
pub fn owner_narrowed_filter(owner: &String, extra: Option<Filter>) -> (f: Filter)
    ensures
        forall|row: Map<Seq<char>, Seq<char>>| #[trigger]
            f.matches(row) <==> ({
                &&& row.dom().contains("user_id"@)
                &&& row["user_id"@] == owner@
                &&& match extra {
                    Some(e) => e.matches(row),
                    None => true,
                }
            }),
{
    let base = Filter::Eq(owner_column(), owner.clone());
    match extra {
        Some(e) => {
            let f = Filter::All(Box::new(base), Box::new(e));
            proof {
                assert forall|row: Map<Seq<char>, Seq<char>>| #[trigger]
                    f.matches(row) <==> ({
                        &&& row.dom().contains("user_id"@)
                        &&& row["user_id"@] == owner@
                        &&& e.matches(row)
                    }) by {
                    reveal_with_fuel(Filter::matches, 3);
                }
            }
            f
        },
        None => base,
    }
}

/// One authorized, validated page query, ready for the store: the narrowed
/// filter and the offset/limit window, ordering left to the resource's
/// configuration.
#[derive(Debug)]
pub struct QueryPlan {
    /// Conjunction of the ownership narrowing and the extra filter.
    pub filter: Filter,
    /// Records to skip: `(page_number - 1) * limit`.
    pub offset: u64,
    /// Records to fetch: the page size.
    pub limit: u64,
}

/// Decides one authorized page query, before anything reaches the store.
///
/// A zero page number or page size fails validation; an ownership mismatch
/// without elevation is an explicit authorization error.  On success the
/// plan's filter admits exactly the resolved owner's rows that pass `extra`,
/// and the window is the requested page.  An offset beyond the 64-bit range
/// saturates: a window past any table's end, read back as an empty page.
pub fn plan_page_authorized(
    page_number: u64,
    page_size: u64,
    extra: Option<Filter>,
    requested_owner_id: &String,
    auth: &AuthContext,
) -> (r: Result<QueryPlan, AccessError>)
    ensures
        page_number == 0 || page_size == 0 ==> (r matches Err(e) && e
            == AccessError::Validation),
        page_number >= 1 && page_size >= 1 && auth.spec_resolved_owner(
            requested_owner_id@,
        ) is None ==> (r matches Err(e) && e == AccessError::Authorization),
        page_number >= 1 && page_size >= 1 ==> (auth.spec_resolved_owner(requested_owner_id@)
            matches Some(owner) ==> (r matches Ok(plan) && {
            &&& plan.limit == page_size
            &&& plan.offset as int == (if (page_number - 1) * page_size > u64::MAX as int {
                u64::MAX as int
            } else {
                (page_number - 1) * page_size
            })
            &&& forall|row: Map<Seq<char>, Seq<char>>| #[trigger]
                plan.filter.matches(row) <==> ({
                    &&& row.dom().contains("user_id"@)
                    &&& row["user_id"@] == owner
                    &&& match extra {
                        Some(e) => e.matches(row),
                        None => true,
                    }
                })
        })),
{
    if page_number == 0 || page_size == 0 {
        return Err(AccessError::Validation);
    }
    let owner = match auth.resolve_owner(requested_owner_id) {
        Ok(o) => o,
        Err(e) => {
            return Err(e);
        },
    };
    let offset = match (page_number - 1).checked_mul(page_size) {
        Some(o) => o,
        None => u64::MAX,
    };
    let filter = owner_narrowed_filter(&owner, extra);
    Ok(QueryPlan { filter, offset, limit: page_size })
}

} // verus!
