//! Core primitives of a multi-tenant resource API: a time-ordered unique
//! identifier generator and a role-gated, paginated data-access layer.
//!
//! HTTP routing, multipart parsing and the database engine are external
//! collaborators; this crate holds the logic they call into.

use vstd::prelude::*;

pub mod auth;
pub mod filter;
pub mod idgen;
pub mod models;
pub mod page;
pub mod uploads;
pub mod user;

verus! {

/// Number of pages needed to hold `total` items at `size` items per page.
pub open spec fn spec_ceil_div(total: int, size: int) -> int
    recommends
        size > 0,
{
    (total + size - 1) / size
}

/// Ceiling division without intermediate overflow.
pub fn ceil_div(total: u64, size: u64) -> (r: u64)
    requires
        size > 0,
    ensures
        r == spec_ceil_div(total as int, size as int),
{
    let q = total / size;
    let rem = total % size;
    if rem == 0 {
        proof {
            assert(q == spec_ceil_div(total as int, size as int)) by (nonlinear_arith)
                requires
                    size > 0,
                    q == total as int / size as int,
                    total as int % size as int == 0,
            {
            }
        }
        q
    } else {
        proof {
            assert(q + 1 == spec_ceil_div(total as int, size as int)) by (nonlinear_arith)
                requires
                    size > 0,
                    q == total as int / size as int,
                    total as int % size as int != 0,
            {
            }
            assert(q < u64::MAX) by (nonlinear_arith)
                requires
                    size > 0,
                    q == total as int / size as int,
                    total as int % size as int != 0,
                    total <= u64::MAX,
            {
            }
        }
        q + 1
    }
}

} // verus!
