//! Queries and how they are counted.
use crate::native::QueryPool;
use vstd::prelude::*;

verus! {

/// The number of a query in its pool.
pub type QueryId = u32;

/// One query of a pool.
#[derive(Clone, Copy, Debug, PartialEq, Eq)]
pub struct Query {
    pub pool: QueryPool,
    pub id: QueryId,
}

/// What a query is to promise.
#[derive(Clone, Copy, Debug, PartialEq, Eq)]
pub struct QueryControl {
    /// The count is exact, not just zero or not zero.
    pub precise: bool,
}

} // verus!
