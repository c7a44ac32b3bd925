//! Batch responder: packages an ordered sequence of per-item outcomes.

use vstd::prelude::*;

use crate::error::ApiError;

verus! {

/// Aggregate statistics resolved independently of the item sequence. The
/// local store performs no transfers, so every counter stays zero.
#[derive(Debug)]
pub struct Stats {
    /// Bytes downloaded.
    pub downloaded: u64,
    /// Bytes uploaded.
    pub uploaded: u64,
    /// Requests made.
    pub requests: u64,
}

impl Default for Stats {
    fn default() -> (r: Stats)
        ensures
            r.downloaded == 0 && r.uploaded == 0 && r.requests == 0,
    {
        Stats { downloaded: 0, uploaded: 0, requests: 0 }
    }
}

/// A batch answer: one result per produced item, in production order, plus
/// the aggregate statistics. One item's failure never prevents earlier or
/// later items from being delivered; the consumer takes the items in one
/// pass.
#[derive(Debug)]
pub struct Fetch<T> {
    /// Per-item outcomes, in the order the producing component made them
    /// (which may differ from request order for history and graph
    /// operations).
    pub entries: Vec<Result<T, ApiError>>,
    /// The deferred aggregate statistics value.
    pub stats: Stats,
}

/// Wraps per-item outcomes into the batch answer, preserving their order.
pub fn convert_to_fetch<T>(values: Vec<Result<T, ApiError>>) -> (r: Fetch<T>)
    ensures
        r.entries == values,
        r.stats.downloaded == 0 && r.stats.uploaded == 0 && r.stats.requests == 0,
{
    Fetch { entries: values, stats: Stats::default() }
}

/// Wraps a list of successfully produced items into the batch answer: one
/// `Ok` per item, in order.
pub fn fetch_all_ok<T>(items: Vec<T>) -> (r: Fetch<T>)
    ensures
        r.entries@.len() == items@.len(),
        forall|i: int| 0 <= i < items@.len() ==> #[trigger] r.entries@[i] == Ok::<T, ApiError>(
            items@[i],
        ),
        r.stats.downloaded == 0 && r.stats.uploaded == 0 && r.stats.requests == 0,
{
    let ghost items0 = items@;
    let mut items = items;
    let mut values: Vec<Result<T, ApiError>> = Vec::new();
    while items.len() > 0
        invariant
            values@.len() + items@.len() == items0.len(),
            items@ == items0.skip(values@.len() as int),
            forall|j: int| 0 <= j < values@.len() ==> #[trigger] values@[j] == Ok::<T, ApiError>(
                items0[j],
            ),
        decreases items@.len(),
    {
        let e = items.remove(0);
        assert(e == items0[values@.len() as int]);
        values.push(Ok(e));
        assert(items@ =~= items0.skip(values@.len() as int));
    }
    convert_to_fetch(values)
}

} // verus!
