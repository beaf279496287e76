//! What a run shows of its output: the leading elements and the length.

use vstd::prelude::*;

verus! {

/// Number of leading elements that a report shows.
pub const PREVIEW_LEN: usize = 5;

/// The part of an output vector that is shown.
#[derive(Debug)]
pub struct Report {
    /// The leading elements, in order.
    pub head: Vec<u32>,
    /// Length of the whole vector.
    pub len: usize,
}

/// The leading elements of `values` that a report shows: the first
/// `PREVIEW_LEN`, or all of them where there are fewer.
pub open spec fn preview_of(values: Seq<u32>) -> Seq<u32> {
    if values.len() <= PREVIEW_LEN {
        values
    } else {
        values.take(PREVIEW_LEN as int)
    }
}

/// The report on an output vector.
pub fn summarize(values: &[u32]) -> (report: Report)
    ensures
        report.head@ == preview_of(values@),
        report.len == values@.len(),
{
    let len: usize = values.len();
    let shown: usize = if len <= PREVIEW_LEN {
        len
    } else {
        PREVIEW_LEN
    };
    let mut head: Vec<u32> = Vec::new();
    let mut i: usize = 0;
    while i < shown
        invariant
            i <= shown <= len,
            len == values@.len(),
            head@ == values@.take(i as int),
        decreases shown - i,
    {
        head.push(values[i]);
        i = i + 1;
        assert(head@ =~= values@.take(i as int));
    }
    assert(values@.take(len as int) =~= values@);
    Report { head, len }
}

} // verus!
