//! Temporal operations: time ranges, the temporal index, consistency
//! checking, and the construction of temporal queries.

pub mod consistency;
pub mod dynamodb;
pub mod graph;
pub mod index;
pub mod query;
pub mod query_builder;
pub mod query_executor;
pub mod records;

use vstd::prelude::*;
use crate::time::{DateTimeUtc, MIN_UTC, MAX_UTC};

pub use crate::types::TemporalOperation;
pub use consistency::{ConsistencyChecker, ConsistencyCheckResult, ConsistencyViolation, ConsistencyViolationType};
pub use index::{TemporalIndex, TemporalIndexEntry};

verus! {

/// A kind of relationship between entities, named by text (a marker for the
/// text types that name one).
pub trait RelationshipType: Send + Sync {}

impl RelationshipType for String {}

impl<'a> RelationshipType for &'a str {}

/// A closed span of time between two instants.
#[derive(Clone, Copy, Debug, PartialEq, Eq, Structural)]
pub struct TimeRange {
    pub start: DateTimeUtc,
    pub end: DateTimeUtc,
}

/// Whether two time ranges overlap: each starts strictly before the other ends.
/// Ranges that only touch at an end point do not overlap.
pub open spec fn spec_overlaps(a: TimeRange, b: TimeRange) -> bool {
    a.start < b.end && a.end > b.start
}

/// Whether one range ends exactly where the other starts.
pub open spec fn spec_adjacent(a: TimeRange, b: TimeRange) -> bool {
    a.end == b.start || b.end == a.start
}

/// A span in nanoseconds as a 64-bit count, or `i64::MAX` when it does not fit.
pub open spec fn nanos_or_max(d: int) -> i64 {
    if i64::MIN <= d <= i64::MAX {
        d as i64
    } else {
        i64::MAX
    }
}

/// The distance in nanoseconds between two ranges: zero when they overlap or
/// touch, otherwise the span of the gap from the earlier end to the later start.
pub open spec fn spec_distance(a: TimeRange, b: TimeRange) -> i64 {
    if spec_overlaps(a, b) || spec_adjacent(a, b) {
        0
    } else if a.end < b.start {
        nanos_or_max(b.start - a.end)
    } else {
        nanos_or_max(a.start - b.end)
    }
}

/// A range whose start is not after its end.
pub open spec fn time_range_ordered(r: TimeRange) -> bool {
    r.start <= r.end
}

fn nanos_to_i64(d: i128) -> (r: i64)
    ensures
        r == nanos_or_max(d as int),
{
    if i64::MIN as i128 <= d && d <= i64::MAX as i128 {
        d as i64
    } else {
        i64::MAX
    }
}

impl TimeRange {
    /// Creates a range.
    pub fn new(start: DateTimeUtc, end: DateTimeUtc) -> (r: TimeRange)
        ensures
            r.start == start,
            r.end == end,
    {
        TimeRange { start, end }
    }

    /// The range from the earliest supported instant up to `end`.
    pub fn before(end: DateTimeUtc) -> (r: TimeRange)
        ensures
            r.start == MIN_UTC,
            r.end == end,
    {
        TimeRange { start: MIN_UTC, end }
    }

    /// The range from `start` up to the latest supported instant.
    pub fn after(start: DateTimeUtc) -> (r: TimeRange)
        ensures
            r.start == start,
            r.end == MAX_UTC,
    {
        TimeRange { start, end: MAX_UTC }
    }

    /// Whether this range overlaps `other` (touching ranges do not overlap).
    pub fn overlaps_with(&self, other: &TimeRange) -> (r: bool)
        ensures
            r == spec_overlaps(*self, *other),
    {
        self.start < other.end && self.end > other.start
    }

    /// The distance in nanoseconds between this range and `other`: zero when
    /// they overlap or are adjacent, `i64::MAX` when the gap does not fit in 64 bits.
    pub fn distance_from(&self, other: &TimeRange) -> (r: i64)
        ensures
            r == spec_distance(*self, *other),
    {
        if self.overlaps_with(other) || self.is_adjacent_to(other) {
            return 0;
        }
        let gap = if self.end < other.start {
            other.start.checked_sub(self.end)
        } else {
            self.start.checked_sub(other.end)
        };
        match gap {
            Some(d) => nanos_to_i64(d),
            None => i64::MAX,
        }
    }

    /// Whether this range ends where `other` starts, or starts where it ends.
    pub fn is_adjacent_to(&self, other: &TimeRange) -> (r: bool)
        ensures
            r == spec_adjacent(*self, *other),
    {
        self.end == other.start || other.end == self.start
    }

    /// The range as text, `[start to end]`, each instant in calendar notation.
    pub fn to_string(&self) -> (s: String)
        ensures
            s@ == "["@ + crate::time::instant_text(self.start as int) + " to "@ + crate::time::instant_text(
                self.end as int,
            ) + "]"@,
    {
        let a = crate::time::format_instant(self.start);
        let b = crate::time::format_instant(self.end);
        let mut s = String::from_str("[");
        s.append(a.as_str());
        s.append(" to ");
        s.append(b.as_str());
        s.append("]");
        s
    }
}

/// Whether two time ranges overlap.
pub fn temporal_overlap(range1: &TimeRange, range2: &TimeRange) -> (r: bool)
    ensures
        r == spec_overlaps(*range1, *range2),
{
    range1.overlaps_with(range2)
}

/// The temporal distance between two time ranges in nanoseconds.
pub fn temporal_distance(range1: &TimeRange, range2: &TimeRange) -> (r: i64)
    ensures
        r == spec_distance(*range1, *range2),
{
    range1.distance_from(range2)
}

/// Whether two time ranges are adjacent.
pub fn is_adjacent(range1: &TimeRange, range2: &TimeRange) -> (r: bool)
    ensures
        r == spec_adjacent(*range1, *range2),
{
    range1.is_adjacent_to(range2)
}

/// Overlap of time ranges is symmetric.
pub proof fn lemma_overlap_symmetric(a: TimeRange, b: TimeRange)
    ensures
        spec_overlaps(a, b) == spec_overlaps(b, a),
{
}

/// Adjacency of time ranges is symmetric.
pub proof fn lemma_adjacent_symmetric(a: TimeRange, b: TimeRange)
    ensures
        spec_adjacent(a, b) == spec_adjacent(b, a),
{
}

/// Adjacent ranges never overlap.
pub proof fn lemma_adjacent_not_overlapping(a: TimeRange, b: TimeRange)
    requires
        time_range_ordered(a),
        time_range_ordered(b),
        spec_adjacent(a, b),
    ensures
        !spec_overlaps(a, b),
{
}

/// A range overlaps itself exactly when it spans more than one instant.
pub proof fn lemma_overlaps_itself(a: TimeRange)
    ensures
        spec_overlaps(a, a) == (a.start < a.end),
{
}

/// The distance between ordered ranges is never negative, and is zero exactly
/// when they overlap or touch.
pub proof fn lemma_distance_zero_iff_touching(a: TimeRange, b: TimeRange)
    requires
        time_range_ordered(a),
        time_range_ordered(b),
    ensures
        spec_distance(a, b) >= 0,
        spec_distance(a, b) == 0 <==> spec_overlaps(a, b) || spec_adjacent(a, b),
{
}

/// The distance between ordered ranges does not depend on their order.
pub proof fn lemma_distance_symmetric(a: TimeRange, b: TimeRange)
    requires
        time_range_ordered(a),
        time_range_ordered(b),
    ensures
        spec_distance(a, b) == spec_distance(b, a),
{
}

} // verus!
