//! Consistency checking of temporal versions: overlapping current versions,
//! gaps in an entity's coverage, and malformed time bounds.

use vstd::prelude::*;
use crate::error::Error;
use crate::seqs::{lemma_filter_prefix_step, lemma_filter_full_prefix};
use crate::text::concat2;
use crate::time::{DateTimeUtc, format_instant, instant_text};
use crate::types::{EntityId, EntityIdModel, uuid_text, uuid_to_string};
use super::index::{
    TemporalIndexEntry, current, current_pred, sort_by_start, insert_entry_by_start, sorted_by_start,
    lemma_sort_by_start_sorted, lemma_filter_membership,
};

verus! {

/// Types of consistency violations.
#[derive(Clone, Copy, Debug, PartialEq, Eq, Structural)]
pub enum ConsistencyViolationType {
    /// Temporal overlap between entries.
    TemporalOverlap,
    /// Gap in temporal coverage.
    TemporalGap,
    /// Invalid temporal range.
    InvalidRange,
    /// Missing required data.
    MissingData,
    /// Inconsistent transaction time.
    TransactionTimeInconsistency,
}

/// A consistency violation.
#[derive(Debug)]
pub struct ConsistencyViolation {
    /// Type of violation.
    pub violation_type: ConsistencyViolationType,
    /// Description of the violation.
    pub description: String,
    /// Entity ID involved.
    pub entity_id: EntityId,
    /// Timestamp when the violation occurred.
    pub timestamp: DateTimeUtc,
}

/// The content of a violation.
pub ghost struct ViolationModel {
    pub violation_type: ConsistencyViolationType,
    pub description: Seq<char>,
    pub entity_id: EntityIdModel,
    pub timestamp: int,
}

impl View for ConsistencyViolation {
    type V = ViolationModel;

    open spec fn view(&self) -> ViolationModel {
        ViolationModel {
            violation_type: self.violation_type,
            description: self.description@,
            entity_id: self.entity_id@,
            timestamp: self.timestamp as int,
        }
    }
}

/// The outcome of a consistency check.
#[derive(Debug)]
pub struct ConsistencyCheckResult {
    /// Whether the check passed.
    pub passed: bool,
    /// Violations found.
    pub violations: Vec<ConsistencyViolation>,
}

/// The contents of a list of violations.
pub open spec fn violation_models(v: Seq<ConsistencyViolation>) -> Seq<ViolationModel> {
    v.map_values(|x: ConsistencyViolation| x@)
}

// ---------------------------------------------------------------------------
// What the check reports
// ---------------------------------------------------------------------------

/// Whether entries `a` and `b` are current versions of one entity whose valid
/// times meet.
pub open spec fn overlapping_versions(a: TemporalIndexEntry, b: TemporalIndexEntry) -> bool {
    a.entity_id@ == b.entity_id@ && current(a) && current(b) && a.valid_time_start
        <= b.valid_time_end && a.valid_time_end >= b.valid_time_start
}

/// The report of an overlap between versions `a` and `b`.
pub open spec fn overlap_violation(a: TemporalIndexEntry, b: TemporalIndexEntry) -> ViolationModel {
    ViolationModel {
        violation_type: ConsistencyViolationType::TemporalOverlap,
        description: "Temporal overlap between versions "@ + uuid_text(a.version_id) + " and "@
            + uuid_text(b.version_id),
        entity_id: a.entity_id@,
        timestamp: a.valid_time_start as int,
    }
}

/// Overlap reports for entry `i` against entries `i + 1 .. j`.
pub open spec fn overlap_row(s: Seq<TemporalIndexEntry>, i: int, j: int) -> Seq<ViolationModel>
    decreases j - i,
{
    if j <= i + 1 {
        Seq::empty()
    } else if overlapping_versions(s[i], s[j - 1]) {
        overlap_row(s, i, j - 1).push(overlap_violation(s[i], s[j - 1]))
    } else {
        overlap_row(s, i, j - 1)
    }
}

/// Overlap reports for the pairs whose first entry is among the first `i`.
pub open spec fn overlap_prefix(s: Seq<TemporalIndexEntry>, i: int) -> Seq<ViolationModel>
    decreases i,
{
    if i <= 0 {
        Seq::empty()
    } else {
        overlap_prefix(s, i - 1) + overlap_row(s, i - 1, s.len() as int)
    }
}

/// Every pair of overlapping current versions, in order of the first entry
/// and then of the second.
pub open spec fn overlap_violations(s: Seq<TemporalIndexEntry>) -> Seq<ViolationModel> {
    overlap_prefix(s, s.len() as int)
}

/// The entities of the current versions, each once, in order of first appearance.
pub open spec fn first_seen_entities(s: Seq<TemporalIndexEntry>) -> Seq<EntityIdModel>
    decreases s.len(),
{
    if s.len() == 0 {
        Seq::empty()
    } else {
        let prev = first_seen_entities(s.drop_last());
        if current(s.last()) && !prev.contains(s.last().entity_id@) {
            prev.push(s.last().entity_id@)
        } else {
            prev
        }
    }
}

/// The report of a gap between an end and the next start.
pub open spec fn gap_violation(end: int, next_start: int, id: EntityIdModel) -> ViolationModel {
    ViolationModel {
        violation_type: ConsistencyViolationType::TemporalGap,
        description: "Temporal gap between "@ + instant_text(end) + " and "@ + instant_text(
            next_start,
        ),
        entity_id: id,
        timestamp: end,
    }
}

/// Gap reports between consecutive versions of a sorted list.
pub open spec fn window_gaps(s: Seq<TemporalIndexEntry>, id: EntityIdModel) -> Seq<ViolationModel>
    decreases s.len(),
{
    if s.len() < 2 {
        Seq::empty()
    } else if s[s.len() - 2].valid_time_end < s[s.len() - 1].valid_time_start {
        window_gaps(s.drop_last(), id).push(
            gap_violation(
                s[s.len() - 2].valid_time_end as int,
                s[s.len() - 1].valid_time_start as int,
                id,
            ),
        )
    } else {
        window_gaps(s.drop_last(), id)
    }
}

/// Gap reports for each of the given entities in turn, each over its current
/// versions ordered by valid-time start.
pub open spec fn gaps_for(ids: Seq<EntityIdModel>, s: Seq<TemporalIndexEntry>) -> Seq<ViolationModel>
    decreases ids.len(),
{
    if ids.len() == 0 {
        Seq::empty()
    } else {
        gaps_for(ids.drop_last(), s) + window_gaps(
            sort_by_start(s.filter(current_pred(ids.last()))),
            ids.last(),
        )
    }
}

/// Every gap in the coverage of each entity, entity by entity in order of
/// first appearance.
pub open spec fn gap_violations(s: Seq<TemporalIndexEntry>) -> Seq<ViolationModel> {
    gaps_for(first_seen_entities(s), s)
}

/// The reports about one entry's own bounds: a transaction end not after its
/// start, then a valid end not after its start.
pub open spec fn bound_violations_of(e: TemporalIndexEntry) -> Seq<ViolationModel> {
    let tx = match e.transaction_time_end {
        Some(end) if end <= e.transaction_time_start => seq![
            ViolationModel {
                violation_type: ConsistencyViolationType::TransactionTimeInconsistency,
                description: "Transaction end time is before or equal to start time"@,
                entity_id: e.entity_id@,
                timestamp: e.transaction_time_start as int,
            },
        ],
        _ => Seq::empty(),
    };
    let valid = if e.valid_time_end <= e.valid_time_start {
        seq![
            ViolationModel {
                violation_type: ConsistencyViolationType::InvalidRange,
                description: "Valid time end is before or equal to start time"@,
                entity_id: e.entity_id@,
                timestamp: e.valid_time_start as int,
            },
        ]
    } else {
        Seq::empty()
    };
    tx + valid
}

/// The bound reports of every entry, in order.
pub open spec fn bound_violations(s: Seq<TemporalIndexEntry>) -> Seq<ViolationModel>
    decreases s.len(),
{
    if s.len() == 0 {
        Seq::empty()
    } else {
        bound_violations(s.drop_last()) + bound_violations_of(s.last())
    }
}

/// Everything the check reports: overlaps, then gaps, then bad bounds.
pub open spec fn all_violations(s: Seq<TemporalIndexEntry>) -> Seq<ViolationModel> {
    overlap_violations(s) + gap_violations(s) + bound_violations(s)
}

// ---------------------------------------------------------------------------
// The checker
// ---------------------------------------------------------------------------

/// Consistency checker for temporal operations; it also remembers the ranges
/// it has validated for each entity.
#[derive(Debug)]
pub struct ConsistencyChecker {
    validated_ranges: Vec<(EntityId, DateTimeUtc, DateTimeUtc)>,
}

/// Selects validated ranges of entity `id`.
pub open spec fn range_of_pred(id: EntityIdModel) -> spec_fn((EntityId, DateTimeUtc, DateTimeUtc)) -> bool {
    |x: (EntityId, DateTimeUtc, DateTimeUtc)| x.0@ == id
}

/// Selects validated ranges of entities other than `id`.
pub open spec fn range_not_of_pred(id: EntityIdModel) -> spec_fn((EntityId, DateTimeUtc, DateTimeUtc)) -> bool {
    |x: (EntityId, DateTimeUtc, DateTimeUtc)| x.0@ != id
}

/// The validated ranges of entity `id`.
pub open spec fn ranges_of(v: Seq<(EntityId, DateTimeUtc, DateTimeUtc)>, id: EntityIdModel) -> Seq<
    (EntityId, DateTimeUtc, DateTimeUtc),
> {
    v.filter(range_of_pred(id))
}

/// Whether `[start, end]` meets the validated range `x` (ends inclusive).
pub open spec fn meets(x: (EntityId, DateTimeUtc, DateTimeUtc), start: int, end: int) -> bool {
    start <= x.2 && end >= x.1
}

/// Whether every validated range is non-empty and no two validated ranges of
/// one entity meet.
pub open spec fn ranges_apart(v: Seq<(EntityId, DateTimeUtc, DateTimeUtc)>) -> bool {
    &&& forall|i: int| 0 <= i < v.len() ==> (#[trigger] v[i]).1 < v[i].2
    &&& forall|i: int, j: int|
        0 <= i < j < v.len() && v[i].0@ == v[j].0@ ==> !meets(
            #[trigger] v[i],
            (#[trigger] v[j]).1 as int,
            v[j].2 as int,
        )
}

impl ConsistencyChecker {
    #[verifier::type_invariant]
    closed spec fn ranges_kept_apart(self) -> bool {
        ranges_apart(self.validated_ranges@)
    }
}

impl View for ConsistencyChecker {
    type V = Seq<(EntityId, DateTimeUtc, DateTimeUtc)>;

    closed spec fn view(&self) -> Seq<(EntityId, DateTimeUtc, DateTimeUtc)> {
        self.validated_ranges@
    }
}

fn push_violation(
    out: &mut Vec<ConsistencyViolation>,
    violation_type: ConsistencyViolationType,
    description: String,
    entity_id: EntityId,
    timestamp: DateTimeUtc,
)
    ensures
        violation_models(final(out)@) == violation_models(old(out)@).push(
            ViolationModel {
                violation_type,
                description: description@,
                entity_id: entity_id@,
                timestamp: timestamp as int,
            },
        ),
{
    out.push(ConsistencyViolation { violation_type, description, entity_id, timestamp });
    proof {
        assert(violation_models(out@) =~= violation_models(old(out)@).push(
            ViolationModel {
                violation_type,
                description: description@,
                entity_id: entity_id@,
                timestamp: timestamp as int,
            },
        ));
    }
}

fn overlap_description(a: u128, b: u128) -> (s: String)
    ensures
        s@ == "Temporal overlap between versions "@ + uuid_text(a) + " and "@ + uuid_text(b),
{
    let mut s = String::from_str("Temporal overlap between versions ");
    let ta = uuid_to_string(a);
    s.append(ta.as_str());
    s.append(" and ");
    let tb = uuid_to_string(b);
    s.append(tb.as_str());
    s
}

fn gap_description(end: DateTimeUtc, next_start: DateTimeUtc) -> (s: String)
    ensures
        s@ == "Temporal gap between "@ + instant_text(end as int) + " and "@ + instant_text(
            next_start as int,
        ),
{
    let mut s = String::from_str("Temporal gap between ");
    let a = format_instant(end);
    s.append(a.as_str());
    s.append(" and ");
    let b = format_instant(next_start);
    s.append(b.as_str());
    s
}

fn check_temporal_overlaps(entries: &[TemporalIndexEntry], out: &mut Vec<ConsistencyViolation>)
    ensures
        violation_models(final(out)@) == violation_models(old(out)@) + overlap_violations(entries@),
{
    let n = entries.len();
    let ghost s = entries@;
    let mut i: usize = 0;
    while i < n
        invariant
            n == s.len(),
            s == entries@,
            0 <= i <= n,
            violation_models(out@) == violation_models(old(out)@) + overlap_prefix(s, i as int),
        decreases n - i,
    {
        let ghost base = violation_models(out@);
        let mut j: usize = i + 1;
        while j < n
            invariant
                n == s.len(),
                s == entries@,
                i < n,
                i + 1 <= j <= n,
                violation_models(out@) == base + overlap_row(s, i as int, j as int),
            decreases n - j,
        {
            let a = &entries[i];
            let b = &entries[j];
            if a.entity_id.same_as(&b.entity_id) && a.is_current() && b.is_current()
                && a.valid_time_start <= b.valid_time_end && a.valid_time_end >= b.valid_time_start {
                let d = overlap_description(a.version_id, b.version_id);
                push_violation(
                    out,
                    ConsistencyViolationType::TemporalOverlap,
                    d,
                    a.entity_id.clone(),
                    a.valid_time_start,
                );
                proof {
                    assert(base + overlap_row(s, i as int, j + 1) =~= (base + overlap_row(
                        s,
                        i as int,
                        j as int,
                    )).push(overlap_violation(s[i as int], s[j as int])));
                }
            }
            j = j + 1;
        }
        proof {
            assert(overlap_prefix(s, i + 1) == overlap_prefix(s, i as int) + overlap_row(
                s,
                i as int,
                n as int,
            ));
            assert(violation_models(old(out)@) + overlap_prefix(s, i + 1) =~= violation_models(
                old(out)@,
            ) + overlap_prefix(s, i as int) + overlap_row(s, i as int, n as int));
        }
        i = i + 1;
    }
}

fn entity_seen(keys: &Vec<EntityId>, id: &EntityId) -> (r: bool)
    ensures
        r == keys@.map_values(|k: EntityId| k@).contains(id@),
{
    let ghost m = keys@.map_values(|k: EntityId| k@);
    let mut i: usize = 0;
    while i < keys.len()
        invariant
            0 <= i <= keys@.len(),
            m == keys@.map_values(|k: EntityId| k@),
            forall|k: int| 0 <= k < i ==> m[k] != id@,
        decreases keys@.len() - i,
    {
        if keys[i].same_as(id) {
            assert(m[i as int] == id@);
            return true;
        }
        i = i + 1;
    }
    false
}

fn check_temporal_gaps(entries: &[TemporalIndexEntry], out: &mut Vec<ConsistencyViolation>)
    ensures
        violation_models(final(out)@) == violation_models(old(out)@) + gap_violations(entries@),
{
    let n = entries.len();
    let ghost s = entries@;
    // The entities of the current versions, in order of first appearance.
    let mut keys: Vec<EntityId> = Vec::new();
    let mut i: usize = 0;
    while i < n
        invariant
            n == s.len(),
            s == entries@,
            0 <= i <= n,
            keys@.map_values(|k: EntityId| k@) == first_seen_entities(s.subrange(0, i as int)),
        decreases n - i,
    {
        proof {
            assert(s.subrange(0, i + 1).drop_last() =~= s.subrange(0, i as int));
        }
        let e = &entries[i];
        if e.is_current() && !entity_seen(&keys, &e.entity_id) {
            let ghost before = keys@;
            keys.push(e.entity_id.clone());
            proof {
                assert(keys@.map_values(|k: EntityId| k@) =~= before.map_values(|k: EntityId| k@).push(
                    e.entity_id@,
                ));
            }
        }
        i = i + 1;
    }
    proof {
        assert(s.subrange(0, n as int) =~= s);
    }
    let ghost ids = keys@.map_values(|k: EntityId| k@);
    let ghost base = violation_models(out@);
    let mut k: usize = 0;
    while k < keys.len()
        invariant
            n == s.len(),
            s == entries@,
            ids == keys@.map_values(|k: EntityId| k@),
            ids == first_seen_entities(s),
            0 <= k <= keys@.len(),
            base == violation_models(old(out)@),
            violation_models(out@) == base + gaps_for(ids.subrange(0, k as int), s),
        decreases keys@.len() - k,
    {
        let key = &keys[k];
        let ghost p = current_pred(key@);
        // The current versions of this entity, ordered by valid-time start.
        let mut sorted: Vec<TemporalIndexEntry> = Vec::new();
        let mut i: usize = 0;
        while i < n
            invariant
                n == s.len(),
                s == entries@,
                0 <= i <= n,
                p == current_pred(key@),
                sorted@ == sort_by_start(s.subrange(0, i as int).filter(p)),
            decreases n - i,
        {
            proof {
                lemma_filter_prefix_step(s, i as int, p);
            }
            let e = &entries[i];
            if e.entity_id.same_as(key) && e.is_current() {
                let ghost before = s.subrange(0, i as int).filter(p);
                insert_entry_by_start(&mut sorted, e.clone());
                proof {
                    assert(before.push(s[i as int]).drop_last() =~= before);
                }
            }
            i = i + 1;
        }
        proof {
            lemma_filter_full_prefix(s, p);
        }
        let ghost sorted_all = sorted@;
        let ghost mid = violation_models(out@);
        let mut w: usize = 1;
        while w < sorted.len()
            invariant
                sorted@ == sorted_all,
                1 <= w <= sorted@.len() || sorted@.len() == 0,
                sorted@.len() > 0 ==> violation_models(out@) == mid + window_gaps(
                    sorted_all.subrange(0, w as int),
                    key@,
                ),
                sorted@.len() == 0 ==> violation_models(out@) == mid,
            decreases sorted@.len() - w,
        {
            proof {
                assert(sorted_all.subrange(0, w + 1).drop_last() =~= sorted_all.subrange(0, w as int));
            }
            let prev_end = sorted[w - 1].valid_time_end;
            let next_start = sorted[w].valid_time_start;
            if prev_end < next_start {
                let d = gap_description(prev_end, next_start);
                push_violation(out, ConsistencyViolationType::TemporalGap, d, key.clone(), prev_end);
                proof {
                    assert(mid + window_gaps(sorted_all.subrange(0, w + 1), key@) =~= (mid
                        + window_gaps(sorted_all.subrange(0, w as int), key@)).push(
                        gap_violation(prev_end as int, next_start as int, key@),
                    ));
                }
            }
            w = w + 1;
        }
        proof {
            if sorted_all.len() == 0 {
                assert(window_gaps(sorted_all, key@) =~= Seq::<ViolationModel>::empty());
            } else {
                assert(sorted_all.subrange(0, sorted_all.len() as int) =~= sorted_all);
            }
            assert(ids.subrange(0, k + 1).drop_last() =~= ids.subrange(0, k as int));
            assert(ids.subrange(0, k + 1).last() == key@);
            assert(base + gaps_for(ids.subrange(0, k + 1), s) =~= base + gaps_for(
                ids.subrange(0, k as int),
                s,
            ) + window_gaps(sorted_all, key@));
        }
        k = k + 1;
    }
    proof {
        assert(ids.subrange(0, keys@.len() as int) =~= ids);
    }
}

fn check_transaction_time_consistency(
    entries: &[TemporalIndexEntry],
    out: &mut Vec<ConsistencyViolation>,
)
    ensures
        violation_models(final(out)@) == violation_models(old(out)@) + bound_violations(entries@),
{
    let n = entries.len();
    let ghost s = entries@;
    let mut i: usize = 0;
    while i < n
        invariant
            n == s.len(),
            s == entries@,
            0 <= i <= n,
            violation_models(out@) == violation_models(old(out)@) + bound_violations(
                s.subrange(0, i as int),
            ),
        decreases n - i,
    {
        proof {
            assert(s.subrange(0, i + 1).drop_last() =~= s.subrange(0, i as int));
        }
        let ghost before = violation_models(out@);
        let e = &entries[i];
        if let Some(end_time) = e.transaction_time_end {
            if end_time <= e.transaction_time_start {
                push_violation(
                    out,
                    ConsistencyViolationType::TransactionTimeInconsistency,
                    String::from_str("Transaction end time is before or equal to start time"),
                    e.entity_id.clone(),
                    e.transaction_time_start,
                );
            }
        }
        let ghost mid = violation_models(out@);
        if e.valid_time_end <= e.valid_time_start {
            push_violation(
                out,
                ConsistencyViolationType::InvalidRange,
                String::from_str("Valid time end is before or equal to start time"),
                e.entity_id.clone(),
                e.valid_time_start,
            );
        }
        proof {
            assert(violation_models(out@) =~= before + bound_violations_of(s[i as int]));
        }
        i = i + 1;
    }
    proof {
        assert(s.subrange(0, n as int) =~= s);
    }
}

impl ConsistencyChecker {
    /// A checker that has validated no ranges.
    pub fn new() -> (c: ConsistencyChecker)
        ensures
            c@.len() == 0,
            ranges_apart(c@),
    {
        ConsistencyChecker { validated_ranges: Vec::new() }
    }

    /// Checks a set of versions: overlapping current versions of an entity,
    /// gaps between consecutive current versions of an entity, transaction
    /// ends not after their starts, and valid ends not after their starts.
    /// The check passes exactly when nothing is reported.
    pub fn check_consistency(&self, entries: &[TemporalIndexEntry]) -> (r: Result<
        ConsistencyCheckResult,
        Error,
    >)
        ensures
            r is Ok,
            violation_models(r.unwrap().violations@) == all_violations(entries@),
            r.unwrap().passed == (all_violations(entries@).len() == 0),
    {
        let mut violations: Vec<ConsistencyViolation> = Vec::new();
        proof {
            assert(violation_models(violations@) =~= Seq::<ViolationModel>::empty());
        }
        check_temporal_overlaps(entries, &mut violations);
        check_temporal_gaps(entries, &mut violations);
        check_transaction_time_consistency(entries, &mut violations);
        proof {
            assert(violation_models(violations@) =~= all_violations(entries@));
            assert(violation_models(violations@).len() == violations@.len());
        }
        let passed = violations.len() == 0;
        Ok(ConsistencyCheckResult { passed, violations })
    }

    /// Validates `[start, end]` for `entity_id` and remembers it.  Refused with
    /// `InvalidTemporalRange` when `start` is not before `end`, and with
    /// `TemporalOverlap` when it meets a range already validated for the entity.
    pub fn validate_range(&mut self, entity_id: &EntityId, start: DateTimeUtc, end: DateTimeUtc) -> (r:
        Result<(), Error>)
        ensures
            start >= end ==> r is Err && r->Err_0 is InvalidTemporalRange
                && r->Err_0->InvalidTemporalRange_0@ == "Start time must be before end time"@,
            start < end ==> (r is Err <==> exists|i: int|
                0 <= i < ranges_of(old(self)@, entity_id@).len() && meets(
                    #[trigger] ranges_of(old(self)@, entity_id@)[i],
                    start as int,
                    end as int,
                )),
            start < end && r is Err ==> r->Err_0 is TemporalOverlap
                && r->Err_0->TemporalOverlap_0@ == "Range overlaps with previously validated range"@,
            r is Err ==> final(self)@ == old(self)@,
            ranges_apart(final(self)@),
            r is Ok ==> final(self)@ == old(self)@.push((*entity_id, start, end)),
    {
        proof {
            use_type_invariant(&*self);
        }
        if start >= end {
            proof {
                reveal_strlit("Start time must be before end time");
            }
            return Err(Error::InvalidTemporalRange(String::from_str("Start time must be before end time")));
        }
        let ghost p = range_of_pred(entity_id@);
        let mut i: usize = 0;
        while i < self.validated_ranges.len()
            invariant
                0 <= i <= self.validated_ranges@.len(),
                self.validated_ranges@ == old(self).validated_ranges@,
                ranges_apart(self.validated_ranges@),
                p == range_of_pred(entity_id@),
                start < end,
                forall|k: int|
                    0 <= k < self.validated_ranges@.subrange(0, i as int).filter(p).len() ==> !meets(
                        #[trigger] self.validated_ranges@.subrange(0, i as int).filter(p)[k],
                        start as int,
                        end as int,
                    ),
            decreases self.validated_ranges@.len() - i,
        {
            proof {
                lemma_filter_prefix_step(self.validated_ranges@, i as int, p);
            }
            let x = &self.validated_ranges[i];
            if x.0.same_as(entity_id) && start <= x.2 && end >= x.1 {
                proof {
                    broadcast use vstd::seq_lib::group_filter_ensures;
                    assert(p(self.validated_ranges@[i as int]));
                    assert(self.validated_ranges@.filter(p).contains(self.validated_ranges@[i as int]));
                    let all = self.validated_ranges@.filter(p);
                    let k = choose|k: int| 0 <= k < all.len() && all[k] == self.validated_ranges@[i as int];
                    assert(all == ranges_of(old(self)@, entity_id@));
                    assert(meets(ranges_of(old(self)@, entity_id@)[k], start as int, end as int));
                    reveal_strlit("Range overlaps with previously validated range");
                }
                return Err(Error::TemporalOverlap(String::from_str("Range overlaps with previously validated range")));
            }
            i = i + 1;
        }
        proof {
            lemma_filter_full_prefix(self.validated_ranges@, p);
        }
        let mut ranges: Vec<(EntityId, DateTimeUtc, DateTimeUtc)> = Vec::new();
        std::mem::swap(&mut ranges, &mut self.validated_ranges);
        let ghost before = ranges@;
        ranges.push((entity_id.clone(), start, end));
        proof {
            broadcast use vstd::seq_lib::group_filter_ensures;
            let all = before.filter(p);
            assert forall|i: int, j: int|
                0 <= i < j < ranges@.len() && ranges@[i].0@ == ranges@[j].0@ implies !meets(
                    #[trigger] ranges@[i],
                    (#[trigger] ranges@[j]).1 as int,
                    ranges@[j].2 as int,
                ) by {
                if j == before.len() {
                    assert(p(before[i]));
                    assert(all.contains(before[i]));
                    let k = choose|k: int| 0 <= k < all.len() && all[k] == before[i];
                    assert(!meets(all[k], start as int, end as int));
                } else {
                    assert(ranges@[i] == before[i]);
                    assert(ranges@[j] == before[j]);
                }
            }
            assert forall|i: int| 0 <= i < ranges@.len() implies (#[trigger] ranges@[i]).1
                < ranges@[i].2 by {
                if i < before.len() {
                    assert(ranges@[i] == before[i]);
                }
            }
        }
        self.validated_ranges = ranges;
        Ok(())
    }

    /// Forgets the ranges validated for `entity_id`.
    pub fn clear_validated_ranges(&mut self, entity_id: &EntityId)
        ensures
            final(self)@ == old(self)@.filter(range_not_of_pred(entity_id@)),
            ranges_apart(final(self)@),
    {
        proof {
            use_type_invariant(&*self);
        }
        let ghost p = range_not_of_pred(entity_id@);
        let mut kept: Vec<(EntityId, DateTimeUtc, DateTimeUtc)> = Vec::new();
        let mut i: usize = 0;
        while i < self.validated_ranges.len()
            invariant
                0 <= i <= self.validated_ranges@.len(),
                self.validated_ranges@ == old(self).validated_ranges@,
                p == range_not_of_pred(entity_id@),
                kept@ == self.validated_ranges@.subrange(0, i as int).filter(p),
            decreases self.validated_ranges@.len() - i,
        {
            proof {
                lemma_filter_prefix_step(self.validated_ranges@, i as int, p);
            }
            let x = &self.validated_ranges[i];
            if !x.0.same_as(entity_id) {
                kept.push((x.0.clone(), x.1, x.2));
            }
            i = i + 1;
        }
        proof {
            lemma_filter_full_prefix(self.validated_ranges@, p);
            lemma_filter_keeps_apart(self.validated_ranges@, p);
        }
        self.validated_ranges = kept;
    }
}

/// Keeping some of the validated ranges keeps them apart.
proof fn lemma_filter_keeps_apart(
    v: Seq<(EntityId, DateTimeUtc, DateTimeUtc)>,
    p: spec_fn((EntityId, DateTimeUtc, DateTimeUtc)) -> bool,
)
    requires
        ranges_apart(v),
    ensures
        ranges_apart(v.filter(p)),
    decreases v.len(),
{
    reveal(Seq::filter);
    if v.len() > 0 {
        let w = v.drop_last();
        assert forall|i: int, j: int|
            0 <= i < j < w.len() && w[i].0@ == w[j].0@ implies !meets(
                #[trigger] w[i],
                (#[trigger] w[j]).1 as int,
                w[j].2 as int,
            ) by {
            assert(w[i] == v[i] && w[j] == v[j]);
        }
        assert forall|i: int| 0 <= i < w.len() implies (#[trigger] w[i]).1 < w[i].2 by {
            assert(w[i] == v[i]);
        }
        lemma_filter_keeps_apart(w, p);
        if p(v.last()) {
            broadcast use vstd::seq_lib::group_filter_ensures;
            let f = w.filter(p);
            let g = f.push(v.last());
            assert(v.filter(p) == g);
            assert forall|i: int, j: int|
                0 <= i < j < g.len() && g[i].0@ == g[j].0@ implies !meets(
                    #[trigger] g[i],
                    (#[trigger] g[j]).1 as int,
                    g[j].2 as int,
                ) by {
                if j == f.len() {
                    assert(f.contains(f[i]));
                    w.lemma_filter_contains_rev(p, f[i]);
                    let m = choose|m: int| 0 <= m < w.len() && w[m] == f[i];
                    assert(v[m] == f[i]);
                    assert(v[v.len() - 1] == g[j]);
                } else {
                    assert(g[i] == f[i] && g[j] == f[j]);
                }
            }
            assert forall|i: int| 0 <= i < g.len() implies (#[trigger] g[i]).1 < g[i].2 by {
                if i < f.len() {
                    assert(g[i] == f[i]);
                } else {
                    assert(g[i] == v[v.len() - 1]);
                }
            }
        }
    }
}

/// Once `[start, end]` is validated for an entity, every later range of that
/// entity that meets it is refused.
pub proof fn lemma_validated_range_refuses_meeting(
    v: Seq<(EntityId, DateTimeUtc, DateTimeUtc)>,
    id: EntityId,
    start: DateTimeUtc,
    end: DateTimeUtc,
    later_start: DateTimeUtc,
    later_end: DateTimeUtc,
)
    requires
        later_start <= end,
        later_end >= start,
    ensures
        exists|i: int|
            0 <= i < ranges_of(v.push((id, start, end)), id@).len() && meets(
                #[trigger] ranges_of(v.push((id, start, end)), id@)[i],
                later_start as int,
                later_end as int,
            ),
{
    crate::seqs::lemma_filter_push(v, (id, start, end), range_of_pred(id@));
    let r = ranges_of(v.push((id, start, end)), id@);
    assert(r[r.len() - 1] == (id, start, end));
    assert(meets(r[r.len() - 1], later_start as int, later_end as int));
}

/// Validating a range for one entity leaves the ranges of every other entity
/// as they were.
pub proof fn lemma_validation_is_per_entity(
    v: Seq<(EntityId, DateTimeUtc, DateTimeUtc)>,
    id: EntityId,
    start: DateTimeUtc,
    end: DateTimeUtc,
    other: EntityIdModel,
)
    requires
        other != id@,
    ensures
        ranges_of(v.push((id, start, end)), other) == ranges_of(v, other),
{
    crate::seqs::lemma_filter_push(v, (id, start, end), range_of_pred(other));
}

/// After its ranges are cleared, an entity has no validated range left, so any
/// range with its start before its end is accepted for it.
pub proof fn lemma_cleared_entity_has_no_ranges(
    v: Seq<(EntityId, DateTimeUtc, DateTimeUtc)>,
    id: EntityIdModel,
)
    ensures
        ranges_of(v.filter(range_not_of_pred(id)), id).len() == 0,
        forall|other: EntityIdModel|
            other != id ==> #[trigger] ranges_of(v.filter(range_not_of_pred(id)), other)
                == ranges_of(v, other),
{
    broadcast use vstd::seq_lib::group_filter_ensures;
    let c = v.filter(range_not_of_pred(id));
    let r = ranges_of(c, id);
    if r.len() > 0 {
        assert(r.contains(r[0]));
        c.lemma_filter_contains_rev(range_of_pred(id), r[0]);
        let k = choose|k: int| 0 <= k < c.len() && c[k] == r[0];
        assert(range_not_of_pred(id)(c[k]));
        assert(range_of_pred(id)(r[0]));
        assert(false);
    }
    assert forall|other: EntityIdModel| other != id implies #[trigger] ranges_of(c, other)
        == ranges_of(v, other) by {
        lemma_filter_filter_other(v, id, other);
    }
}

/// Dropping the ranges of `id` does not change those of another entity.
proof fn lemma_filter_filter_other(
    v: Seq<(EntityId, DateTimeUtc, DateTimeUtc)>,
    id: EntityIdModel,
    other: EntityIdModel,
)
    requires
        other != id,
    ensures
        ranges_of(v.filter(range_not_of_pred(id)), other) == ranges_of(v, other),
    decreases v.len(),
{
    reveal(Seq::filter);
    if v.len() > 0 {
        lemma_filter_filter_other(v.drop_last(), id, other);
        let x = v.last();
        if x.0@ != id {
            crate::seqs::lemma_filter_push(
                v.drop_last().filter(range_not_of_pred(id)),
                x,
                range_of_pred(other),
            );
        }
    }
}

// ---------------------------------------------------------------------------
// What the gap report says
// ---------------------------------------------------------------------------

/// Whether `a` and `b` are current versions of entity `id` in `s` that follow
/// one another in start order: `a` starts no later than `b`, and no other
/// current version of the entity starts strictly between them.
pub open spec fn next_in_start_order(s: Seq<TemporalIndexEntry>, id: EntityIdModel, a: TemporalIndexEntry, b: TemporalIndexEntry) -> bool {
    &&& s.contains(a) && a.entity_id@ == id && current(a)
    &&& s.contains(b) && b.entity_id@ == id && current(b)
    &&& a.valid_time_start <= b.valid_time_start
    &&& forall|c: TemporalIndexEntry|
        #![trigger s.contains(c)]
        s.contains(c) && c.entity_id@ == id && current(c) ==> !(a.valid_time_start < c.valid_time_start
            < b.valid_time_start)
}

/// An element of a sorted sequence with multiset equal to the current
/// versions of `id` is one of them, and conversely.
proof fn lemma_sorted_members(s: Seq<TemporalIndexEntry>, id: EntityIdModel, x: TemporalIndexEntry)
    ensures
        sort_by_start(s.filter(current_pred(id))).contains(x) <==> (s.contains(x) && x.entity_id@ == id
            && current(x)),
{
    broadcast use vstd::seq_lib::group_to_multiset_ensures;
    let f = s.filter(current_pred(id));
    lemma_sort_by_start_sorted(f);
    lemma_filter_membership(s, current_pred(id), x);
    assert(sort_by_start(f).to_multiset().count(x) == f.to_multiset().count(x));
}

/// A gap between neighbours of a list is among its window gaps.
proof fn lemma_window_gap_found(w: Seq<TemporalIndexEntry>, id: EntityIdModel, k: int)
    requires
        0 <= k,
        k + 1 < w.len(),
        w[k].valid_time_end < w[k + 1].valid_time_start,
    ensures
        window_gaps(w, id).contains(gap_violation(w[k].valid_time_end as int, w[k + 1].valid_time_start as int, id)),
    decreases w.len(),
{
    let g = gap_violation(w[k].valid_time_end as int, w[k + 1].valid_time_start as int, id);
    if k + 2 == w.len() {
        assert(window_gaps(w, id).last() == g);
    } else {
        lemma_window_gap_found(w.drop_last(), id, k);
        let prev = window_gaps(w.drop_last(), id);
        let j = choose|j: int| 0 <= j < prev.len() && prev[j] == g;
        assert(window_gaps(w, id)[j] == g);
    }
}

/// Every window gap of a list lies between two neighbours of the list.
proof fn lemma_window_gap_source(w: Seq<TemporalIndexEntry>, id: EntityIdModel, v: ViolationModel)
    requires
        window_gaps(w, id).contains(v),
    ensures
        exists|k: int|
            0 <= k && k + 1 < w.len() && w[k].valid_time_end < w[k + 1].valid_time_start && v
                == #[trigger] gap_violation(w[k].valid_time_end as int, w[k + 1].valid_time_start as int, id),
    decreases w.len(),
{
    if w.len() >= 2 {
        let prev = window_gaps(w.drop_last(), id);
        let j = choose|j: int| 0 <= j < window_gaps(w, id).len() && window_gaps(w, id)[j] == v;
        if j < prev.len() {
            assert(prev[j] == v);
            lemma_window_gap_source(w.drop_last(), id, v);
            let k = choose|k: int|
                0 <= k && k + 1 < w.drop_last().len() && w.drop_last()[k].valid_time_end
                    < w.drop_last()[k + 1].valid_time_start && v == #[trigger] gap_violation(
                    w.drop_last()[k].valid_time_end as int,
                    w.drop_last()[k + 1].valid_time_start as int,
                    id,
                );
            assert(w[k] == w.drop_last()[k] && w[k + 1] == w.drop_last()[k + 1]);
        } else {
            let k = w.len() - 2;
            assert(v == gap_violation(w[k].valid_time_end as int, w[k + 1].valid_time_start as int, id));
        }
    }
}

/// Every entity of a current version is among the entities checked.
proof fn lemma_first_seen_has(s: Seq<TemporalIndexEntry>, i: int)
    requires
        0 <= i < s.len(),
        current(s[i]),
    ensures
        first_seen_entities(s).contains(s[i].entity_id@),
    decreases s.len(),
{
    let prev = first_seen_entities(s.drop_last());
    if i < s.len() - 1 {
        lemma_first_seen_has(s.drop_last(), i);
        assert(s.drop_last()[i] == s[i]);
        let j = choose|j: int| 0 <= j < prev.len() && prev[j] == s[i].entity_id@;
        if !(current(s.last()) && !prev.contains(s.last().entity_id@)) {
        } else {
            assert(first_seen_entities(s)[j] == s[i].entity_id@);
        }
    } else {
        if prev.contains(s.last().entity_id@) {
        } else {
            assert(first_seen_entities(s).last() == s[i].entity_id@);
        }
    }
}

/// The gaps reported for the entities in `ids` are those of each entity's
/// window gaps.
proof fn lemma_gaps_for_members(ids: Seq<EntityIdModel>, s: Seq<TemporalIndexEntry>, v: ViolationModel)
    ensures
        gaps_for(ids, s).contains(v) <==> exists|k: int|
            0 <= k < ids.len() && #[trigger] window_gaps(sort_by_start(s.filter(current_pred(ids[k]))), ids[k]).contains(v),
    decreases ids.len(),
{
    broadcast use vstd::seq_lib::group_seq_properties;
    if ids.len() > 0 {
        let d = ids.drop_last();
        lemma_gaps_for_members(d, s, v);
        let last_gaps = window_gaps(sort_by_start(s.filter(current_pred(ids.last()))), ids.last());
        assert(gaps_for(ids, s) == gaps_for(d, s) + last_gaps);
        if gaps_for(ids, s).contains(v) {
            if gaps_for(d, s).contains(v) {
                let k = choose|k: int|
                    0 <= k < d.len() && #[trigger] window_gaps(sort_by_start(s.filter(current_pred(d[k]))), d[k]).contains(v);
                assert(ids[k] == d[k]);
            } else {
                assert(last_gaps.contains(v));
                assert(ids[ids.len() - 1] == ids.last());
            }
        }
        if exists|k: int|
            0 <= k < ids.len() && #[trigger] window_gaps(sort_by_start(s.filter(current_pred(ids[k]))), ids[k]).contains(v) {
            let k = choose|k: int|
                0 <= k < ids.len() && #[trigger] window_gaps(sort_by_start(s.filter(current_pred(ids[k]))), ids[k]).contains(v);
            if k < d.len() {
                assert(d[k] == ids[k]);
            } else {
                assert(last_gaps.contains(v));
            }
        }
    }
}

/// Whether `a` and `b` are the only current versions of entity `id` in `s`
/// that start from `a`'s start through `b`'s.
pub open spec fn alone_between(s: Seq<TemporalIndexEntry>, id: EntityIdModel, a: TemporalIndexEntry, b: TemporalIndexEntry) -> bool {
    forall|c: TemporalIndexEntry|
        #![trigger s.contains(c)]
        s.contains(c) && c.entity_id@ == id && current(c) && c != a && c != b ==> c.valid_time_start
            < a.valid_time_start || c.valid_time_start > b.valid_time_start
}

/// Between a place of `a` and a later place of `b` in a list holding only
/// `a`s and `b`s there, some `a` is directly followed by a `b`.
proof fn lemma_switch_point(w: Seq<TemporalIndexEntry>, a: TemporalIndexEntry, b: TemporalIndexEntry, lo: int, hi: int)
    requires
        0 <= lo < hi < w.len(),
        w[lo] == a,
        w[hi] == b,
        forall|q: int| lo <= q <= hi ==> #[trigger] w[q] == a || w[q] == b,
    ensures
        exists|k: int| lo <= k < hi && w[k] == a && #[trigger] w[k + 1] == b,
    decreases hi - lo,
{
    if w[lo + 1] == b {
        assert(w[lo + 1] == b);
    } else {
        lemma_switch_point(w, a, b, lo + 1, hi);
        let k = choose|k: int| lo + 1 <= k < hi && w[k] == a && #[trigger] w[k + 1] == b;
        assert(w[k + 1] == b);
    }
}

/// Where the consistency check reports gaps, whatever order the versions
/// come in.  Each report is made between two current versions of an entity
/// that follow one another in valid-time start order, the first ending before
/// the second starts, and names the first one's end and the second one's
/// start.  Conversely, for two current versions of an entity with nothing
/// else of it starting from the first's start through the second's, where the
/// first starts and ends before the second starts, that gap is reported.
pub proof fn lemma_gaps_between_start_neighbours(s: Seq<TemporalIndexEntry>, id: EntityIdModel, a: TemporalIndexEntry, b: TemporalIndexEntry)
    ensures
        s.contains(a) && a.entity_id@ == id && current(a) && s.contains(b) && b.entity_id@ == id && current(b)
            && alone_between(s, id, a, b) && a.valid_time_start < b.valid_time_start && a.valid_time_end
            < b.valid_time_start ==> gap_violations(s).contains(
            gap_violation(a.valid_time_end as int, b.valid_time_start as int, id),
        ),
        forall|v: ViolationModel|
            #[trigger] gap_violations(s).contains(v) ==> exists|x: TemporalIndexEntry, y: TemporalIndexEntry|
                next_in_start_order(s, x.entity_id@, x, y) && x.valid_time_end < y.valid_time_start && v
                    == #[trigger] gap_violation(x.valid_time_end as int, y.valid_time_start as int, x.entity_id@)
                    && v.violation_type == ConsistencyViolationType::TemporalGap && v.entity_id == x.entity_id@
                    && v.timestamp == x.valid_time_end,
{
    let ids = first_seen_entities(s);
    if s.contains(a) && a.entity_id@ == id && current(a) && s.contains(b) && b.entity_id@ == id && current(b)
        && alone_between(s, id, a, b) && a.valid_time_start < b.valid_time_start && a.valid_time_end
        < b.valid_time_start {
        let f = s.filter(current_pred(id));
        let w = sort_by_start(f);
        lemma_sort_by_start_sorted(f);
        lemma_sorted_members(s, id, a);
        lemma_sorted_members(s, id, b);
        let pa = choose|p: int| 0 <= p < w.len() && w[p] == a;
        let pb = choose|p: int| 0 <= p < w.len() && w[p] == b;
        if pb <= pa {
            assert(w[pb].valid_time_start <= w[pa].valid_time_start);
        }
        assert forall|q: int| pa <= q <= pb implies #[trigger] w[q] == a || w[q] == b by {
            lemma_sorted_members(s, id, w[q]);
            assert(w.contains(w[q]));
            assert(w[pa].valid_time_start <= w[q].valid_time_start);
            assert(w[q].valid_time_start <= w[pb].valid_time_start);
        }
        lemma_switch_point(w, a, b, pa, pb);
        let k = choose|k: int| pa <= k < pb && w[k] == a && #[trigger] w[k + 1] == b;
        lemma_window_gap_found(w, id, k);
        let i = choose|i: int| 0 <= i < s.len() && s[i] == a;
        lemma_first_seen_has(s, i);
        let j = choose|j: int| 0 <= j < ids.len() && ids[j] == id;
        lemma_gaps_for_members(ids, s, gap_violation(a.valid_time_end as int, b.valid_time_start as int, id));
        assert(window_gaps(sort_by_start(s.filter(current_pred(ids[j]))), ids[j]).contains(
            gap_violation(a.valid_time_end as int, b.valid_time_start as int, id),
        ));
    }
    assert forall|v: ViolationModel| #[trigger] gap_violations(s).contains(v) implies exists|
        x: TemporalIndexEntry,
        y: TemporalIndexEntry,
    |
        next_in_start_order(s, x.entity_id@, x, y) && x.valid_time_end < y.valid_time_start && v
            == #[trigger] gap_violation(x.valid_time_end as int, y.valid_time_start as int, x.entity_id@)
            && v.violation_type == ConsistencyViolationType::TemporalGap && v.entity_id == x.entity_id@
            && v.timestamp == x.valid_time_end by {
        lemma_gaps_for_members(ids, s, v);
        let n = choose|n: int|
            0 <= n < ids.len() && #[trigger] window_gaps(sort_by_start(s.filter(current_pred(ids[n]))), ids[n]).contains(v);
        let e = ids[n];
        let f = s.filter(current_pred(e));
        let w = sort_by_start(f);
        lemma_sort_by_start_sorted(f);
        lemma_window_gap_source(w, e, v);
        let q = choose|q: int|
            0 <= q && q + 1 < w.len() && w[q].valid_time_end < w[q + 1].valid_time_start && v
                == #[trigger] gap_violation(w[q].valid_time_end as int, w[q + 1].valid_time_start as int, e);
        let x = w[q];
        let y = w[q + 1];
        assert(w.contains(x) && w.contains(y));
        lemma_sorted_members(s, e, x);
        lemma_sorted_members(s, e, y);
        assert forall|c: TemporalIndexEntry|
            #![trigger s.contains(c)]
            s.contains(c) && c.entity_id@ == e && current(c) implies !(x.valid_time_start < c.valid_time_start
            < y.valid_time_start) by {
            lemma_sorted_members(s, e, c);
            let r = choose|r: int| 0 <= r < w.len() && w[r] == c;
            if r <= q {
                assert(w[r].valid_time_start <= w[q].valid_time_start);
            } else {
                assert(w[q + 1].valid_time_start <= w[r].valid_time_start);
            }
        }
        assert(next_in_start_order(s, x.entity_id@, x, y));
    }
}

} // verus!
