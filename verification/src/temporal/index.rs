//! The temporal index: versions of entities with valid-time and
//! transaction-time bounds, and the point, range, evolution and latest queries.

use vstd::prelude::*;
use crate::error::Error;
use crate::seqs::{lemma_filter_prefix_step, lemma_filter_full_prefix, lemma_filter_push};
use crate::time::DateTimeUtc;
use crate::types::{EntityId, EntityIdModel, TemporalRange, new_uuid};

verus! {

/// One version of an entity in the temporal index.
#[derive(Debug)]
pub struct TemporalIndexEntry {
    /// Entity ID.
    pub entity_id: EntityId,
    /// Valid time start.
    pub valid_time_start: DateTimeUtc,
    /// Valid time end.
    pub valid_time_end: DateTimeUtc,
    /// Transaction time start.
    pub transaction_time_start: DateTimeUtc,
    /// Transaction time end (`None` while the version is current).
    pub transaction_time_end: Option<DateTimeUtc>,
    /// Version identifier.
    pub version_id: u128,
}

impl Clone for TemporalIndexEntry {
    fn clone(&self) -> (r: Self)
        ensures
            r == *self,
    {
        TemporalIndexEntry {
            entity_id: self.entity_id.clone(),
            valid_time_start: self.valid_time_start,
            valid_time_end: self.valid_time_end,
            transaction_time_start: self.transaction_time_start,
            transaction_time_end: self.transaction_time_end,
            version_id: self.version_id,
        }
    }
}

/// Whether the entry's valid time contains the instant `t` (both ends inclusive).
pub open spec fn valid_at(e: TemporalIndexEntry, t: int) -> bool {
    e.valid_time_start <= t && e.valid_time_end >= t
}

/// Whether the entry is current: it has not been superseded.
pub open spec fn current(e: TemporalIndexEntry) -> bool {
    e.transaction_time_end.is_none()
}

/// Whether the valid times of two versions meet: each starts no later than
/// the other ends (both ends inclusive).
pub open spec fn valid_times_meet(a: TemporalIndexEntry, b: TemporalIndexEntry) -> bool {
    a.valid_time_start <= b.valid_time_end && a.valid_time_end >= b.valid_time_start
}

/// Whether `existing` keeps `new` out of the index: a current version of the
/// same entity whose valid time meets the new version's.
pub open spec fn blocks(existing: TemporalIndexEntry, new: TemporalIndexEntry) -> bool {
    existing.entity_id@ == new.entity_id@ && current(existing) && valid_times_meet(new, existing)
}

/// Whether two versions are current versions of the same entity whose valid
/// times meet.
pub open spec fn clash(a: TemporalIndexEntry, b: TemporalIndexEntry) -> bool {
    a.entity_id@ == b.entity_id@ && current(a) && current(b) && valid_times_meet(a, b)
}

/// Selects the current versions of entity `id` valid at instant `t`.
pub open spec fn at_pred(id: EntityIdModel, t: int) -> spec_fn(TemporalIndexEntry) -> bool {
    |e: TemporalIndexEntry| e.entity_id@ == id && valid_at(e, t) && current(e)
}

/// Selects the current versions of entity `id` whose valid time meets `[start, end]`.
pub open spec fn between_pred(id: EntityIdModel, start: int, end: int) -> spec_fn(
    TemporalIndexEntry,
) -> bool {
    |e: TemporalIndexEntry|
        e.entity_id@ == id && current(e) && e.valid_time_start <= end && e.valid_time_end >= start
}

/// Selects the current versions of entity `id` whose valid time starts within `range`.
pub open spec fn evolution_pred(id: EntityIdModel, range: TemporalRange) -> spec_fn(
    TemporalIndexEntry,
) -> bool {
    |e: TemporalIndexEntry|
        e.entity_id@ == id && current(e) && match range.start {
            Some(s) => e.valid_time_start >= s.0,
            None => true,
        } && match range.end {
            Some(x) => e.valid_time_start <= x.0,
            None => true,
        }
}

/// Selects the current versions of entity `id`.
pub open spec fn current_pred(id: EntityIdModel) -> spec_fn(TemporalIndexEntry) -> bool {
    |e: TemporalIndexEntry| e.entity_id@ == id && current(e)
}

/// Selects the versions of entity `id`.
pub open spec fn entity_pred(id: EntityIdModel) -> spec_fn(TemporalIndexEntry) -> bool {
    |e: TemporalIndexEntry| e.entity_id@ == id
}

/// `e` placed into `s` after every element whose valid time starts no later than `e`'s.
pub open spec fn insert_by_start(s: Seq<TemporalIndexEntry>, e: TemporalIndexEntry) -> Seq<
    TemporalIndexEntry,
>
    decreases s.len(),
{
    if s.len() == 0 {
        seq![e]
    } else if s.last().valid_time_start <= e.valid_time_start {
        s.push(e)
    } else {
        insert_by_start(s.drop_last(), e).push(s.last())
    }
}

/// The entries ordered by valid-time start; entries with equal starts keep
/// their order (a stable sort).
pub open spec fn sort_by_start(s: Seq<TemporalIndexEntry>) -> Seq<TemporalIndexEntry>
    decreases s.len(),
{
    if s.len() == 0 {
        s
    } else {
        insert_by_start(sort_by_start(s.drop_last()), s.last())
    }
}

/// Entries in non-decreasing order of valid-time start.
pub open spec fn sorted_by_start(s: Seq<TemporalIndexEntry>) -> bool {
    forall|i: int, j: int| 0 <= i < j < s.len() ==> s[i].valid_time_start <= s[j].valid_time_start
}

impl TemporalIndexEntry {
    /// A new current version with a fresh version identifier.
    pub fn new(
        entity_id: EntityId,
        valid_time_start: DateTimeUtc,
        valid_time_end: DateTimeUtc,
        transaction_time_start: DateTimeUtc,
    ) -> (r: TemporalIndexEntry)
        ensures
            r.entity_id == entity_id,
            r.valid_time_start == valid_time_start,
            r.valid_time_end == valid_time_end,
            r.transaction_time_start == transaction_time_start,
            r.transaction_time_end.is_none(),
            crate::types::is_random_uuid(r.version_id),
    {
        TemporalIndexEntry {
            entity_id,
            valid_time_start,
            valid_time_end,
            transaction_time_start,
            transaction_time_end: None,
            version_id: new_uuid(),
        }
    }

    /// Whether this entry is valid at `timestamp`.
    pub fn is_valid_at(&self, timestamp: &DateTimeUtc) -> (r: bool)
        ensures
            r == valid_at(*self, *timestamp as int),
    {
        self.valid_time_start <= *timestamp && self.valid_time_end >= *timestamp
    }

    /// Whether this entry is current (not superseded).
    pub fn is_current(&self) -> (r: bool)
        ensures
            r == current(*self),
    {
        self.transaction_time_end.is_none()
    }
}

/// The index of versions, in the order they were added.
pub struct TemporalIndex {
    entries: Vec<TemporalIndexEntry>,
}

/// No two current versions of an entity in `s` have valid times that meet.
pub open spec fn current_versions_apart(s: Seq<TemporalIndexEntry>) -> bool {
    forall|i: int, j: int| 0 <= i < j < s.len() ==> !clash(#[trigger] s[i], #[trigger] s[j])
}

impl View for TemporalIndex {
    type V = Seq<TemporalIndexEntry>;

    closed spec fn view(&self) -> Seq<TemporalIndexEntry> {
        self.entries@
    }
}

impl TemporalIndex {
    #[verifier::type_invariant]
    closed spec fn inv(self) -> bool {
        current_versions_apart(self.entries@)
    }

    /// An empty index.
    pub fn new() -> (r: TemporalIndex)
        ensures
            r@.len() == 0,
            current_versions_apart(r@),
    {
        TemporalIndex { entries: Vec::new() }
    }

    /// Every version in the index, in the order they were added.
    pub fn entries(&self) -> (r: &[TemporalIndexEntry])
        ensures
            r@ == self@,
    {
        self.entries.as_slice()
    }

    /// Adds a version.  It is refused with `TemporalOverlap` exactly when a
    /// current version of the same entity has a valid time that meets the new
    /// version's; otherwise it is appended.  So no two current versions of an
    /// entity ever overlap.
    pub fn add_entry(&mut self, entry: TemporalIndexEntry) -> (r: Result<(), Error>)
        ensures
            r is Ok <==> forall|i: int| 0 <= i < old(self)@.len() ==> !blocks(old(self)@[i], entry),
            r is Ok ==> final(self)@ == old(self)@.push(entry),
            r is Err ==> final(self)@ == old(self)@ && r->Err_0 is TemporalOverlap,
            current_versions_apart(final(self)@),
    {
        proof {
            use_type_invariant(&*self);
        }
        let mut i: usize = 0;
        while i < self.entries.len()
            invariant
                0 <= i <= self.entries@.len(),
                self.entries@ == old(self).entries@,
                current_versions_apart(self.entries@),
                forall|k: int| 0 <= k < i ==> !blocks(self.entries@[k], entry),
            decreases self.entries@.len() - i,
        {
            let existing = &self.entries[i];
            if existing.entity_id.same_as(&entry.entity_id) && existing.is_current()
                && entry.valid_time_start <= existing.valid_time_end && entry.valid_time_end
                >= existing.valid_time_start {
                assert(blocks(old(self)@[i as int], entry));
                return Err(
                    Error::TemporalOverlap(
                        String::from_str("New entry overlaps with existing temporal range"),
                    ),
                );
            }
            i = i + 1;
        }
        let ghost before = self.entries@;
        let mut entries = Vec::new();
        std::mem::swap(&mut entries, &mut self.entries);
        entries.push(entry);
        proof {
            assert forall|a: int, b: int| 0 <= a < b < entries@.len() implies !clash(
                #[trigger] entries@[a],
                #[trigger] entries@[b],
            ) by {
                if b == before.len() {
                    assert(!blocks(before[a], entry));
                } else {
                    assert(!clash(before[a], before[b]));
                }
            }
        }
        self.entries = entries;
        Ok(())
    }

    /// The current versions of `entity_id` valid at `timestamp`, in the order
    /// they were added.
    pub fn get_at(&self, entity_id: &EntityId, timestamp: &DateTimeUtc) -> (r: Result<
        Vec<TemporalIndexEntry>,
        Error,
    >)
        ensures
            r is Ok,
            r.unwrap()@ == self@.filter(at_pred(entity_id@, *timestamp as int)),
    {
        let ghost p = at_pred(entity_id@, *timestamp as int);
        let mut out: Vec<TemporalIndexEntry> = Vec::new();
        let mut i: usize = 0;
        while i < self.entries.len()
            invariant
                0 <= i <= self.entries@.len(),
                p == at_pred(entity_id@, *timestamp as int),
                out@ == self.entries@.subrange(0, i as int).filter(p),
            decreases self.entries@.len() - i,
        {
            proof {
                lemma_filter_prefix_step(self.entries@, i as int, p);
            }
            let e = &self.entries[i];
            if e.entity_id.same_as(entity_id) && e.is_valid_at(timestamp) && e.is_current() {
                out.push(e.clone());
            }
            i = i + 1;
        }
        proof {
            lemma_filter_full_prefix(self.entries@, p);
        }
        Ok(out)
    }

    /// The current versions of `entity_id` whose valid time meets `[start, end]`,
    /// in the order they were added; `InvalidTemporalRange` when `start` is after `end`.
    pub fn get_between(&self, entity_id: &EntityId, start: &DateTimeUtc, end: &DateTimeUtc) -> (r:
        Result<Vec<TemporalIndexEntry>, Error>)
        ensures
            r is Err <==> *start > *end,
            r is Err ==> r->Err_0 is InvalidTemporalRange,
            r is Ok ==> r.unwrap()@ == self@.filter(
                between_pred(entity_id@, *start as int, *end as int),
            ),
    {
        if *start > *end {
            return Err(Error::InvalidTemporalRange(String::from_str("Start time must be before end time")));
        }
        let ghost p = between_pred(entity_id@, *start as int, *end as int);
        let mut out: Vec<TemporalIndexEntry> = Vec::new();
        let mut i: usize = 0;
        while i < self.entries.len()
            invariant
                0 <= i <= self.entries@.len(),
                p == between_pred(entity_id@, *start as int, *end as int),
                out@ == self.entries@.subrange(0, i as int).filter(p),
            decreases self.entries@.len() - i,
        {
            proof {
                lemma_filter_prefix_step(self.entries@, i as int, p);
            }
            let e = &self.entries[i];
            if e.entity_id.same_as(entity_id) && e.is_current() && e.valid_time_start <= *end
                && e.valid_time_end >= *start {
                out.push(e.clone());
            }
            i = i + 1;
        }
        proof {
            lemma_filter_full_prefix(self.entries@, p);
        }
        Ok(out)
    }

    /// The current versions of `entity_id` whose valid time starts within
    /// `range`, ordered by valid-time start (a stable order).
    pub fn get_evolution(&self, entity_id: &EntityId, range: &TemporalRange) -> (r: Result<
        Vec<TemporalIndexEntry>,
        Error,
    >)
        ensures
            r is Ok,
            r.unwrap()@ == sort_by_start(self@.filter(evolution_pred(entity_id@, *range))),
            sorted_by_start(r.unwrap()@),
            r.unwrap()@.to_multiset() == self@.filter(evolution_pred(entity_id@, *range)).to_multiset(),
    {
        let ghost p = evolution_pred(entity_id@, *range);
        let ghost filtered = self.entries@.filter(p);
        let mut out: Vec<TemporalIndexEntry> = Vec::new();
        let mut i: usize = 0;
        while i < self.entries.len()
            invariant
                0 <= i <= self.entries@.len(),
                p == evolution_pred(entity_id@, *range),
                out@ == sort_by_start(self.entries@.subrange(0, i as int).filter(p)),
            decreases self.entries@.len() - i,
        {
            proof {
                lemma_filter_prefix_step(self.entries@, i as int, p);
            }
            let e = &self.entries[i];
            let in_start = match range.start {
                Some(s) => e.valid_time_start >= s.0,
                None => true,
            };
            let in_end = match range.end {
                Some(x) => e.valid_time_start <= x.0,
                None => true,
            };
            if e.entity_id.same_as(entity_id) && e.is_current() && in_start && in_end {
                let ghost before = self.entries@.subrange(0, i as int).filter(p);
                insert_entry_by_start(&mut out, e.clone());
                proof {
                    assert(before.push(self.entries@[i as int]).drop_last() =~= before);
                }
            }
            i = i + 1;
        }
        proof {
            lemma_filter_full_prefix(self.entries@, p);
            lemma_sort_by_start_sorted(filtered);
        }
        Ok(out)
    }

    /// The current version of `entity_id` with the latest valid-time end; of
    /// several with the same end, the one added last.  `None` when the entity
    /// has no current version.
    pub fn get_latest(&self, entity_id: &EntityId) -> (r: Result<Option<TemporalIndexEntry>, Error>)
        ensures
            r is Ok,
            ({
                let cur = self@.filter(current_pred(entity_id@));
                match r.unwrap() {
                    None => cur.len() == 0,
                    Some(e) => exists|k: int|
                        0 <= k < cur.len() && cur[k] == e && (forall|m: int|
                            0 <= m < cur.len() ==> cur[m].valid_time_end <= e.valid_time_end) && (
                        forall|m: int|
                            k < m < cur.len() ==> cur[m].valid_time_end < e.valid_time_end),
                }
            }),
    {
        let ghost p = current_pred(entity_id@);
        let mut best: Option<usize> = None;
        let mut i: usize = 0;
        while i < self.entries.len()
            invariant
                0 <= i <= self.entries@.len(),
                p == current_pred(entity_id@),
                ({
                    let cur = self.entries@.subrange(0, i as int).filter(p);
                    match best {
                        None => cur.len() == 0,
                        Some(b) => b < i && exists|k: int|
                            0 <= k < cur.len() && cur[k] == self.entries@[b as int] && (forall|
                                m: int,
                            |
                                0 <= m < cur.len() ==> cur[m].valid_time_end
                                    <= self.entries@[b as int].valid_time_end) && (forall|m: int|
                                k < m < cur.len() ==> cur[m].valid_time_end
                                    < self.entries@[b as int].valid_time_end),
                    }
                }),
            decreases self.entries@.len() - i,
        {
            proof {
                lemma_filter_prefix_step(self.entries@, i as int, p);
            }
            let e = &self.entries[i];
            if e.entity_id.same_as(entity_id) && e.is_current() {
                let take = match best {
                    None => true,
                    Some(b) => self.entries[b].valid_time_end <= e.valid_time_end,
                };
                if take {
                    proof {
                        let cur = self.entries@.subrange(0, i as int).filter(p);
                        let cur2 = cur.push(self.entries@[i as int]);
                        assert(cur2[cur.len() as int] == self.entries@[i as int]);
                    }
                    best = Some(i);
                } else {
                    proof {
                        let cur = self.entries@.subrange(0, i as int).filter(p);
                        let cur2 = cur.push(self.entries@[i as int]);
                        let b = best.unwrap();
                        let k = choose|k: int|
                            0 <= k < cur.len() && cur[k] == self.entries@[b as int] && (forall|
                                m: int,
                            |
                                0 <= m < cur.len() ==> cur[m].valid_time_end
                                    <= self.entries@[b as int].valid_time_end) && (forall|m: int|
                                k < m < cur.len() ==> cur[m].valid_time_end
                                    < self.entries@[b as int].valid_time_end);
                        assert(cur2[k] == self.entries@[b as int]);
                        assert forall|m: int| 0 <= m < cur2.len() implies cur2[m].valid_time_end
                            <= self.entries@[b as int].valid_time_end by {
                            if m < cur.len() {
                                assert(cur2[m] == cur[m]);
                            }
                        }
                        assert forall|m: int| k < m < cur2.len() implies cur2[m].valid_time_end
                            < self.entries@[b as int].valid_time_end by {
                            if m < cur.len() {
                                assert(cur2[m] == cur[m]);
                            }
                        }
                    }
                }
            }
            i = i + 1;
        }
        proof {
            lemma_filter_full_prefix(self.entries@, p);
            assert(self.entries@.subrange(0, i as int).filter(p) == self@.filter(current_pred(entity_id@)));
        }
        match best {
            None => Ok(None),
            Some(b) => Ok(Some(self.entries[b].clone())),
        }
    }

    /// Ends the transaction time of version `version_id` of `entity_id`: the
    /// first current entry of that entity with that version gets
    /// `transaction_time_end`.  `EntityNotFound` when the index holds no version
    /// of the entity; `VersionNotFound` when none of its current entries has that version.
    pub fn supersede(&mut self, entity_id: &EntityId, version_id: &u128, transaction_time_end: DateTimeUtc) -> (r:
        Result<(), Error>)
        ensures
            r is Err && r->Err_0 is EntityNotFound <==> old(self)@.filter(entity_pred(entity_id@)).len()
                == 0,
            r is Err && r->Err_0 is VersionNotFound <==> old(self)@.filter(
                entity_pred(entity_id@),
            ).len() > 0 && !exists|i: int|
                0 <= i < old(self)@.len() && #[trigger] old(self)@[i].entity_id@ == entity_id@
                    && old(self)@[i].version_id == *version_id && current(old(self)@[i]),
            r is Err ==> (r->Err_0 is EntityNotFound || r->Err_0 is VersionNotFound)
                && final(self)@ == old(self)@,
            r is Ok ==> exists|i: int|
                0 <= i < old(self)@.len() && old(self)@[i].entity_id@ == entity_id@
                    && old(self)@[i].version_id == *version_id && current(old(self)@[i]) && (forall|
                    j: int,
                |
                    0 <= j < i ==> !(old(self)@[j].entity_id@ == entity_id@ && old(self)@[j].version_id
                        == *version_id && current(old(self)@[j]))) && final(self)@ == old(self)@.update(
                    i,
                    TemporalIndexEntry {
                        transaction_time_end: Some(transaction_time_end),
                        ..old(self)@[i]
                    },
                ),
            current_versions_apart(final(self)@),
    {
        proof {
            use_type_invariant(&*self);
        }
        let ghost p = entity_pred(entity_id@);
        let mut seen = false;
        let mut i: usize = 0;
        while i < self.entries.len()
            invariant
                0 <= i <= self.entries@.len(),
                p == entity_pred(entity_id@),
                self.entries@ == old(self).entries@,
                current_versions_apart(self.entries@),
                seen == (self.entries@.subrange(0, i as int).filter(p).len() > 0),
                forall|j: int|
                    0 <= j < i ==> !(self.entries@[j].entity_id@ == entity_id@
                        && self.entries@[j].version_id == *version_id && current(self.entries@[j])),
            decreases self.entries@.len() - i,
        {
            proof {
                lemma_filter_prefix_step(self.entries@, i as int, p);
            }
            let same = self.entries[i].entity_id.same_as(entity_id);
            if same {
                seen = true;
                if self.entries[i].version_id == *version_id && self.entries[i].is_current() {
                    proof {
                        broadcast use vstd::seq_lib::group_filter_ensures;
                        assert(p(self.entries@[i as int]));
                        assert(self.entries@.filter(p).contains(self.entries@[i as int]));
                    }
                    let ghost before = self.entries@;
                    let mut e = self.entries[i].clone();
                    e.transaction_time_end = Some(transaction_time_end);
                    let mut entries = Vec::new();
                    std::mem::swap(&mut entries, &mut self.entries);
                    entries.set(i, e);
                    proof {
                        assert(entries@ =~= before.update(i as int, TemporalIndexEntry {
                            transaction_time_end: Some(transaction_time_end),
                            ..before[i as int]
                        }));
                        assert forall|a: int, b: int|
                            0 <= a < b < entries@.len() implies !clash(
                            #[trigger] entries@[a],
                            #[trigger] entries@[b],
                        ) by {
                            assert(!clash(before[a], before[b]));
                        }
                    }
                    self.entries = entries;
                    return Ok(());
                }
            }
            i = i + 1;
        }
        proof {
            lemma_filter_full_prefix(self.entries@, p);
        }
        proof {
            use_type_invariant(&*self);
        }
        if seen {
            Err(Error::VersionNotFound(String::from_str("Version not found or already superseded")))
        } else {
            Err(Error::EntityNotFound(String::from_str("Entity not found in temporal index")))
        }
    }
}

pub(crate) fn insert_entry_by_start(v: &mut Vec<TemporalIndexEntry>, e: TemporalIndexEntry)
    ensures
        final(v)@ == insert_by_start(old(v)@, e),
    decreases old(v)@.len(),
{
    let n = v.len();
    if n == 0 {
        v.push(e);
    } else if v[n - 1].valid_time_start <= e.valid_time_start {
        v.push(e);
    } else {
        let last = v.pop().unwrap();
        insert_entry_by_start(v, e);
        v.push(last);
    }
}

/// Reading after a write: once a current version has been appended, a point
/// query for its entity at an instant in its valid time yields the earlier
/// answer followed by that version, and point queries for other entities are
/// unchanged.
pub proof fn lemma_added_version_visible(
    old_entries: Seq<TemporalIndexEntry>,
    e: TemporalIndexEntry,
    id: EntityIdModel,
    t: int,
)
    ensures
        (id == e.entity_id@ && current(e) && valid_at(e, t)) ==> old_entries.push(e).filter(
            at_pred(id, t),
        ) == old_entries.filter(at_pred(id, t)).push(e),
        id != e.entity_id@ ==> old_entries.push(e).filter(at_pred(id, t)) == old_entries.filter(
            at_pred(id, t),
        ),
{
    lemma_filter_push(old_entries, e, at_pred(id, t));
}

/// Temporal consistency of the index: two current versions of one entity in
/// an index that keeps its versions apart are never both valid at the same
/// instant.
pub proof fn lemma_current_versions_share_no_instant(s: Seq<TemporalIndexEntry>, i: int, j: int, t: int)
    requires
        current_versions_apart(s),
        0 <= i < j < s.len(),
        s[i].entity_id@ == s[j].entity_id@,
        current(s[i]),
        current(s[j]),
    ensures
        !(valid_at(s[i], t) && valid_at(s[j], t)),
{
    assert(!clash(s[i], s[j]));
}

/// Superseding a version just added: when the index held no current version
/// of that entity with that version id, the version superseded is the one
/// added (the first current match is the last entry), and afterwards every
/// point, range, evolution and latest query answers as before the addition,
/// the entity is still known, and no current version with that id remains (so
/// superseding it again is refused as an unknown version).
pub proof fn lemma_supersede_after_add(
    s: Seq<TemporalIndexEntry>,
    e: TemporalIndexEntry,
    i: int,
    end: DateTimeUtc,
    id: EntityIdModel,
    t: int,
    start: int,
    stop: int,
    range: TemporalRange,
)
    requires
        current(e),
        forall|k: int|
            0 <= k < s.len() ==> !(#[trigger] s[k].entity_id@ == e.entity_id@ && s[k].version_id
                == e.version_id && current(s[k])),
        0 <= i < s.len() + 1,
        s.push(e)[i].entity_id@ == e.entity_id@,
        s.push(e)[i].version_id == e.version_id,
        current(s.push(e)[i]),
    ensures
        i == s.len(),
        ({
            let after = s.push(e).update(i, TemporalIndexEntry { transaction_time_end: Some(end), ..e });
            &&& after.filter(at_pred(id, t)) == s.filter(at_pred(id, t))
            &&& after.filter(between_pred(id, start, stop)) == s.filter(between_pred(id, start, stop))
            &&& after.filter(evolution_pred(id, range)) == s.filter(evolution_pred(id, range))
            &&& after.filter(current_pred(id)) == s.filter(current_pred(id))
            &&& after.filter(entity_pred(e.entity_id@)).len() > 0
            &&& !exists|k: int|
                0 <= k < after.len() && #[trigger] after[k].entity_id@ == e.entity_id@
                    && after[k].version_id == e.version_id && current(after[k])
        }),
{
    if i < s.len() {
        assert(s.push(e)[i] == s[i]);
    }
    let x = TemporalIndexEntry { transaction_time_end: Some(end), ..e };
    let after = s.push(e).update(i, x);
    assert(after =~= s.push(x));
    lemma_filter_push(s, x, at_pred(id, t));
    lemma_filter_push(s, x, between_pred(id, start, stop));
    lemma_filter_push(s, x, evolution_pred(id, range));
    lemma_filter_push(s, x, current_pred(id));
    lemma_filter_push(s, x, entity_pred(e.entity_id@));
    assert forall|k: int|
        0 <= k < after.len() implies !(#[trigger] after[k].entity_id@ == e.entity_id@
        && after[k].version_id == e.version_id && current(after[k])) by {
        if k < s.len() {
            assert(after[k] == s[k]);
        }
    }
}

/// Ending a version's transaction time removes it from every point query:
/// the answer is the one the index would give without that entry.
pub proof fn lemma_superseded_version_hidden(
    old_entries: Seq<TemporalIndexEntry>,
    i: int,
    end: DateTimeUtc,
    id: EntityIdModel,
    t: int,
)
    requires
        0 <= i < old_entries.len(),
    ensures
        old_entries.update(
            i,
            TemporalIndexEntry { transaction_time_end: Some(end), ..old_entries[i] },
        ).filter(at_pred(id, t)) == old_entries.remove(i).filter(at_pred(id, t)),
{
    let p = at_pred(id, t);
    let x = TemporalIndexEntry { transaction_time_end: Some(end), ..old_entries[i] };
    let a = old_entries.subrange(0, i);
    let b = old_entries.subrange(i + 1, old_entries.len() as int);
    assert(old_entries.update(i, x) =~= a + seq![x] + b);
    assert(old_entries.remove(i) =~= a + b);
    broadcast use Seq::filter_distributes_over_add;
    crate::seqs::lemma_filter_empty(p);
    lemma_filter_push(Seq::<TemporalIndexEntry>::empty(), x, p);
    assert(Seq::<TemporalIndexEntry>::empty().push(x) =~= seq![x]);
    assert(!p(x));
}

/// A range query over a single instant answers exactly as the point query.
pub proof fn lemma_between_single_instant_is_point_query(
    entries: Seq<TemporalIndexEntry>,
    id: EntityIdModel,
    t: int,
)
    ensures
        entries.filter(between_pred(id, t, t)) == entries.filter(at_pred(id, t)),
{
    assert(between_pred(id, t, t) =~= at_pred(id, t));
}

/// Every element of `insert_by_start(s, e)` is `e` or an element of `s`, and
/// it has one element more than `s`.
pub proof fn lemma_insert_by_start_elements(s: Seq<TemporalIndexEntry>, e: TemporalIndexEntry)
    ensures
        insert_by_start(s, e).to_multiset() == s.to_multiset().insert(e),
        insert_by_start(s, e).len() == s.len() + 1,
    decreases s.len(),
{
    broadcast use vstd::seq_lib::group_to_multiset_ensures;
    if s.len() == 0 {
        assert(seq![e] =~= Seq::<TemporalIndexEntry>::empty().push(e));
    } else if s.last().valid_time_start <= e.valid_time_start {
    } else {
        lemma_insert_by_start_elements(s.drop_last(), e);
        assert(s.drop_last().push(s.last()) =~= s);
    }
}

/// Inserting into a sorted sequence keeps it sorted.
pub proof fn lemma_insert_by_start_sorted(s: Seq<TemporalIndexEntry>, e: TemporalIndexEntry)
    requires
        sorted_by_start(s),
    ensures
        sorted_by_start(insert_by_start(s, e)),
    decreases s.len(),
{
    broadcast use vstd::seq_lib::group_to_multiset_ensures;
    if s.len() == 0 {
    } else if s.last().valid_time_start <= e.valid_time_start {
    } else {
        let d = s.drop_last();
        lemma_insert_by_start_sorted(d, e);
        lemma_insert_by_start_elements(d, e);
        let r = insert_by_start(d, e);
        assert forall|x: TemporalIndexEntry| r.contains(x) implies x.valid_time_start
            <= s.last().valid_time_start by {
            assert(r.to_multiset().count(x) > 0);
            if x != e {
                assert(d.to_multiset().count(x) > 0);
                assert(d.contains(x));
                let k = choose|k: int| 0 <= k < d.len() && d[k] == x;
                assert(s[k] == x);
            }
        }
        assert forall|i: int, j: int| 0 <= i < j < r.len() + 1 implies r.push(
            s.last(),
        )[i].valid_time_start <= r.push(s.last())[j].valid_time_start by {
            if j == r.len() {
                assert(r.contains(r[i]));
            }
        }
    }
}

/// The evolution order is sorted by valid-time start and holds the same entries.
pub proof fn lemma_sort_by_start_sorted(s: Seq<TemporalIndexEntry>)
    ensures
        sorted_by_start(sort_by_start(s)),
        sort_by_start(s).to_multiset() == s.to_multiset(),
    decreases s.len(),
{
    broadcast use vstd::seq_lib::group_to_multiset_ensures;
    if s.len() > 0 {
        lemma_sort_by_start_sorted(s.drop_last());
        lemma_insert_by_start_sorted(sort_by_start(s.drop_last()), s.last());
        lemma_insert_by_start_elements(sort_by_start(s.drop_last()), s.last());
        assert(s.drop_last().push(s.last()) =~= s);
    }
}

/// What a point query answers: exactly the versions of the index that belong
/// to the entity, are current, and whose valid time (both ends inclusive)
/// holds the instant.
pub proof fn lemma_point_query_answers(s: Seq<TemporalIndexEntry>, id: EntityIdModel, t: int)
    ensures
        forall|x: TemporalIndexEntry|
            #[trigger] s.filter(at_pred(id, t)).contains(x) <==> (s.contains(x) && x.entity_id@ == id
                && x.transaction_time_end is None && x.valid_time_start <= t && t <= x.valid_time_end),
{
    broadcast use vstd::seq_lib::group_filter_ensures;
    assert forall|x: TemporalIndexEntry|
        #[trigger] s.filter(at_pred(id, t)).contains(x) <==> (s.contains(x) && x.entity_id@ == id
            && x.transaction_time_end is None && x.valid_time_start <= t && t <= x.valid_time_end) by {
        lemma_filter_membership(s, at_pred(id, t), x);
    }
}

/// What a range query answers: exactly the current versions of the entity
/// whose valid time meets the span: they start no later than its end and end
/// no earlier than its start.
pub proof fn lemma_range_query_answers(s: Seq<TemporalIndexEntry>, id: EntityIdModel, start: int, end: int)
    ensures
        forall|x: TemporalIndexEntry|
            #[trigger] s.filter(between_pred(id, start, end)).contains(x) <==> (s.contains(x)
                && x.entity_id@ == id && x.transaction_time_end is None && x.valid_time_start <= end
                && x.valid_time_end >= start),
{
    broadcast use vstd::seq_lib::group_filter_ensures;
    assert forall|x: TemporalIndexEntry|
        #[trigger] s.filter(between_pred(id, start, end)).contains(x) <==> (s.contains(x)
            && x.entity_id@ == id && x.transaction_time_end is None && x.valid_time_start <= end
            && x.valid_time_end >= start) by {
        lemma_filter_membership(s, between_pred(id, start, end), x);
    }
}

/// What an evolution query answers: exactly the current versions of the
/// entity whose valid time starts within the range (at or after its start,
/// at or before its end, where given) — where they end plays no part — each
/// as often as the index holds it, ordered by valid-time start.
pub proof fn lemma_evolution_answers(s: Seq<TemporalIndexEntry>, id: EntityIdModel, range: TemporalRange)
    ensures
        sorted_by_start(sort_by_start(s.filter(evolution_pred(id, range)))),
        forall|x: TemporalIndexEntry|
            #[trigger] sort_by_start(s.filter(evolution_pred(id, range))).to_multiset().count(x) == if x.entity_id@
                == id && x.transaction_time_end is None && (range.start matches Some(a) ==> a.0
                <= x.valid_time_start) && (range.end matches Some(b) ==> x.valid_time_start <= b.0) {
                s.to_multiset().count(x)
            } else {
                0
            },
{
    let p = evolution_pred(id, range);
    lemma_sort_by_start_sorted(s.filter(p));
    assert forall|x: TemporalIndexEntry|
        #[trigger] s.filter(p).to_multiset().count(x) == if p(x) {
            s.to_multiset().count(x)
        } else {
            0
        } by {
        lemma_filter_count(s, p, x);
    }
}

/// Filtering keeps every occurrence of the elements it selects and none of
/// the others.
pub proof fn lemma_filter_count(s: Seq<TemporalIndexEntry>, p: spec_fn(TemporalIndexEntry) -> bool, x: TemporalIndexEntry)
    ensures
        s.filter(p).to_multiset().count(x) == if p(x) {
            s.to_multiset().count(x)
        } else {
            0
        },
    decreases s.len(),
{
    broadcast use vstd::seq_lib::group_to_multiset_ensures;
    if s.len() == 0 {
        crate::seqs::lemma_filter_empty(p);
    } else {
        lemma_filter_count(s.drop_last(), p, x);
        lemma_filter_push(s.drop_last(), s.last(), p);
        assert(s.drop_last().push(s.last()) =~= s);
    }
}

/// An element is in a filtered sequence exactly when it is in the sequence
/// and selected.
pub proof fn lemma_filter_membership(s: Seq<TemporalIndexEntry>, p: spec_fn(TemporalIndexEntry) -> bool, x: TemporalIndexEntry)
    ensures
        s.filter(p).contains(x) <==> (s.contains(x) && p(x)),
{
    if s.filter(p).contains(x) {
        s.lemma_filter_contains_rev(p, x);
        let k = choose|k: int| 0 <= k < s.filter(p).len() && s.filter(p)[k] == x;
        s.lemma_filter_pred(p, k);
    }
    if s.contains(x) && p(x) {
        let k = choose|k: int| 0 <= k < s.len() && s[k] == x;
        s.lemma_filter_contains(p, k);
    }
}

} // verus!
