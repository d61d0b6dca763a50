//! Request admission: bearer-token authentication and per-client rate
//! limiting.

use vstd::prelude::*;
use std::time::Instant;

verus! {

/// The monotonic clock, read through `std::time::Instant::now`.  Nothing is
/// promised of the instant.
#[verifier::external_body]
fn instant_now() -> (r: Instant) {
    Instant::now()
}

/// The nanoseconds elapsed since `origin`, read through `Instant::elapsed` and
/// `Duration::as_nanos`.  The clock's value is not specified.
#[verifier::external_body]
fn nanos_since(origin: &Instant) -> (r: u128) {
    origin.elapsed().as_nanos()
}

/// The std monotonic instant.
#[verifier::external_type_specification]
#[verifier::external_body]
pub struct ExInstant(Instant);

/// Whether a bearer token is the one the service accepts.
pub fn token_accepted(token: &str) -> (b: bool)
    ensures
        b == (token@ == "secret-api-token"@),
{
    let t = String::from_str(token);
    let expected = String::from_str("secret-api-token");
    t == expected
}

/// The time elapsed from `since` to `now`; zero when `since` is later.
pub open spec fn elapsed(since: u128, now: u128) -> int {
    if now >= since {
        now - since
    } else {
        0
    }
}

/// Where client `ip` stands in the table of clients, if it is there.
pub open spec fn slot_of(v: Seq<(String, usize, u128)>, ip: Seq<char>, i: int) -> bool {
    0 <= i < v.len() && v[i].0@ == ip
}

/// Whether client `ip` has an entry.
pub open spec fn known(v: Seq<(String, usize, u128)>, ip: Seq<char>) -> bool {
    exists|i: int| slot_of(v, ip, i)
}

/// Each client at most once, and every count between one and the limit (one
/// when the limit is zero).
pub open spec fn table_wf(v: Seq<(String, usize, u128)>, max_requests: usize) -> bool {
    &&& forall|i: int, j: int| 0 <= i < j < v.len() ==> (#[trigger] v[i]).0@ != (#[trigger] v[j]).0@
    &&& forall|i: int|
        0 <= i < v.len() ==> 1 <= (#[trigger] v[i]).1 && (v[i].1 <= max_requests || v[i].1 == 1)
}

/// The standing of client `ip`: the requests admitted in its window and the
/// window's start, if it has an entry.
pub open spec fn client_state(v: Seq<(String, usize, u128)>, ip: Seq<char>) -> Option<(int, u128)> {
    if known(v, ip) {
        let i = choose|i: int| slot_of(v, ip, i);
        Some((v[i].1 as int, v[i].2))
    } else {
        None
    }
}

/// With each client at most once, a client's standing is that of its entry.
proof fn lemma_client_state_at(v: Seq<(String, usize, u128)>, ip: Seq<char>, i: int, limit: usize)
    requires
        table_wf(v, limit),
        slot_of(v, ip, i),
    ensures
        client_state(v, ip) == Some((v[i].1 as int, v[i].2)),
{
    assert(known(v, ip));
    let j = choose|j: int| slot_of(v, ip, j);
    if i != j {
        if i < j {
            assert(v[i].0@ != v[j].0@);
        } else {
            assert(v[j].0@ != v[i].0@);
        }
    }
}

/// A table that keeps every earlier entry in its place, changes only the
/// entries of client `ip` and adds only entries of `ip` leaves the standing of
/// every other client as it was.
proof fn lemma_others_unchanged(
    before: Seq<(String, usize, u128)>,
    after: Seq<(String, usize, u128)>,
    ip: Seq<char>,
    limit: usize,
)
    requires
        table_wf(before, limit),
        table_wf(after, limit),
        before.len() <= after.len(),
        forall|j: int|
            0 <= j < before.len() ==> (#[trigger] after[j]).0 == before[j].0 && (after[j].0@ != ip
                ==> after[j] == before[j]),
        forall|j: int| before.len() <= j < after.len() ==> (#[trigger] after[j]).0@ == ip,
    ensures
        forall|other: Seq<char>|
            other != ip ==> #[trigger] client_state(after, other) == client_state(before, other),
{
    assert forall|other: Seq<char>| other != ip implies #[trigger] client_state(after, other)
        == client_state(before, other) by {
        if known(before, other) {
            let k = choose|k: int| slot_of(before, other, k);
            lemma_client_state_at(before, other, k, limit);
            assert(after[k].0 == before[k].0);
            assert(slot_of(after, other, k));
            lemma_client_state_at(after, other, k, limit);
        } else if known(after, other) {
            let k = choose|k: int| slot_of(after, other, k);
            if k < before.len() {
                assert(after[k].0 == before[k].0);
                assert(slot_of(before, other, k));
            } else {
                assert(after[k].0@ == ip);
            }
        }
    }
}

/// One decision on a request at `now` from a client standing at `state`:
/// whether it is admitted, and the client's standing afterwards.
pub open spec fn admission(state: Option<(int, u128)>, limit: int, window: int, now: u128) -> (
    bool,
    Option<(int, u128)>,
) {
    match state {
        None => (true, Some((1, now))),
        Some((count, since)) => if elapsed(since, now) > window {
            (true, Some((1, now)))
        } else if count >= limit {
            (false, state)
        } else {
            (true, Some((count + 1, since)))
        },
    }
}

/// The decisions on requests at the given times, one after another: how many
/// are admitted, and the client's standing afterwards.
pub open spec fn admissions(state: Option<(int, u128)>, limit: int, window: int, times: Seq<u128>) -> (
    nat,
    Option<(int, u128)>,
)
    decreases times.len(),
{
    if times.len() == 0 {
        (0, state)
    } else {
        let (admitted, next) = admission(state, limit, window, times[0]);
        let (rest, last) = admissions(next, limit, window, times.drop_first());
        (if admitted { rest + 1 } else { rest }, last)
    }
}

/// Within one window the limit holds: from a standing of `count` admitted
/// requests in a window that began at `since`, of any requests that still
/// fall within that window exactly the first `limit - count` are admitted
/// (none once the count has reached the limit), and the window stays.
pub proof fn lemma_window_admits_up_to_limit(
    count: int,
    since: u128,
    limit: int,
    window: int,
    times: Seq<u128>,
)
    requires
        1 <= count,
        forall|k: int| 0 <= k < times.len() ==> elapsed(since, #[trigger] times[k]) <= window,
    ensures
        admissions(Some((count, since)), limit, window, times).0 == if count >= limit {
            0
        } else if times.len() <= limit - count {
            times.len() as int
        } else {
            limit - count
        },
        admissions(Some((count, since)), limit, window, times).1 matches Some((c, s)) && s == since
            && c == if count >= limit {
            count
        } else if times.len() <= limit - count {
            count + times.len()
        } else {
            limit
        },
    decreases times.len(),
{
    if times.len() > 0 {
        let rest = times.drop_first();
        assert forall|k: int| 0 <= k < rest.len() implies elapsed(since, #[trigger] rest[k]) <= window by {
            assert(rest[k] == times[k + 1]);
        }
        assert(elapsed(since, times[0]) <= window);
        if count >= limit {
            lemma_window_admits_up_to_limit(count, since, limit, window, rest);
        } else {
            lemma_window_admits_up_to_limit(count + 1, since, limit, window, rest);
        }
    }
}

/// A new client's first request is admitted and opens its window; of the
/// requests that follow within that window, the limit counts them all, so in
/// all at most `max(limit, 1)` requests of the window are admitted.
pub proof fn lemma_new_client_window(limit: int, window: int, times: Seq<u128>)
    requires
        times.len() > 0,
        forall|k: int| 0 <= k < times.len() ==> elapsed(times[0], #[trigger] times[k]) <= window,
    ensures
        admissions(None, limit, window, times).0 == if times.len() <= limit {
            times.len() as int
        } else if limit <= 1 {
            1
        } else {
            limit
        },
{
    let rest = times.drop_first();
    assert forall|k: int| 0 <= k < rest.len() implies elapsed(times[0], #[trigger] rest[k]) <= window by {
        assert(rest[k] == times[k + 1]);
    }
    lemma_window_admits_up_to_limit(1, times[0], limit, window, rest);
}

/// A limiter that admits at most `max_requests` requests per client within a
/// window; a new window starts with the first request after the old one has
/// run out.
pub struct RateLimiter {
    /// For each client: its address, the requests admitted in its current
    /// window, and when that window began (nanoseconds since `origin`).
    requests: Vec<(String, usize, u128)>,
    max_requests: usize,
    /// The window length in nanoseconds.
    window: u128,
    origin: Instant,
}

impl RateLimiter {
    #[verifier::type_invariant]
    closed spec fn well_formed(self) -> bool {
        table_wf(self.requests@, self.max_requests)
    }

    /// The clients' entries: address, requests admitted in the current window,
    /// and the window's start.
    pub closed spec fn entries(&self) -> Seq<(String, usize, u128)> {
        self.requests@
    }

    /// The most requests admitted per window.
    pub closed spec fn limit(&self) -> usize {
        self.max_requests
    }

    /// The window length in nanoseconds.
    pub closed spec fn window_nanos(&self) -> u128 {
        self.window
    }

    /// A limiter admitting `max_requests` per window of `window` nanoseconds,
    /// with no client yet.
    pub fn new(max_requests: usize, window: u128) -> (r: RateLimiter)
        ensures
            r.entries().len() == 0,
            r.limit() == max_requests,
            r.window_nanos() == window,
            table_wf(r.entries(), r.limit()),
    {
        RateLimiter { requests: Vec::new(), max_requests, window, origin: instant_now() }
    }

    /// Decides on a request from `client_ip` at `now` (nanoseconds on the
    /// limiter's clock).  A first request, or one after the client's window
    /// has run out, is admitted and starts a new window with a count of one;
    /// within the window a request is admitted and counted while the count is
    /// below the limit, and refused, changing nothing, once it has reached it.
    pub fn check_at(&mut self, client_ip: &str, now: u128) -> (admitted: bool)
        ensures
            table_wf(final(self).entries(), final(self).limit()),
            forall|other: Seq<char>|
                other != client_ip@ ==> #[trigger] client_state(final(self).entries(), other)
                    == client_state(old(self).entries(), other),
            final(self).limit() == old(self).limit(),
            final(self).window_nanos() == old(self).window_nanos(),
            (admitted, client_state(final(self).entries(), client_ip@)) == admission(
                client_state(old(self).entries(), client_ip@),
                old(self).limit() as int,
                old(self).window_nanos() as int,
                now,
            ),
            !known(old(self).entries(), client_ip@) ==> admitted && final(self).entries().len()
                == old(self).entries().len() + 1 && final(self).entries().drop_last()
                == old(self).entries() && final(self).entries().last().0@ == client_ip@
                && final(self).entries().last().1 == 1 && final(self).entries().last().2 == now,
            forall|i: int|
                slot_of(old(self).entries(), client_ip@, i) ==> {
                    let (count, since) = (old(self).entries()[i].1, old(self).entries()[i].2);
                    &&& final(self).entries().len() == old(self).entries().len()
                    &&& forall|j: int|
                        0 <= j < old(self).entries().len() && j != i ==> final(self).entries()[j]
                            == old(self).entries()[j]
                    &&& final(self).entries()[i].0 == old(self).entries()[i].0
                    &&& if elapsed(since, now) > old(self).window_nanos() {
                        admitted && final(self).entries()[i].1 == 1 && final(self).entries()[i].2
                            == now
                    } else if count >= old(self).limit() {
                        !admitted && final(self).entries()[i] == old(self).entries()[i]
                    } else {
                        admitted && final(self).entries()[i].1 == count + 1
                            && final(self).entries()[i].2 == since
                    }
                },
    {
        proof {
            use_type_invariant(&*self);
        }
        let key = String::from_str(client_ip);
        let mut i: usize = 0;
        while i < self.requests.len()
            invariant
                0 <= i <= self.requests@.len(),
                key@ == client_ip@,
                self.requests@ == old(self).requests@,
                self.max_requests == old(self).max_requests,
                self.window == old(self).window,
                forall|j: int| 0 <= j < i ==> self.requests@[j].0@ != client_ip@,
            ensures
                0 <= i <= self.requests@.len(),
                self.requests@ == old(self).requests@,
                self.max_requests == old(self).max_requests,
                self.window == old(self).window,
                forall|j: int| 0 <= j < i ==> self.requests@[j].0@ != client_ip@,
                i < self.requests@.len() ==> self.requests@[i as int].0@ == client_ip@,
            decreases self.requests@.len() - i,
        {
            if self.requests[i].0 == key {
                break;
            }
            i = i + 1;
        }
        let ghost before = self.requests@;
        if i == self.requests.len() {
            proof {
                assert forall|j: int| !slot_of(before, client_ip@, j) by {
                    if 0 <= j < before.len() {
                        assert(before[j].0@ != client_ip@);
                    }
                }
            }
            let mut table: Vec<(String, usize, u128)> = Vec::new();
            std::mem::swap(&mut table, &mut self.requests);
            table.push((key, 1, now));
            proof {
                assert(table@.drop_last() =~= before);
                assert forall|a: int, b: int| 0 <= a < b < table@.len() implies (#[trigger] table@[a]).0@
                    != (#[trigger] table@[b]).0@ by {
                    if b == before.len() {
                        assert(table@[a] == before[a]);
                    } else {
                        assert(table@[a] == before[a] && table@[b] == before[b]);
                    }
                }
                assert forall|a: int| 0 <= a < table@.len() implies 1 <= (#[trigger] table@[a]).1 && (
                table@[a].1 <= self.max_requests || table@[a].1 == 1) by {
                    if a < before.len() {
                        assert(table@[a] == before[a]);
                    }
                }
            }
            self.requests = table;
            proof {
                lemma_client_state_at(self.requests@, client_ip@, before.len() as int, self.max_requests);
                lemma_others_unchanged(before, self.requests@, client_ip@, self.max_requests);
            }
            true
        } else {
            proof {
                assert(slot_of(before, client_ip@, i as int));
                assert forall|j: int| slot_of(before, client_ip@, j) implies j == i by {
                    if j < i {
                        assert(before[j].0@ != client_ip@);
                    } else if j > i {
                        assert(before[i as int].0@ != before[j].0@);
                    }
                }
            }
            let count = self.requests[i].1;
            let since = self.requests[i].2;
            let passed: u128 = if now >= since {
                now - since
            } else {
                0
            };
            proof {
                lemma_client_state_at(before, client_ip@, i as int, self.max_requests);
            }
            if passed > self.window {
                self.set_entry(i, 1, now);
                proof {
                    use_type_invariant(&*self);
                    lemma_client_state_at(self.requests@, client_ip@, i as int, self.max_requests);
                    lemma_others_unchanged(before, self.requests@, client_ip@, self.max_requests);
                }
                true
            } else if count >= self.max_requests {
                false
            } else {
                self.set_entry(i, count + 1, since);
                proof {
                    use_type_invariant(&*self);
                    lemma_client_state_at(self.requests@, client_ip@, i as int, self.max_requests);
                    lemma_others_unchanged(before, self.requests@, client_ip@, self.max_requests);
                }
                true
            }
        }
    }

    /// Sets the count and window start of entry `i`, keeping its address.
    fn set_entry(&mut self, i: usize, count: usize, since: u128)
        requires
            i < old(self).requests@.len(),
            1 <= count,
            count <= old(self).max_requests || count == 1,
        ensures
            final(self).requests@ == old(self).requests@.update(
                i as int,
                (old(self).requests@[i as int].0, count, since),
            ),
            final(self).max_requests == old(self).max_requests,
            final(self).window == old(self).window,
    {
        proof {
            use_type_invariant(&*self);
        }
        let mut table: Vec<(String, usize, u128)> = Vec::new();
        std::mem::swap(&mut table, &mut self.requests);
        let ghost before = table@;
        let (name, _, _) = table.remove(i);
        table.insert(i, (name, count, since));
        proof {
            assert(table@ =~= before.update(i as int, (before[i as int].0, count, since)));
            assert forall|a: int, b: int| 0 <= a < b < table@.len() implies (#[trigger] table@[a]).0@
                != (#[trigger] table@[b]).0@ by {
                assert(table@[a].0 == before[a].0 && table@[b].0 == before[b].0);
            }
            assert forall|a: int| 0 <= a < table@.len() implies 1 <= (#[trigger] table@[a]).1 && (
            table@[a].1 <= self.max_requests || table@[a].1 == 1) by {
                if a != i {
                    assert(table@[a] == before[a]);
                }
            }
        }
        self.requests = table;
    }

    /// Decides on a request from `client_ip` now (see `check_at`): the
    /// decision follows the admission rule at the instant the clock reads,
    /// which is not specified.
    pub fn check(&mut self, client_ip: &str) -> (admitted: bool)
        ensures
            table_wf(final(self).entries(), final(self).limit()),
            forall|other: Seq<char>|
                other != client_ip@ ==> #[trigger] client_state(final(self).entries(), other)
                    == client_state(old(self).entries(), other),
            final(self).limit() == old(self).limit(),
            final(self).window_nanos() == old(self).window_nanos(),
            exists|now: u128|
                (admitted, client_state(final(self).entries(), client_ip@)) == #[trigger] admission(
                    client_state(old(self).entries(), client_ip@),
                    old(self).limit() as int,
                    old(self).window_nanos() as int,
                    now,
                ),
    {
        let now = nanos_since(&self.origin);
        self.check_at(client_ip, now)
    }
}

} // verus!
