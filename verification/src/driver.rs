//! The benchmark drivers: the timed pure-parse run, the timed bulk load, and
//! the two-phase query enumeration that times the first match separately from
//! the remainder.

use vstd::prelude::*;
use vstd::multiset::Multiset;
use crate::clock::{now_ns, duration_ns, span_ns};
use crate::store::{Store, TripleForm, LoadFailure, store_triples, person_part, matches_left,
    parsed_graph, parse_nt_discard};

verus! {

/// The numbers a query run reports: how many triples matched, nanoseconds
/// until the first match was produced, and nanoseconds to enumerate the rest.
pub struct QueryOutcome {
    pub count: usize,
    pub first_ns: u64,
    pub rest_ns: u64,
}

/// The running state of the two-phase query timer: the reading the current
/// phase started at, the already-fixed time to the first match, and how many
/// matches have been counted so far.
pub struct QueryTiming {
    pub start_ns: u64,
    pub first_ns: u64,
    pub count: usize,
}

impl QueryTiming {
    /// Start the timer: phase one begins at `t0`, nothing counted yet.
    pub fn begin(t0: u64) -> (t: Self)
        ensures
            t.start_ns == t0,
            t.first_ns == 0,
            t.count == 0,
    {
        QueryTiming { start_ns: t0, first_ns: 0, count: 0 }
    }

    /// Fix the time to the first match. Only callable before any match has
    /// been counted, so the first-match time is taken exactly once, strictly
    /// before any later match is observed; `t_resume` restarts the timer for
    /// the enumeration of the remainder.
    pub fn mark_first(&mut self, t1: u64, t_resume: u64)
        requires
            old(self).count == 0,
        ensures
            final(self).first_ns == span_ns(old(self).start_ns, t1),
            final(self).start_ns == t_resume,
            final(self).count == old(self).count,
    {
        self.first_ns = duration_ns(self.start_ns, t1);
        self.start_ns = t_resume;
    }

    /// Count one produced match. The already-fixed first-match time is never
    /// altered by later matches.
    pub fn tally(&mut self)
        requires
            old(self).count < usize::MAX,
        ensures
            final(self).count == old(self).count + 1,
            final(self).first_ns == old(self).first_ns,
            final(self).start_ns == old(self).start_ns,
    {
        self.count = self.count + 1;
    }

    /// Close the timer at `t_end`. When nothing ever matched, both reported
    /// times are zero: the first-match branch never triggered.
    pub fn finish(self, t_end: u64) -> (q: QueryOutcome)
        ensures
            q.count == self.count,
            self.count == 0 ==> q.first_ns == 0 && q.rest_ns == 0,
            self.count > 0 ==> q.first_ns == self.first_ns
                && q.rest_ns == span_ns(self.start_ns, t_end),
    {
        if self.count == 0 {
            QueryOutcome { count: 0, first_ns: 0, rest_ns: 0 }
        } else {
            QueryOutcome {
                count: self.count,
                first_ns: self.first_ns,
                rest_ns: duration_ns(self.start_ns, t_end),
            }
        }
    }
}

/// What the timed load phase reports: elapsed nanoseconds and how many
/// triples the store actually took in.
pub struct LoadStats {
    pub parse_ns: u64,
    pub inserted: usize,
}

/// Phase one of the "query" task: bulk-load the byte stream into the (still
/// empty) store, bracketed by one clock reading before and one after.
pub fn load_timed(store: &mut Store, bytes: &[u8]) -> (r: Result<LoadStats, LoadFailure>)
    requires
        store_triples(old(store)) == Multiset::<TripleForm>::empty(),
    ensures
        r matches Ok(st) ==> parsed_graph(bytes@) matches Some(g)
            && store_triples(final(store)) == g
            && st.inserted == g.len(),
        r matches Err(LoadFailure::Syntax(_)) ==> parsed_graph(bytes@) is None,
        r matches Err(LoadFailure::Storage(_)) ==> bytes@.len() > u32::MAX,
        parsed_graph(bytes@) is Some && bytes@.len() <= u32::MAX ==> r is Ok,
{
    let t0 = now_ns();
    match store.load_nt(bytes) {
        Ok(n) => {
            let t1 = now_ns();
            Ok(LoadStats { parse_ns: duration_ns(t0, t1), inserted: n })
        },
        Err(e) => Err(e),
    }
}

/// The "parse" task: stream the input through the parser, dropping each
/// triple as it is produced; reports the elapsed nanoseconds, or the parser's
/// diagnostic on the first malformed line.
pub fn run_parse(bytes: &[u8]) -> (r: Result<u64, LoadFailure>)
    ensures
        r is Ok <==> parsed_graph(bytes@) is Some,
        r matches Err(f) ==> f matches LoadFailure::Syntax(_),
{
    let t0 = now_ns();
    match parse_nt_discard(bytes) {
        Ok(()) => {
            let t1 = now_ns();
            Ok(duration_ns(t0, t1))
        },
        Err(e) => Err(e),
    }
}

/// Phase two of the "query" task: enumerate the matches of the fixed query,
/// fixing the time to the first match as soon as it is produced and timing
/// the remainder separately. The reported count is exactly the number of
/// stored triples the fixed query matches; when it is zero, both reported
/// times are zero.
pub fn run_query(s: &Store) -> (q: QueryOutcome)
    ensures
        q.count == person_part(store_triples(s)).len(),
        q.count == 0 ==> q.first_ns == 0 && q.rest_ns == 0,
{
    let ghost total: nat = person_part(store_triples(s)).len();
    let t0 = now_ns();
    let mut it = s.person_matches();
    let mut timing = QueryTiming::begin(t0);
    loop
        invariant
            timing.count + matches_left(&it).len() == total,
            total <= usize::MAX,
        ensures
            timing.count == total,
        decreases matches_left(&it).len(),
    {
        if it.advance() {
            if timing.count == 0 {
                let t1 = now_ns();
                let t_resume = now_ns();
                timing.mark_first(t1, t_resume);
            }
            timing.tally();
        } else {
            break;
        }
    }
    let t_end = now_ns();
    timing.finish(t_end)
}

/// Re-running the fixed query over an unchanged store reports the same match
/// count: the count each run reports is a function of the store's contents
/// alone, so two runs over the same store agree on it (the reported timings,
/// by contrast, depend on the clock and are not related by any contract).
pub proof fn lemma_query_count_deterministic(s: &Store, a: QueryOutcome, b: QueryOutcome)
    requires
        a.count == person_part(store_triples(s)).len(),
        b.count == person_part(store_triples(s)).len(),
    ensures
        a.count == b.count,
{
}

} // verus!
