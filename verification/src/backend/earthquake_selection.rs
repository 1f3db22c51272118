//! Which earthquakes the earthquake endpoint answers with, and in what order:
//! the events that pass the magnitude and radius filters, newest first (ties
//! broken by identifier, then by feed order), at most `limit` of them.
//!
//! The floating-point comparisons (magnitude against the minimum, great-circle
//! distance against the radius) are made by the caller for each event and
//! handed in as the flags of an [`EarthquakeCandidate`]; everything that is
//! decided from them is here.

use vstd::prelude::*;

use crate::text::{bytes_before, compare_bytes, utf8_of, Comparison};
use crate::text::{
    lemma_bytes_before_asymmetric, lemma_bytes_before_irreflexive, lemma_bytes_before_total,
    lemma_bytes_before_transitive,
};

verus! {

/// What the selection reads of one earthquake of the feed.
pub struct EarthquakeCandidate {
    /// Seconds of the event time since the Unix epoch.
    pub time_secs: i64,
    /// Nanoseconds of the event time within its second.
    pub time_nanos: u32,
    /// The feed's identifier of the event.
    pub id: String,
    /// Whether the feed gives a magnitude.
    pub magnitude_known: bool,
    /// Whether the magnitude compares below the requested minimum.
    pub below_min_magnitude: bool,
    /// Whether the event lies within the requested radius of the centre.
    pub within_radius: bool,
}

/// Whether an event passes the filters that the query asks for.
pub open spec fn passes(c: EarthquakeCandidate, filter_magnitude: bool, filter_radius: bool) -> bool {
    &&& (filter_magnitude ==> c.magnitude_known && !c.below_min_magnitude)
    &&& (filter_radius ==> c.within_radius)
}

/// How many of the first `n` events pass the filters.
pub open spec fn passing_count(
    cs: Seq<EarthquakeCandidate>,
    filter_magnitude: bool,
    filter_radius: bool,
    n: int,
) -> nat
    decreases n,
{
    if n <= 0 {
        0
    } else {
        passing_count(cs, filter_magnitude, filter_radius, n - 1) + if passes(
            cs[n - 1],
            filter_magnitude,
            filter_radius,
        ) {
            1nat
        } else {
            0nat
        }
    }
}

/// Whether `a` happened strictly later than `b`.
pub open spec fn newer(a: EarthquakeCandidate, b: EarthquakeCandidate) -> bool {
    a.time_secs > b.time_secs || (a.time_secs == b.time_secs && a.time_nanos > b.time_nanos)
}

/// Whether `a` and `b` happened at the same instant.
pub open spec fn same_time(a: EarthquakeCandidate, b: EarthquakeCandidate) -> bool {
    a.time_secs == b.time_secs && a.time_nanos == b.time_nanos
}

/// The order of the answer: newer events first, then by identifier.
pub open spec fn comes_before(a: EarthquakeCandidate, b: EarthquakeCandidate) -> bool {
    newer(a, b) || (same_time(a, b) && bytes_before(utf8_of(a.id@), utf8_of(b.id@)))
}

/// Neither event comes before the other.
pub open spec fn tied(a: EarthquakeCandidate, b: EarthquakeCandidate) -> bool {
    !comes_before(a, b) && !comes_before(b, a)
}

/// The order of positions in the feed that a stable sort by [`comes_before`]
/// produces: ties keep feed order.
pub open spec fn ranks_before(cs: Seq<EarthquakeCandidate>, i: int, j: int) -> bool {
    comes_before(cs[i], cs[j]) || (tied(cs[i], cs[j]) && i < j)
}

/// A sequence of feed positions in strictly increasing rank.
pub open spec fn sorted_by_rank(cs: Seq<EarthquakeCandidate>, s: Seq<usize>) -> bool {
    forall|k1: int, k2: int|
        0 <= k1 < k2 < s.len() ==> #[trigger] ranks_before(cs, s[k1] as int, s[k2] as int)
}

proof fn lemma_comes_before_transitive(
    a: EarthquakeCandidate,
    b: EarthquakeCandidate,
    c: EarthquakeCandidate,
)
    requires
        comes_before(a, b),
        comes_before(b, c),
    ensures
        comes_before(a, c),
{
    if same_time(a, b) && same_time(b, c) {
        lemma_bytes_before_transitive(utf8_of(a.id@), utf8_of(b.id@), utf8_of(c.id@));
    }
}

/// Tied events agree on everything the order reads.
proof fn lemma_tied_same_key(a: EarthquakeCandidate, b: EarthquakeCandidate)
    requires
        tied(a, b),
    ensures
        same_time(a, b),
        utf8_of(a.id@) == utf8_of(b.id@),
{
    if utf8_of(a.id@) != utf8_of(b.id@) {
        lemma_bytes_before_total(utf8_of(a.id@), utf8_of(b.id@));
    }
}

proof fn lemma_ranks_before_transitive(cs: Seq<EarthquakeCandidate>, i: int, j: int, k: int)
    requires
        ranks_before(cs, i, j),
        ranks_before(cs, j, k),
    ensures
        ranks_before(cs, i, k),
{
    if comes_before(cs[i], cs[j]) && comes_before(cs[j], cs[k]) {
        lemma_comes_before_transitive(cs[i], cs[j], cs[k]);
    } else if comes_before(cs[i], cs[j]) {
        lemma_tied_same_key(cs[j], cs[k]);
    } else if comes_before(cs[j], cs[k]) {
        lemma_tied_same_key(cs[i], cs[j]);
    } else {
        lemma_tied_same_key(cs[i], cs[j]);
        lemma_tied_same_key(cs[j], cs[k]);
    }
}

proof fn lemma_ranks_before_total(cs: Seq<EarthquakeCandidate>, i: int, j: int)
    requires
        i != j,
    ensures
        ranks_before(cs, i, j) || ranks_before(cs, j, i),
{
}

/// Inserting a position where it belongs keeps a sequence sorted.
proof fn lemma_insert_keeps_sorted(cs: Seq<EarthquakeCandidate>, s: Seq<usize>, p: int, x: usize)
    requires
        sorted_by_rank(cs, s),
        0 <= p <= s.len(),
        forall|k: int| 0 <= k < p ==> ranks_before(cs, #[trigger] s[k] as int, x as int),
        p < s.len() ==> ranks_before(cs, x as int, s[p] as int),
    ensures
        sorted_by_rank(cs, s.insert(p, x)),
{
    let t = s.insert(p, x);
    assert forall|k1: int, k2: int| 0 <= k1 < k2 < t.len() implies #[trigger] ranks_before(
        cs,
        t[k1] as int,
        t[k2] as int,
    ) by {
        if k1 < p && k2 < p {
            assert(ranks_before(cs, s[k1] as int, s[k2] as int));
        } else if k1 < p && k2 == p {
            assert(ranks_before(cs, s[k1] as int, x as int));
        } else if k1 < p {
            assert(ranks_before(cs, s[k1] as int, s[k2 - 1] as int));
        } else if k1 == p {
            if k2 - 1 > p {
                assert(ranks_before(cs, s[p] as int, s[k2 - 1] as int));
                lemma_ranks_before_transitive(cs, x as int, s[p] as int, s[k2 - 1] as int);
            }
        } else {
            assert(ranks_before(cs, s[k1 - 1] as int, s[k2 - 1] as int));
        }
    }
}

/// Whether an event passes the filters.
fn passes_filters(c: &EarthquakeCandidate, filter_magnitude: bool, filter_radius: bool) -> (r:
    bool)
    ensures
        r == passes(*c, filter_magnitude, filter_radius),
{
    (!filter_magnitude || (c.magnitude_known && !c.below_min_magnitude)) && (!filter_radius
        || c.within_radius)
}

/// Whether the event at feed position `i` ranks before the one at `j`.
fn rank_before(cs: &Vec<EarthquakeCandidate>, i: usize, j: usize) -> (r: bool)
    requires
        i < cs.len(),
        j < cs.len(),
    ensures
        r == ranks_before(cs@, i as int, j as int),
{
    let a = &cs[i];
    let b = &cs[j];
    if a.time_secs != b.time_secs {
        return a.time_secs > b.time_secs;
    }
    if a.time_nanos != b.time_nanos {
        return a.time_nanos > b.time_nanos;
    }
    let ab = a.id.as_str().as_bytes();
    let bb = b.id.as_str().as_bytes();
    match compare_bytes(ab, bb) {
        Comparison::Less => {
            proof {
                lemma_bytes_before_asymmetric(ab@, bb@);
            }
            true
        },
        Comparison::Greater => {
            proof {
                lemma_bytes_before_asymmetric(bb@, ab@);
            }
            false
        },
        Comparison::Equal => {
            proof {
                lemma_bytes_before_irreflexive(ab@);
            }
            i < j
        },
    }
}

/// The positions in `candidates` of the earthquakes to answer with, in the
/// order to answer with them: those that pass the filters, newest first, ties
/// broken by identifier and then by feed order, at most `limit` of them.
pub fn select_earthquakes(
    candidates: &Vec<EarthquakeCandidate>,
    filter_magnitude: bool,
    filter_radius: bool,
    limit: usize,
) -> (r: Vec<usize>)
    ensures
        r.len() == if passing_count(candidates@, filter_magnitude, filter_radius, candidates.len() as int)
            < limit {
            passing_count(candidates@, filter_magnitude, filter_radius, candidates.len() as int)
        } else {
            limit as nat
        },
        forall|k: int|
            0 <= k < r.len() ==> #[trigger] r[k] < candidates.len() && passes(
                candidates@[r[k] as int],
                filter_magnitude,
                filter_radius,
            ),
        forall|k: int|
            0 <= k < r.len() ==> (filter_radius ==> #[trigger] candidates@[r[k] as int].within_radius)
                && (filter_magnitude ==> candidates@[r[k] as int].magnitude_known
                && !candidates@[r[k] as int].below_min_magnitude),
        sorted_by_rank(candidates@, r@),
        forall|k1: int, k2: int|
            0 <= k1 < k2 < r.len() ==> #[trigger] candidates@[r[k1] as int].time_secs
                >= #[trigger] candidates@[r[k2] as int].time_secs,
        forall|i: int|
            0 <= i < candidates.len() && passes(candidates@[i], filter_magnitude, filter_radius)
                && !r@.contains(i as usize) ==> r.len() == limit && forall|k: int|
                0 <= k < r.len() ==> ranks_before(candidates@, #[trigger] r[k] as int, i),
{
    let ghost cs = candidates@;
    let n = candidates.len();
    let mut sorted: Vec<usize> = Vec::new();
    let mut i: usize = 0;
    while i < n
        invariant
            n == cs.len(),
            cs == candidates@,
            i <= n,
            sorted.len() == passing_count(cs, filter_magnitude, filter_radius, i as int),
            sorted_by_rank(cs, sorted@),
            forall|k: int|
                0 <= k < sorted.len() ==> #[trigger] sorted[k] < i && passes(
                    cs[sorted[k] as int],
                    filter_magnitude,
                    filter_radius,
                ),
            forall|x: int|
                0 <= x < i && passes(cs[x], filter_magnitude, filter_radius) ==> sorted@.contains(
                    x as usize,
                ),
        decreases n - i,
    {
        if passes_filters(&candidates[i], filter_magnitude, filter_radius) {
            let mut p: usize = 0;
            while p < sorted.len() && !rank_before(candidates, i, sorted[p])
                invariant
                    n == cs.len(),
                    cs == candidates@,
                    i < n,
                    p <= sorted.len(),
                    forall|k: int| 0 <= k < sorted.len() ==> #[trigger] sorted[k] < i,
                    forall|k: int|
                        0 <= k < p ==> ranks_before(cs, #[trigger] sorted[k] as int, i as int),
                decreases sorted.len() - p,
            {
                proof {
                    lemma_ranks_before_total(cs, i as int, sorted[p as int] as int);
                }
                p = p + 1;
            }
            let ghost before = sorted@;
            proof {
                lemma_insert_keeps_sorted(cs, before, p as int, i);
            }
            sorted.insert(p, i);
            assert forall|x: int|
                0 <= x < i + 1 && passes(cs[x], filter_magnitude, filter_radius) implies sorted@.contains(
                x as usize,
            ) by {
                if x < i {
                    let q = choose|q: int| 0 <= q < before.len() && before[q] == x as usize;
                    if q < p {
                        assert(sorted@[q] == x as usize);
                    } else {
                        assert(sorted@[q + 1] == x as usize);
                    }
                } else {
                    assert(sorted@[p as int] == i);
                }
            }
            assert forall|k: int| 0 <= k < sorted.len() implies #[trigger] sorted[k] < i + 1
                && passes(cs[sorted[k] as int], filter_magnitude, filter_radius) by {
                if k < p {
                    assert(sorted[k] == before[k]);
                } else if k > p {
                    assert(sorted[k] == before[k - 1]);
                }
            }
        }
        i = i + 1;
    }
    let ghost full = sorted@;
    if sorted.len() > limit {
        sorted.truncate(limit);
    }
    proof {
        assert forall|x: int|
            0 <= x < cs.len() && passes(cs[x], filter_magnitude, filter_radius) && !sorted@.contains(
                x as usize,
            ) implies sorted.len() == limit && forall|k: int|
            0 <= k < sorted.len() ==> ranks_before(cs, #[trigger] sorted[k] as int, x) by {
            let q = choose|q: int| 0 <= q < full.len() && full[q] == x as usize;
            if q < sorted.len() {
                assert(sorted@[q] == x as usize);
            }
            assert forall|k: int| 0 <= k < sorted.len() implies ranks_before(
                cs,
                #[trigger] sorted[k] as int,
                x,
            ) by {
                assert(sorted[k] == full[k]);
                assert(ranks_before(cs, full[k] as int, full[q] as int));
            }
        }
    }
    proof {
        assert forall|k1: int, k2: int| 0 <= k1 < k2 < sorted.len() implies #[trigger] cs[sorted[k1] as int].time_secs
            >= #[trigger] cs[sorted[k2] as int].time_secs by {
            assert(ranks_before(cs, sorted[k1] as int, sorted[k2] as int));
            law_answer_is_newest_first(cs, sorted[k1] as int, sorted[k2] as int);
        }
        assert forall|k: int| 0 <= k < sorted.len() implies (filter_radius ==> #[trigger] cs[sorted[k] as int].within_radius)
            && (filter_magnitude ==> cs[sorted[k] as int].magnitude_known
            && !cs[sorted[k] as int].below_min_magnitude) by {
            assert(sorted[k] == full[k]);
            law_event_passes_exactly_the_requested_filters(cs[sorted[k] as int], filter_magnitude, filter_radius);
        }
    }
    sorted
}

/// Of two events in the answer, the one answered first did not happen later:
/// an event that happened later is always answered before one that happened
/// earlier, whatever their identifiers and feed positions.
pub proof fn law_answer_is_newest_first(cs: Seq<EarthquakeCandidate>, i: int, j: int)
    ensures
        ranks_before(cs, i, j) ==> cs[i].time_secs > cs[j].time_secs || (cs[i].time_secs
            == cs[j].time_secs && cs[i].time_nanos >= cs[j].time_nanos),
        cs[i].time_secs > cs[j].time_secs ==> ranks_before(cs, i, j),
        cs[i].time_secs == cs[j].time_secs && cs[i].time_nanos > cs[j].time_nanos
            ==> ranks_before(cs, i, j),
        i != j ==> (ranks_before(cs, i, j) || ranks_before(cs, j, i)),
        !(ranks_before(cs, i, j) && ranks_before(cs, j, i)),
{
    if ranks_before(cs, i, j) && ranks_before(cs, j, i) {
        if comes_before(cs[i], cs[j]) && comes_before(cs[j], cs[i]) {
            lemma_comes_before_transitive(cs[i], cs[j], cs[i]);
            lemma_bytes_before_irreflexive(utf8_of(cs[i].id@));
        }
    }
}

/// Each filter the query asks for is applied on its own, whatever else it
/// asks for: an event that passes lies within the radius whenever the radius
/// filter is asked for, and has a known magnitude at or above the minimum
/// whenever the magnitude filter is asked for; an event that meets every
/// requested filter passes, and with no filter asked for every event passes.
pub proof fn law_event_passes_exactly_the_requested_filters(
    c: EarthquakeCandidate,
    filter_magnitude: bool,
    filter_radius: bool,
)
    ensures
        passes(c, filter_magnitude, filter_radius) && filter_radius ==> c.within_radius,
        passes(c, filter_magnitude, filter_radius) && filter_magnitude ==> c.magnitude_known
            && !c.below_min_magnitude,
        !c.within_radius ==> !passes(c, filter_magnitude, true),
        !c.magnitude_known || c.below_min_magnitude ==> !passes(c, true, filter_radius),
        c.within_radius && c.magnitude_known && !c.below_min_magnitude ==> passes(
            c,
            filter_magnitude,
            filter_radius,
        ),
        passes(c, false, false),
        filter_radius ==> (passes(c, false, true) <==> c.within_radius),
        filter_magnitude ==> (passes(c, true, false) <==> c.magnitude_known
            && !c.below_min_magnitude),
{
}

} // verus!
