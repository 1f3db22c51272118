//! Which weather alerts the alerts endpoint answers with when the request
//! names a place: those whose area holds it.
//!
//! Whether the place lies in one polygon of an alert's area is a
//! floating-point test made by the caller; the alert is handed in as an
//! [`AlertCoverage`] holding one result per polygon.

use vstd::prelude::*;

verus! {

/// What the filter reads of one alert.
pub enum AlertCoverage {
    /// A MET alert: for each polygon of its area (one for a single area),
    /// whether the place lies in it.
    Met(Vec<bool>),
    /// An NVE alert, whose area is not read: it never holds the place.
    Nve,
}

/// Whether an alert's area holds the place.
pub open spec fn covers(c: AlertCoverage) -> bool {
    match c {
        AlertCoverage::Met(hits) => exists|k: int| 0 <= k < hits@.len() && #[trigger] hits@[k],
        AlertCoverage::Nve => false,
    }
}

/// Whether an alert's area holds the place: some polygon of a MET alert
/// does; an NVE alert never does.
pub fn alert_contains_location(c: &AlertCoverage) -> (r: bool)
    ensures
        r == covers(*c),
{
    match c {
        AlertCoverage::Met(hits) => {
            let mut k: usize = 0;
            while k < hits.len()
                invariant
                    *c == AlertCoverage::Met(*hits),
                    k <= hits.len(),
                    forall|j: int| 0 <= j < k ==> !hits@[j],
                decreases hits.len() - k,
            {
                if hits[k] {
                    assert(hits@[k as int]);
                    assert((*c)->Met_0 == *hits);
                    assert(covers(*c));
                    return true;
                }
                k = k + 1;
            }
            false
        },
        AlertCoverage::Nve => false,
    }
}

/// An NVE alert never holds the place; a MET alert holds it exactly when one
/// of its polygons does, so one with no polygon holding it (or no polygon at
/// all) does not.
pub proof fn law_alert_holds_place_when_a_polygon_does(hits: Vec<bool>)
    ensures
        !covers(AlertCoverage::Nve),
        covers(AlertCoverage::Met(hits)) <==> hits@.contains(true),
        hits@.len() == 0 ==> !covers(AlertCoverage::Met(hits)),
{
    let c = AlertCoverage::Met(hits);
    if hits@.contains(true) {
        let k = choose|k: int| 0 <= k < hits@.len() && hits@[k] == true;
        assert(hits@[k]);
        assert(c->Met_0 == hits);
        assert(c->Met_0@[k]);
        assert(exists|j: int| 0 <= j < c->Met_0@.len() && #[trigger] c->Met_0@[j]);
        assert(covers(c));
    }
    if covers(c) {
        let k = choose|k: int| 0 <= k < hits@.len() && #[trigger] hits@[k];
        assert(hits@[k] == true);
        assert(hits@.contains(true));
    }
}

/// The positions of the alerts among the first `n` whose area holds the place.
pub open spec fn covering_positions(cs: Seq<AlertCoverage>, n: int) -> Seq<usize>
    decreases n,
{
    if n <= 0 {
        Seq::empty()
    } else if covers(cs[n - 1]) {
        covering_positions(cs, n - 1).push((n - 1) as usize)
    } else {
        covering_positions(cs, n - 1)
    }
}

/// Among the first `n` alerts, the answer holds the position of every alert
/// whose area holds the place and of no other, each once, in the alerts'
/// order.
pub proof fn law_answer_is_exactly_the_covering_alerts(cs: Seq<AlertCoverage>, n: int)
    requires
        0 <= n <= cs.len(),
        cs.len() <= usize::MAX,
    ensures
        forall|i: int| 0 <= i < n ==> (covers(#[trigger] cs[i]) <==> covering_positions(cs, n).contains(i as usize)),
        forall|k: int|
            0 <= k < covering_positions(cs, n).len() ==> #[trigger] covering_positions(cs, n)[k] < n
                && covers(cs[covering_positions(cs, n)[k] as int]),
        forall|k1: int, k2: int|
            0 <= k1 < k2 < covering_positions(cs, n).len() ==> #[trigger] covering_positions(cs, n)[k1]
                < #[trigger] covering_positions(cs, n)[k2],
    decreases n,
{
    if n > 0 {
        law_answer_is_exactly_the_covering_alerts(cs, n - 1);
        let prev = covering_positions(cs, n - 1);
        let cur = covering_positions(cs, n);
        assert forall|i: int| 0 <= i < n implies (covers(#[trigger] cs[i]) <==> cur.contains(i as usize)) by {
            if i < n - 1 {
                if covers(cs[i]) {
                    let q = choose|q: int| 0 <= q < prev.len() && prev[q] == i as usize;
                    if covers(cs[n - 1]) {
                        assert(cur[q] == i as usize);
                    }
                } else if cur.contains(i as usize) {
                    let q = choose|q: int| 0 <= q < cur.len() && cur[q] == i as usize;
                    if covers(cs[n - 1]) && q == prev.len() {
                        assert(cur[q] == (n - 1) as usize);
                    } else {
                        assert(prev[q] == i as usize);
                    }
                }
            } else {
                if covers(cs[n - 1]) {
                    assert(cur[prev.len() as int] == (n - 1) as usize);
                } else if cur.contains(i as usize) {
                    let q = choose|q: int| 0 <= q < cur.len() && cur[q] == i as usize;
                    assert(prev[q] < n - 1);
                }
            }
        }
        assert forall|k: int| 0 <= k < cur.len() implies #[trigger] cur[k] < n && covers(cs[cur[k] as int]) by {
            if k < prev.len() {
                assert(cur[k] == prev[k]);
            }
        }
        assert forall|k1: int, k2: int| 0 <= k1 < k2 < cur.len() implies #[trigger] cur[k1] < #[trigger] cur[k2] by {
            if k2 < prev.len() {
                assert(cur[k1] == prev[k1] && cur[k2] == prev[k2]);
            } else {
                assert(cur[k1] == prev[k1]);
            }
        }
    }
}

/// The positions of the alerts whose area holds the place, in order.
pub fn alerts_containing(alerts: &Vec<AlertCoverage>) -> (r: Vec<usize>)
    ensures
        r@ == covering_positions(alerts@, alerts@.len() as int),
        forall|i: int| 0 <= i < alerts.len() ==> (covers(#[trigger] alerts@[i]) <==> r@.contains(i as usize)),
        forall|k: int| 0 <= k < r.len() ==> #[trigger] r[k] < alerts.len() && covers(alerts@[r[k] as int]),
        forall|k1: int, k2: int| 0 <= k1 < k2 < r.len() ==> #[trigger] r[k1] < #[trigger] r[k2],
{
    proof {
        assert(alerts@.len() == alerts.len());
        law_answer_is_exactly_the_covering_alerts(alerts@, alerts@.len() as int);
    }
    let mut r: Vec<usize> = Vec::new();
    let mut k: usize = 0;
    while k < alerts.len()
        invariant
            k <= alerts.len(),
            r@ == covering_positions(alerts@, k as int),
        decreases alerts.len() - k,
    {
        if alert_contains_location(&alerts[k]) {
            r.push(k);
        }
        k = k + 1;
    }
    r
}

} // verus!
