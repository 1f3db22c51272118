use geo::{Distance, Haversine, Point};
use wictk::backend::earthquake_selection::{select_earthquakes, EarthquakeCandidate};

/// An event as the endpoint sees it, with its filter comparisons made as the
/// endpoint makes them.
fn candidate(
    id: &str,
    magnitude: Option<f64>,
    time: i64,
    lon: f32,
    lat: f32,
    min_magnitude: Option<f64>,
    centre: Option<(f32, f32, f64)>,
) -> EarthquakeCandidate {
    let below = match (magnitude, min_magnitude) {
        (Some(value), Some(minimum)) => value < minimum,
        _ => false,
    };
    let within = match centre {
        Some((clon, clat, radius_km)) => {
            let c = Point::new(clon as f64, clat as f64);
            let e = Point::new(lon as f64, lat as f64);
            Haversine.distance(c, e) <= radius_km * 1000.0
        }
        None => true,
    };
    EarthquakeCandidate {
        time_secs: time,
        time_nanos: 0,
        id: id.to_string(),
        magnitude_known: magnitude.is_some(),
        below_min_magnitude: below,
        within_radius: within,
    }
}

#[test]
fn filters_magnitude_orders_newest_first_and_limits_results() {
    let min = Some(2.0);
    let events = vec![
        candidate("older", Some(5.0), 100, 10.0, 60.0, min, None),
        candidate("no-magnitude", None, 300, 10.0, 60.0, min, None),
        candidate("newer", Some(3.0), 200, 10.0, 60.0, min, None),
    ];
    let order = select_earthquakes(&events, true, false, 1);
    assert_eq!(order.len(), 1);
    assert_eq!(events[order[0]].id, "newer");
}

#[test]
fn filters_by_coordinate_radius() {
    let centre = Some((10.7522, 59.9139, 25.0));
    let events = vec![
        candidate("oslo", Some(2.0), 200, 10.7522, 59.9139, None, centre),
        candidate("trondheim", Some(2.0), 100, 10.4034, 63.4308, None, centre),
    ];
    let order = select_earthquakes(&events, false, true, 100);
    assert_eq!(order.len(), 1);
    assert_eq!(events[order[0]].id, "oslo");
}

#[test]
fn orders_by_time_then_identifier_then_feed_order() {
    let events = vec![
        candidate("b", None, 100, 0.0, 0.0, None, None),
        candidate("a", None, 100, 0.0, 0.0, None, None),
        candidate("z", None, 300, 0.0, 0.0, None, None),
        candidate("a", None, 100, 0.0, 0.0, None, None),
        candidate("ab", None, 100, 0.0, 0.0, None, None),
    ];
    let order = select_earthquakes(&events, false, false, 100);
    assert_eq!(order, vec![2, 1, 3, 4, 0]);
}

#[test]
fn sub_second_times_order_events() {
    let mut early = candidate("x", None, 100, 0.0, 0.0, None, None);
    early.time_nanos = 1;
    let mut late = candidate("y", None, 100, 0.0, 0.0, None, None);
    late.time_nanos = 2;
    let order = select_earthquakes(&vec![early, late], false, false, 10);
    assert_eq!(order, vec![1, 0]);
}

#[test]
fn limit_keeps_the_newest() {
    let events: Vec<EarthquakeCandidate> = (0..10)
        .map(|t| candidate(&format!("e{t}"), Some(1.0), t, 0.0, 0.0, None, None))
        .collect();
    let order = select_earthquakes(&events, false, false, 3);
    assert_eq!(order, vec![9, 8, 7]);
    assert!(select_earthquakes(&events, false, false, 0).is_empty());
}

#[test]
fn magnitude_filter_drops_unknown_and_small_events() {
    let min = Some(4.5);
    let events = vec![
        candidate("small", Some(4.4), 10, 0.0, 0.0, min, None),
        candidate("unknown", None, 20, 0.0, 0.0, min, None),
        candidate("exact", Some(4.5), 30, 0.0, 0.0, min, None),
    ];
    let order = select_earthquakes(&events, true, false, 100);
    assert_eq!(order, vec![2]);
    let all = select_earthquakes(&events, false, false, 100);
    assert_eq!(all, vec![2, 1, 0]);
}
