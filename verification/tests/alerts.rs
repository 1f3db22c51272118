use wictk::backend::alerts::{alert_contains_location, alerts_containing, AlertCoverage};

#[test]
fn met_alert_holds_the_place_when_a_polygon_does() {
    assert!(alert_contains_location(&AlertCoverage::Met(vec![true])));
    assert!(alert_contains_location(&AlertCoverage::Met(vec![false, false, true])));
    assert!(!alert_contains_location(&AlertCoverage::Met(vec![false, false])));
    assert!(!alert_contains_location(&AlertCoverage::Met(vec![])));
}

#[test]
fn nve_alert_never_holds_the_place() {
    assert!(!alert_contains_location(&AlertCoverage::Nve));
}

#[test]
fn filter_keeps_covering_alerts_in_order() {
    let alerts = vec![
        AlertCoverage::Met(vec![false]),
        AlertCoverage::Nve,
        AlertCoverage::Met(vec![false, true]),
        AlertCoverage::Met(vec![true]),
    ];
    assert_eq!(alerts_containing(&alerts), vec![2, 3]);
    assert!(alerts_containing(&vec![]).is_empty());
    assert!(alerts_containing(&vec![AlertCoverage::Nve]).is_empty());
}
