use wictk::feeds::earthquakes::{
    check_event, parse_feed, EarthquakeAlertLevel, EarthquakeStatus, EventFacts, FeedError,
};

/// The event of the reference feed: us-test, a reviewed earthquake at
/// (10.2, 59.1) 8.3 km deep, without tsunami.
fn feature() -> EventFacts {
    EventFacts {
        id: "us-test".to_string(),
        feature_type: "Feature".to_string(),
        event_type: "earthquake".to_string(),
        geometry_type: "Point".to_string(),
        coordinate_count: 3,
        coordinates_valid: true,
        time_millis: 1_721_300_000_000,
        updated_millis: 1_721_300_060_000,
        tsunami: 0,
    }
}

// The magnitude, place, coordinates, depth and significance of an event are
// floating-point or optional values that the caller decodes and carries into
// the earthquake unchanged; the library decides which events are accepted, and
// the status and alert level they get from the feed's names.
#[test]
fn parses_geojson_event() {
    let event = feature();
    let earthquakes = parse_feed("FeatureCollection", &vec![feature()]).unwrap();
    assert_eq!(earthquakes.len(), 1);
    let earthquake = &earthquakes[0];
    assert_eq!(earthquake.index, 0);
    assert_eq!(event.id, "us-test");
    assert_eq!(EarthquakeAlertLevel::from_name("green"), EarthquakeAlertLevel::Green);
    assert_eq!(EarthquakeStatus::from_name("reviewed"), EarthquakeStatus::Reviewed);
    assert!(!earthquake.tsunami);
}

#[test]
fn accepts_missing_optional_properties_and_unknown_enums() {
    // The magnitude, place, significance and alert level are optional: the
    // checks read none of them, so an event without them is accepted.
    let earthquakes = parse_feed("FeatureCollection", &vec![feature()]).unwrap();
    assert_eq!(earthquakes.len(), 1);
    assert!(matches!(check_event(&feature()), Ok(false)));
    assert_eq!(EarthquakeStatus::from_name("future-status"), EarthquakeStatus::Unknown);
}

#[test]
fn accepts_times_within_the_representable_range_only() {
    let first_millis: i64 = -8_334_601_228_800_000;
    let last_millis: i64 = 8_210_266_876_799_999;
    let mut e = feature();
    e.time_millis = first_millis;
    assert!(matches!(check_event(&e), Ok(false)));
    e.time_millis = last_millis;
    assert!(matches!(check_event(&e), Ok(false)));
    e.time_millis = first_millis - 1;
    assert!(matches!(check_event(&e), Err(FeedError::InvalidTime(id)) if id == "us-test"));
    e.time_millis = last_millis + 1;
    assert!(matches!(check_event(&e), Err(FeedError::InvalidTime(_))));
    let mut e = feature();
    e.updated_millis = last_millis;
    assert!(matches!(check_event(&e), Ok(false)));
    e.updated_millis = last_millis + 1;
    assert!(matches!(check_event(&e), Err(FeedError::InvalidUpdated(_))));
    e.updated_millis = first_millis - 1;
    assert!(matches!(check_event(&e), Err(FeedError::InvalidUpdated(_))));
}

#[test]
fn rejects_malformed_geometry() {
    let mut event = feature();
    event.coordinate_count = 2;
    let result = parse_feed("FeatureCollection", &vec![event]);
    assert!(result.is_err());
    assert!(matches!(result, Err(FeedError::MissingCoordinates(id)) if id == "us-test"));
}

#[test]
fn ignores_non_earthquake_events() {
    let mut event = feature();
    event.event_type = "quarry blast".to_string();
    let earthquakes = parse_feed("FeatureCollection", &vec![event]).unwrap();
    assert!(earthquakes.is_empty());
}

#[test]
fn rejects_invalid_timestamp() {
    let mut event = feature();
    event.time_millis = i64::MAX;
    let result = parse_feed("FeatureCollection", &vec![event]);
    assert!(matches!(result, Err(FeedError::InvalidTime(_))));
}

#[test]
fn rejects_documents_that_are_not_collections() {
    let result = parse_feed("Feature", &vec![feature()]);
    assert!(matches!(result, Err(FeedError::NotAFeatureCollection(t)) if t == "Feature"));
}

#[test]
fn keeps_feed_order_and_skips_other_events() {
    let mut blast = feature();
    blast.event_type = "quarry blast".to_string();
    blast.coordinate_count = 0;
    let mut second = feature();
    second.id = "second".to_string();
    second.tsunami = 1;
    let accepted = parse_feed("FeatureCollection", &vec![feature(), blast, second]).unwrap();
    assert_eq!(accepted.len(), 2);
    assert_eq!(accepted[0].index, 0);
    assert!(!accepted[0].tsunami);
    assert_eq!(accepted[1].index, 2);
    assert!(accepted[1].tsunami);
}

#[test]
fn reports_the_first_failing_earthquake() {
    let mut first = feature();
    first.id = "first".to_string();
    first.geometry_type = "Polygon".to_string();
    let mut second = feature();
    second.id = "second".to_string();
    second.feature_type = "Thing".to_string();
    let result = parse_feed("FeatureCollection", &vec![feature(), first, second]);
    assert!(matches!(result, Err(FeedError::NotAPoint(id)) if id == "first"));
}

#[test]
fn each_event_check_has_its_error() {
    let mut e = feature();
    e.feature_type = "Thing".to_string();
    assert!(matches!(check_event(&e), Err(FeedError::NotAFeature(_))));
    let mut e = feature();
    e.geometry_type = "LineString".to_string();
    assert!(matches!(check_event(&e), Err(FeedError::NotAPoint(_))));
    let mut e = feature();
    e.coordinates_valid = false;
    assert!(matches!(check_event(&e), Err(FeedError::InvalidCoordinates(_))));
    let mut e = feature();
    e.updated_millis = i64::MIN;
    assert!(matches!(check_event(&e), Err(FeedError::InvalidUpdated(_))));
    let mut e = feature();
    e.tsunami = 2;
    assert!(matches!(check_event(&e), Err(FeedError::InvalidTsunami(_, 2))));
    let mut e = feature();
    e.tsunami = 1;
    assert!(matches!(check_event(&e), Ok(true)));
    e.time_millis = -1;
    assert!(matches!(check_event(&e), Ok(true)));
}

#[test]
fn feed_names_map_to_levels_and_statuses() {
    assert_eq!(EarthquakeStatus::from_name("reviewed"), EarthquakeStatus::Reviewed);
    assert_eq!(EarthquakeStatus::from_name("automatic"), EarthquakeStatus::Automatic);
    assert_eq!(EarthquakeStatus::from_name("deleted"), EarthquakeStatus::Deleted);
    assert_eq!(EarthquakeStatus::from_name("future-status"), EarthquakeStatus::Unknown);
    assert_eq!(EarthquakeAlertLevel::from_name("green"), EarthquakeAlertLevel::Green);
    assert_eq!(EarthquakeAlertLevel::from_name("red"), EarthquakeAlertLevel::Red);
    assert_eq!(EarthquakeAlertLevel::from_name("Green"), EarthquakeAlertLevel::Unknown);
    for level in [
        EarthquakeAlertLevel::Green,
        EarthquakeAlertLevel::Yellow,
        EarthquakeAlertLevel::Orange,
        EarthquakeAlertLevel::Red,
        EarthquakeAlertLevel::Unknown,
    ] {
        assert_eq!(EarthquakeAlertLevel::from_name(level.as_str()), level);
    }
    assert_eq!(EarthquakeStatus::Reviewed.as_str(), "reviewed");
}
