use wictk::backend::locations::{location_from_lookup, AlertQuery, LocationParams, LocationQuery};

fn params(location: Option<&str>, lat: Option<&str>, lon: Option<&str>) -> LocationParams {
    LocationParams {
        location: location.map(|s| s.to_string()),
        lat: lat.map(|s| s.to_string()),
        lon: lon.map(|s| s.to_string()),
    }
}

#[test]
fn location_name_wins_over_coordinates() {
    match params(Some("Oslo"), Some("59.9"), Some("10.7")).into_location_query() {
        Some(LocationQuery::Location(city)) => assert_eq!(city.location, "Oslo"),
        _ => panic!("expected a city"),
    }
}

#[test]
fn coordinates_need_both_values() {
    match params(None, Some("59.91273"), Some("10.74609")).into_location_query() {
        Some(LocationQuery::Coordinates(c)) => {
            assert_eq!(c.lat, "59.91273");
            assert_eq!(c.lon, "10.74609");
        }
        _ => panic!("expected coordinates"),
    }
    assert!(params(None, Some("59.9"), None).into_location_query().is_none());
    assert!(params(None, None, Some("10.7")).into_location_query().is_none());
    assert!(params(None, None, None).into_location_query().is_none());
}

#[test]
fn missing_location_is_a_bad_request() {
    match params(None, Some("59.9"), None).require_location_query() {
        Err(err) => {
            assert_eq!(err.status, 400);
            assert_eq!(
                err.message,
                "Missing location parameter. Provide 'location' or 'lat' and 'lon'"
            );
        }
        Ok(_) => panic!("accepted parameters without a location"),
    }
    assert!(params(Some("Bergen"), None, None).require_location_query().is_ok());
}

#[test]
fn alert_queries_read_locations_alike() {
    let query = AlertQuery {
        location: None,
        lat: Some("63.43".to_string()),
        lon: Some("10.40".to_string()),
    };
    match query.into_location_query() {
        Some(LocationQuery::Coordinates(c)) => {
            assert_eq!(c.lat, "63.43");
            assert_eq!(c.lon, "10.40");
        }
        _ => panic!("expected coordinates"),
    }
    let query = AlertQuery { location: Some("Oslo".to_string()), lat: None, lon: None };
    assert!(matches!(query.into_location_query(), Some(LocationQuery::Location(_))));
}

#[test]
fn lookup_answers_first_match_or_error() {
    assert_eq!(location_from_lookup(Some(vec!["Oslo", "Oslo kommune"])).ok(), Some("Oslo"));
    match location_from_lookup::<&str>(Some(Vec::new())) {
        Err(err) => {
            assert_eq!(err.status, 404);
            assert_eq!(err.message, "No location found");
        }
        Ok(_) => panic!("found a location in an empty answer"),
    }
    match location_from_lookup::<&str>(None) {
        Err(err) => {
            assert_eq!(err.status, 500);
            assert_eq!(err.message, "Failed to get location data from OpenWeatherMap");
        }
        Ok(_) => panic!("found a location without an answer"),
    }
}
