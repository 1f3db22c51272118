use wictk::backend::earthquake_query::{
    EarthquakeLocation, EarthquakeQueryInput, RadiusChoice, ValidatedEarthquakeQuery,
};

/// The facts validation reads from query parameters, the floating-point
/// checks made here as the endpoint makes them.
fn input(
    location: Option<&str>,
    lat: Option<f64>,
    lon: Option<f64>,
    radius_km: Option<f64>,
    min_magnitude: Option<f64>,
    limit: Option<usize>,
) -> EarthquakeQueryInput {
    let coordinates_in_range = match (lat, lon) {
        (Some(lat), Some(lon)) => {
            lat.is_finite()
                && lon.is_finite()
                && (-90.0..=90.0).contains(&lat)
                && (-180.0..=180.0).contains(&lon)
        }
        _ => false,
    };
    EarthquakeQueryInput {
        location: location.map(|l| l.to_string()),
        lat_given: lat.is_some(),
        lon_given: lon.is_some(),
        coordinates_in_range,
        radius_valid: radius_km.map(|r| r.is_finite() && r > 0.0 && r <= 20_001.6),
        min_magnitude_finite: min_magnitude.map(|m| m.is_finite()),
        limit,
    }
}

#[test]
fn rejects_invalid_queries() {
    let invalid_queries = [
        ("lat=59.9", input(None, Some(59.9), None, None, None, None)),
        ("lat=91&lon=10", input(None, Some(91.0), Some(10.0), None, None, None)),
        (
            "location=Oslo&lat=59.9&lon=10.7",
            input(Some("Oslo"), Some(59.9), Some(10.7), None, None, None),
        ),
        ("radius_km=25", input(None, None, None, Some(25.0), None, None)),
        ("location=Oslo&radius_km=0", input(Some("Oslo"), None, None, Some(0.0), None, None)),
        (
            "location=Oslo&radius_km=20002",
            input(Some("Oslo"), None, None, Some(20002.0), None, None),
        ),
        ("min_magnitude=NaN", input(None, None, None, None, Some(f64::NAN), None)),
        ("limit=0", input(None, None, None, None, None, Some(0))),
        ("limit=501", input(None, None, None, None, None, Some(501))),
        ("location=%20", input(Some(" "), None, None, None, None, None)),
    ];

    for (query, facts) in invalid_queries {
        match ValidatedEarthquakeQuery::validate(facts) {
            Err(err) => assert_eq!(err.status, 400, "query: {query}"),
            Ok(_) => panic!("query: {query} was accepted"),
        }
    }
}

#[test]
fn each_rule_has_its_message() {
    let cases = [
        (
            input(Some("Oslo"), None, Some(10.0), None, None, None),
            "Provide either 'location' or 'lat' and 'lon', not both",
        ),
        (input(Some(" \t"), None, None, None, None, None), "'location' must not be empty"),
        (
            input(None, Some(59.0), Some(181.0), None, None, None),
            "Latitude or longitude is out of range",
        ),
        (input(None, None, Some(10.0), None, None, None), "Provide both 'lat' and 'lon'"),
        (
            input(None, None, None, Some(5.0), None, None),
            "'radius_km' requires 'location' or 'lat' and 'lon'",
        ),
        (
            input(None, Some(1.0), Some(1.0), Some(f64::INFINITY), None, None),
            "'radius_km' must be greater than 0 and no more than 20001.6",
        ),
        (
            input(None, None, None, None, Some(f64::INFINITY), None),
            "'min_magnitude' must be a finite number",
        ),
        (input(None, None, None, None, None, Some(0)), "'limit' must be between 1 and 500"),
    ];
    for (facts, message) in cases {
        match ValidatedEarthquakeQuery::validate(facts) {
            Err(err) => {
                assert_eq!(err.status, 400);
                assert_eq!(err.message, message);
            }
            Ok(_) => panic!("accepted a query that breaks: {message}"),
        }
    }
}

#[test]
fn city_queries_default_the_radius_and_trim_the_name() {
    let query = match ValidatedEarthquakeQuery::validate(input(
        Some("  Oslo "),
        None,
        None,
        None,
        Some(2.0),
        None,
    )) {
        Ok(query) => query,
        Err(err) => panic!("refused: {}", err.message),
    };
    match &query.location {
        Some(EarthquakeLocation::City(name)) => assert_eq!(name, "Oslo"),
        _ => panic!("expected a city"),
    }
    assert_eq!(query.radius, RadiusChoice::Default);
    assert!(query.filter_magnitude);
    assert_eq!(query.limit, 100);
}

#[test]
fn coordinate_queries_keep_the_requested_radius() {
    let query = match ValidatedEarthquakeQuery::validate(input(
        None,
        Some(59.9139),
        Some(10.7522),
        Some(25.0),
        None,
        Some(500),
    )) {
        Ok(query) => query,
        Err(err) => panic!("refused: {}", err.message),
    };
    assert!(matches!(query.location, Some(EarthquakeLocation::Coordinates)));
    assert_eq!(query.radius, RadiusChoice::Requested);
    assert!(!query.filter_magnitude);
    assert_eq!(query.limit, 500);
}

#[test]
fn queries_without_centre_filter_nothing_by_distance() {
    let query = match ValidatedEarthquakeQuery::validate(input(None, None, None, None, None, Some(1))) {
        Ok(query) => query,
        Err(err) => panic!("refused: {}", err.message),
    };
    assert!(query.location.is_none());
    assert_eq!(query.radius, RadiusChoice::NoFilter);
    assert_eq!(query.limit, 1);
}
