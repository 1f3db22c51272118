use wictk::client_logger::weather_client::{
    alerts_url, check_response_status, earthquakes_url, lightnings_url, nowcast_url,
    HttpStatusError, WeatherClient,
};

#[test]
fn request_urls_extend_the_service_url() {
    let url = "http://wictk.frikk.io/";
    assert_eq!(
        nowcast_url(url, "Trondheim"),
        "http://wictk.frikk.io/api/nowcasts?location=Trondheim"
    );
    assert_eq!(lightnings_url(url), "http://wictk.frikk.io/api/recent_lightning");
    assert_eq!(alerts_url(url), "http://wictk.frikk.io/api/alerts");
    assert_eq!(earthquakes_url(url), "http://wictk.frikk.io/api/earthquakes");
}

#[test]
fn only_success_statuses_are_accepted() {
    assert_eq!(check_response_status(200), Ok(()));
    assert_eq!(check_response_status(204), Ok(()));
    assert_eq!(check_response_status(500), Err(HttpStatusError { status: 500 }));
    assert_eq!(check_response_status(404), Err(HttpStatusError { status: 404 }));
    assert_eq!(check_response_status(199), Err(HttpStatusError { status: 199 }));
}

#[test]
fn weather_client_holds_its_client() {
    let client = WeatherClient::new(reqwest::Client::new());
    let _ = client.client();
}
