use wakatime_bot::adapter::wakatime_adapter::StatsResponse;
use wakatime_bot::adapter::WakaTimeAdapter;
use wakatime_bot::application::config::{TimeRange, WakaTimeConfig};
use wakatime_bot::error::Error;
use wakatime_bot::infrastructure::middleware::LoggingMiddleware;

fn source(base_url: &str, time_range: TimeRange) -> WakaTimeAdapter {
    let cfg = WakaTimeConfig {
        api_key: String::from("waka_key"),
        base_url: String::from(base_url),
        time_range,
    };
    let client = reqwest_middleware::ClientBuilder::new(reqwest::Client::new()).build();
    WakaTimeAdapter::new(cfg, client)
}

fn answer(status: u16, body: &str) -> StatsResponse {
    StatsResponse { status, body: String::from(body) }
}

#[test]
fn request_goes_to_the_statistics_of_the_period() {
    let week = source("https://wakatime.com/api/v1/", TimeRange::Last7Days).request().unwrap();
    assert_eq!(week.url, "https://wakatime.com/api/v1/users/current/stats/last_7_days");
    let month = source("https://wakatime.com/api/v1/", TimeRange::Last30Days).request().unwrap();
    assert_eq!(month.url, "https://wakatime.com/api/v1/users/current/stats/last_30_days");
}

#[test]
fn request_carries_the_key() {
    let request = source("https://wakatime.com/api/v1/", TimeRange::Last7Days).request().unwrap();
    assert_eq!(request.authorization, "Basic waka_key");
}

#[test]
fn request_path_replaces_the_last_segment_of_the_base() {
    let request = source("https://wakatime.com/api/v1", TimeRange::Last7Days).request().unwrap();
    assert_eq!(request.url, "https://wakatime.com/api/users/current/stats/last_7_days");
    let host = source("http://localhost:8080", TimeRange::Last30Days).request().unwrap();
    assert_eq!(host.url, "http://localhost:8080/users/current/stats/last_30_days");
}

#[test]
fn request_needs_an_absolute_base() {
    for base in ["", "wakatime.com/api/v1/", "/api/v1/", "https://"] {
        let refused = source(base, TimeRange::Last7Days).request();
        assert_eq!(refused.err(), Some(Error::FetchFailed));
    }
}

#[test]
fn request_needs_a_base_that_can_hold_a_path() {
    let refused = source("mailto:me@example.com", TimeRange::Last7Days).request();
    assert_eq!(refused.err(), Some(Error::FetchFailed));
}

#[test]
fn body_of_a_successful_answer_is_the_data() {
    let adapter = source("https://wakatime.com/api/v1/", TimeRange::Last7Days);
    assert_eq!(adapter.fetch_data(answer(200, "{\"data\":{}}")), Ok(String::from("{\"data\":{}}")));
    assert_eq!(adapter.fetch_data(answer(204, "")), Ok(String::new()));
    assert_eq!(adapter.fetch_data(answer(299, "x")), Ok(String::from("x")));
}

#[test]
fn answer_without_success_is_a_failed_fetch() {
    let adapter = source("https://wakatime.com/api/v1/", TimeRange::Last7Days);
    for status in [0u16, 100, 199, 300, 301, 401, 404, 500, 503, 999, u16::MAX] {
        assert_eq!(adapter.fetch_data(answer(status, "body")), Err(Error::FetchFailed));
    }
}

#[test]
fn adapter_hands_out_its_client() {
    let adapter = source("https://wakatime.com/api/v1/", TimeRange::Last7Days);
    let _request = adapter.client().get("https://wakatime.com/api/v1/");
}

#[test]
fn request_is_noted_with_its_path_and_time() {
    let note = LoggingMiddleware.timing_line("/api/v1/users/current/stats/last_7_days", 153);
    assert_eq!(note, "Request to '/api/v1/users/current/stats/last_7_days' took '153'ms");
    assert_eq!(LoggingMiddleware.timing_line("/", 0), "Request to '/' took '0'ms");
    assert_eq!(
        LoggingMiddleware.timing_line("", u128::MAX),
        "Request to '' took '340282366920938463463374607431768211455'ms"
    );
}
