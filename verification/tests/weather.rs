use weather::location::{parse_args, Invocation, LocationQuery};
use weather::response::{
    format_error, help_message, render_outcome, unknown_error_message, FetchOutcome, Main,
    Weather, WeatherError, WeatherResponse, Wind,
};
use weather::status::{classify_status, StatusClass};
use weather::url::{build_url, is_valid_url_str};

fn strings(parts: &[&str]) -> Vec<String> {
    parts.iter().map(|s| s.to_string()).collect()
}

fn query(parts: &[&str]) -> LocationQuery {
    LocationQuery { parts: strings(parts) }
}

fn austin_report() -> WeatherResponse {
    WeatherResponse {
        name: "Austin".to_string(),
        main: Main { temp: "72.5".to_string(), humidity: "40".to_string() },
        weather: vec![Weather {
            main: "Clear".to_string(),
            description: "clear sky".to_string(),
        }],
        wind: Wind { speed: "5".to_string() },
    }
}

#[test]
fn one_part_selects_fetch() {
    match parse_args(&strings(&["weather", "Austin"])) {
        Invocation::Fetch(q) => assert_eq!(q.parts, strings(&["Austin"])),
        Invocation::Help => panic!("expected the fetch path"),
    }
}

#[test]
fn two_parts_select_fetch() {
    match parse_args(&strings(&["weather", "Austin", "TX"])) {
        Invocation::Fetch(q) => assert_eq!(q.parts, strings(&["Austin", "TX"])),
        Invocation::Help => panic!("expected the fetch path"),
    }
}

#[test]
fn three_parts_select_fetch() {
    match parse_args(&strings(&["weather", "Austin", "TX", "US"])) {
        Invocation::Fetch(q) => assert_eq!(q.parts, strings(&["Austin", "TX", "US"])),
        Invocation::Help => panic!("expected the fetch path"),
    }
}

#[test]
fn no_parts_select_help() {
    assert!(matches!(parse_args(&strings(&["weather"])), Invocation::Help));
    assert!(matches!(parse_args(&strings(&[])), Invocation::Help));
}

#[test]
fn four_parts_select_help() {
    let args = strings(&["weather", "Austin", "TX", "US", "extra"]);
    assert!(matches!(parse_args(&args), Invocation::Help));
}

#[test]
fn query_joined_in_order() {
    assert_eq!(query(&["Austin", "TX", "US"]).joined(), "Austin,TX,US");
    assert_eq!(query(&["Austin", "TX"]).joined(), "Austin,TX");
    assert_eq!(query(&["Austin"]).joined(), "Austin");
}

#[test]
fn url_has_fixed_shape() {
    let url = build_url("KEY", &query(&["Austin", "TX", "US"]));
    assert_eq!(
        url,
        "https://api.openweathermap.org/data/2.5/weather?appid=KEY&q=Austin,TX,US&units=imperial"
    );
}

#[test]
fn url_with_one_part() {
    let url = build_url("k1", &query(&["London"]));
    assert_eq!(
        url,
        "https://api.openweathermap.org/data/2.5/weather?appid=k1&q=London&units=imperial"
    );
}

#[test]
fn empty_parts_pass_through_unvalidated() {
    assert_eq!(query(&["", ""]).joined(), ",");
    let url = build_url("k", &query(&[""]));
    assert_eq!(
        url,
        "https://api.openweathermap.org/data/2.5/weather?appid=k&q=&units=imperial"
    );
    assert!(is_valid_url_str(url.as_str()));
}

#[test]
fn built_url_is_syntactically_valid() {
    let url = build_url("abc123", &query(&["Austin", "TX", "US"]));
    assert!(is_valid_url_str(url.as_str()));
}

#[test]
fn url_with_space_is_not_valid() {
    let url = build_url("abc123", &query(&["New York"]));
    assert!(!is_valid_url_str(url.as_str()));
}

#[test]
fn url_checker_rejects_other_schemes() {
    assert!(!is_valid_url_str("http://api.openweathermap.org/data/2.5/weather?q=x"));
    assert!(!is_valid_url_str("https://"));
    assert!(is_valid_url_str("https://a"));
}

#[test]
fn success_statuses() {
    assert_eq!(classify_status(200), StatusClass::Success);
    assert_eq!(classify_status(204), StatusClass::Success);
    assert_eq!(classify_status(299), StatusClass::Success);
}

#[test]
fn client_error_statuses() {
    assert_eq!(classify_status(400), StatusClass::ClientError);
    assert_eq!(classify_status(404), StatusClass::ClientError);
    assert_eq!(classify_status(499), StatusClass::ClientError);
}

#[test]
fn other_statuses() {
    assert_eq!(classify_status(100), StatusClass::Other);
    assert_eq!(classify_status(301), StatusClass::Other);
    assert_eq!(classify_status(500), StatusClass::Other);
    assert_eq!(classify_status(0), StatusClass::Other);
}

#[test]
fn canned_success_renders_exactly() {
    let report = austin_report();
    assert_eq!(
        report.to_display_string(),
        "weather in Austin:\n  72.5\u{b0}F clear sky\n  humidity: 40%\n  wind speed: 5mph"
    );
}

#[test]
fn canned_client_error_renders_exactly() {
    assert_eq!(classify_status(404), StatusClass::ClientError);
    assert_eq!(format_error("city not found"), "an error occurred: city not found");
}

#[test]
fn status_500_renders_generic_line() {
    assert_eq!(classify_status(500), StatusClass::Other);
    assert_eq!(unknown_error_message(), "an unknown error occurred");
}

#[test]
fn outcome_rendering_matches_each_path() {
    let success = FetchOutcome::Success(austin_report());
    assert_eq!(
        render_outcome(&success),
        "weather in Austin:\n  72.5\u{b0}F clear sky\n  humidity: 40%\n  wind speed: 5mph"
    );
    let client = FetchOutcome::ClientError(WeatherError {
        message: "city not found".to_string(),
    });
    assert_eq!(render_outcome(&client), "an error occurred: city not found");
    assert_eq!(render_outcome(&FetchOutcome::Other), "an unknown error occurred");
}

#[test]
fn help_text() {
    assert_eq!(help_message(), "Usage:\n  $ weather <city> [region] [country]");
}
