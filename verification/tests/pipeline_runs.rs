use weather::display::{Forecast, WeatherDisplay};
use weather::error::AppError;
use weather::forecast::{Hourly, WeatherResponse};
use weather::pipeline::{start, step, PipelineAction, PipelineEvent, PipelineState};
use weather::url::{forecast_url, geo_url, percent_encode};
use weather::geo::LatLong;
use weather::WeatherQuery;

fn response(body: &str) -> PipelineEvent {
    PipelineEvent::Response { body: body.to_string() }
}

#[test]
fn query_feeds_a_run() {
    let q = WeatherQuery { city: "Paris".to_string() };
    let (state, _) = start(q.city);
    match state {
        PipelineState::Resolving { city } => assert_eq!(city, "Paris"),
        _ => panic!("a fresh run awaits the geocoding response"),
    }
}

#[test]
fn start_requests_geocoding_endpoint() {
    let (state, action) = start("London".to_string());
    match state {
        PipelineState::Resolving { city } => assert_eq!(city, "London"),
        _ => panic!("a fresh run awaits the geocoding response"),
    }
    match action {
        PipelineAction::Request { url } => assert_eq!(
            url,
            "https://geocoding-api.open-meteo.com/v1/search?name=London&count=1&language=en&format=json"
        ),
        _ => panic!("a fresh run asks for the geocoding endpoint"),
    }
}

#[test]
fn city_names_are_percent_encoded() {
    let (_, action) = start("New York".to_string());
    match action {
        PipelineAction::Request { url } => assert_eq!(
            url,
            "https://geocoding-api.open-meteo.com/v1/search?name=New%20York&count=1&language=en&format=json"
        ),
        _ => panic!("a fresh run asks for the geocoding endpoint"),
    }
}

#[test]
fn full_run_produces_display() {
    let (state, action) = start("London".to_string());
    match &action {
        PipelineAction::Request { .. } => (),
        _ => panic!("expected the geocoding request"),
    }
    let (state, action) = step(
        state,
        response("{\"results\": [{\"latitude\": 51.5, \"longitude\": -0.12}]}"),
    );
    match &action {
        PipelineAction::Request { url } => assert_eq!(
            url,
            "https://api.open-meteo.com/v1/forecast?latitude=51.5&longitude=-0.12&hourly=temperature_2m"
        ),
        _ => panic!("a resolved city asks for the forecast endpoint"),
    }
    let (state, action) = step(
        state,
        response("{\"hourly\": {\"time\": [\"2024-01-01T00:00\"], \"temperature_2m\": [5.2]}}"),
    );
    assert!(matches!(action, PipelineAction::Finish));
    match state {
        PipelineState::Done { display } => {
            assert_eq!(display.city, "London");
            assert_eq!(display.forecasts.len(), 1);
            assert_eq!(display.forecasts[0].date, "2024-01-01T00:00");
            assert_eq!(display.forecasts[0].temperature, "5.2");
        },
        _ => panic!("the run must end in Done"),
    }
}

#[test]
fn empty_results_fail_without_forecast_request() {
    let (state, _) = start("Zzzzz".to_string());
    let (state, action) = step(state, response("{\"results\": []}"));
    // The action is Finish, never Request: no forecast call is issued.
    assert!(matches!(action, PipelineAction::Finish));
    match state {
        PipelineState::Failed { error } => assert_eq!(error, AppError::NotFound),
        _ => panic!("an empty result set must fail the run"),
    }
}

#[test]
fn malformed_forecast_fails_with_decode() {
    let (state, _) = start("London".to_string());
    let (state, _) = step(state, response("{\"results\":[{\"latitude\":1,\"longitude\":2}]}"));
    let (state, action) = step(state, response("this is not json"));
    assert!(matches!(action, PipelineAction::Finish));
    match state {
        PipelineState::Failed { error } => {
            assert_eq!(error, AppError::Decode);
            assert_eq!(error.status_code(), 500);
            assert_eq!(
                error.message(),
                "Something went wrong: upstream response could not be decoded"
            );
        },
        _ => panic!("a malformed forecast body must fail the run"),
    }
}

#[test]
fn transport_failure_fails_with_network() {
    let (state, _) = start("London".to_string());
    let (state, action) = step(state, PipelineEvent::TransportFailure);
    assert!(matches!(action, PipelineAction::Finish));
    match state {
        PipelineState::Failed { error } => assert_eq!(error, AppError::Network),
        _ => panic!("a transport failure must fail the run"),
    }
}

#[test]
fn terminal_states_are_stable() {
    let failed = PipelineState::Failed { error: AppError::NotFound };
    let (state, action) = step(failed, response("{\"results\": []}"));
    assert!(matches!(action, PipelineAction::Finish));
    match state {
        PipelineState::Failed { error } => assert_eq!(error, AppError::NotFound),
        _ => panic!("a failed run stays failed"),
    }
    let done = PipelineState::Done {
        display: WeatherDisplay { city: "X".to_string(), forecasts: Vec::new() },
    };
    let (state, action) = step(done, PipelineEvent::TransportFailure);
    assert!(matches!(action, PipelineAction::Finish));
    match state {
        PipelineState::Done { display } => assert_eq!(display.city, "X"),
        _ => panic!("a finished run stays finished"),
    }
}

#[test]
fn display_pairs_series_index_by_index() {
    let response = WeatherResponse {
        hourly: Hourly {
            time: vec!["t0".to_string(), "t1".to_string(), "t2".to_string()],
            temperature_2m: vec!["1.5".to_string(), "-2".to_string(), "0".to_string()],
        },
    };
    let display = WeatherDisplay::new("Oslo".to_string(), response);
    assert_eq!(display.city, "Oslo");
    assert_eq!(display.forecasts.len(), 3);
    assert_eq!(display.forecasts[0].date, "t0");
    assert_eq!(display.forecasts[0].temperature, "1.5");
    assert_eq!(display.forecasts[2].date, "t2");
    assert_eq!(display.forecasts[2].temperature, "0");
}

#[test]
fn display_shorter_series_bounds_output() {
    let response = WeatherResponse {
        hourly: Hourly {
            time: vec!["t0".to_string(), "t1".to_string(), "t2".to_string()],
            temperature_2m: vec!["1".to_string()],
        },
    };
    let display = WeatherDisplay::new("Oslo".to_string(), response);
    assert_eq!(display.forecasts.len(), 1);
    assert_eq!(display.forecasts[0].date, "t0");
    assert_eq!(display.forecasts[0].temperature, "1");

    let response = WeatherResponse {
        hourly: Hourly {
            time: Vec::new(),
            temperature_2m: vec!["1".to_string(), "2".to_string()],
        },
    };
    let display = WeatherDisplay::new("Oslo".to_string(), response);
    assert_eq!(display.forecasts.len(), 0);
}

#[test]
fn error_mapping() {
    assert_eq!(AppError::NotFound.status_code(), 404);
    assert_eq!(AppError::Network.status_code(), 500);
    assert_eq!(AppError::Decode.status_code(), 500);
    assert_eq!(AppError::NotFound.message(), "No results found");
    assert_eq!(
        AppError::Network.message(),
        "Something went wrong: upstream request failed"
    );
}

#[test]
fn percent_encoding_exact_values() {
    assert_eq!(percent_encode("London"), "London");
    assert_eq!(percent_encode("New York"), "New%20York");
    assert_eq!(percent_encode("AZaz09-._~"), "AZaz09-._~");
    assert_eq!(percent_encode("a&b=c"), "a%26b%3Dc");
    assert_eq!(percent_encode("S\u{e3}o Paulo"), "S%C3%A3o%20Paulo");
    assert_eq!(percent_encode(""), "");
}

#[test]
fn url_builders_exact_values() {
    assert_eq!(
        geo_url("Rio de Janeiro"),
        "https://geocoding-api.open-meteo.com/v1/search?name=Rio%20de%20Janeiro&count=1&language=en&format=json"
    );
    let coord = LatLong { latitude: "-22.9".to_string(), longitude: "-43.2".to_string() };
    assert_eq!(
        forecast_url(&coord),
        "https://api.open-meteo.com/v1/forecast?latitude=-22.9&longitude=-43.2&hourly=temperature_2m"
    );
}

#[test]
fn forecast_rows_build_by_hand() {
    let row = Forecast { date: "d".to_string(), temperature: "t".to_string() };
    assert_eq!(row.date, "d");
    assert_eq!(row.temperature, "t");
}
