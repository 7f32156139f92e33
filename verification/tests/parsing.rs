use weather::error::AppError;
use weather::forecast::parse_forecast;
use weather::geo::{parse_geo, resolve_geo};

#[test]
fn geo_single_result() {
    let body = "{\"results\":[{\"latitude\":51.5,\"longitude\":-0.12}]}";
    let g = parse_geo(body).expect("body matches the expected shape");
    assert_eq!(g.results.len(), 1);
    assert_eq!(g.results[0].latitude, "51.5");
    assert_eq!(g.results[0].longitude, "-0.12");
}

#[test]
fn geo_empty_results() {
    let g = parse_geo("{\"results\":[]}").expect("an empty array is well-formed");
    assert_eq!(g.results.len(), 0);
}

#[test]
fn geo_first_of_many() {
    let body = "{\"results\":[{\"latitude\":1,\"longitude\":2},{\"latitude\":3,\"longitude\":4}]}";
    let g = parse_geo(body).unwrap();
    assert_eq!(g.results.len(), 2);
    assert_eq!(g.results[0].latitude, "1");
    assert_eq!(g.results[1].longitude, "4");
}

#[test]
fn geo_unknown_members_are_skipped() {
    let body = "{\"generationtime_ms\":0.5,\"results\":[{\"name\":\"London\",\"latitude\":51.5,\"country\":{\"code\":\"GB\",\"tags\":[1,2,3]},\"longitude\":-0.12,\"ok\":true}]}";
    let g = parse_geo(body).unwrap();
    assert_eq!(g.results[0].latitude, "51.5");
    assert_eq!(g.results[0].longitude, "-0.12");
}

#[test]
fn geo_whitespace_tolerated() {
    let body = " {\n  \"results\" : [ { \"latitude\" : 51.5 , \"longitude\" : -0.12 } ]\n}\t";
    let g = parse_geo(body).unwrap();
    assert_eq!(g.results[0].latitude, "51.5");
}

#[test]
fn geo_malformed_bodies_rejected() {
    assert!(parse_geo("").is_none());
    assert!(parse_geo("not json").is_none());
    assert!(parse_geo("{").is_none());
    assert!(parse_geo("[]").is_none());
    assert!(parse_geo("{}").is_none());
    assert!(parse_geo("{\"results\":}").is_none());
    assert!(parse_geo("{\"results\":[}").is_none());
    assert!(parse_geo("{\"results\":[{}]}").is_none());
    assert!(parse_geo("{\"results\":[{\"latitude\":51.5}]}").is_none());
    assert!(parse_geo("{\"results\":[{\"latitude\":\"51.5\",\"longitude\":-0.12}]}").is_none());
    assert!(parse_geo("{\"results\":[]} trailing").is_none());
    assert!(parse_geo("{\"other\":1}").is_none());
}

#[test]
fn geo_duplicate_member_rejected() {
    assert!(parse_geo("{\"results\":[],\"results\":[]}").is_none());
    assert!(
        parse_geo("{\"results\":[{\"latitude\":1,\"latitude\":2,\"longitude\":3}]}").is_none()
    );
}

#[test]
fn geo_string_escapes_skipped() {
    let body = "{\"note\":\"a \\\"quoted\\\" value\",\"results\":[{\"latitude\":1,\"longitude\":2}]}";
    let g = parse_geo(body).unwrap();
    assert_eq!(g.results[0].latitude, "1");
}

#[test]
fn resolve_takes_first_result() {
    let body = "{\"results\":[{\"latitude\":51.5,\"longitude\":-0.12},{\"latitude\":9,\"longitude\":9}]}";
    let ll = resolve_geo(body).expect("a nonempty result set resolves");
    assert_eq!(ll.latitude, "51.5");
    assert_eq!(ll.longitude, "-0.12");
}

#[test]
fn resolve_empty_results_is_not_found() {
    match resolve_geo("{\"results\":[]}") {
        Err(AppError::NotFound) => (),
        _ => panic!("an empty result set must fail with NotFound"),
    }
}

#[test]
fn resolve_malformed_is_decode() {
    match resolve_geo("{oops") {
        Err(AppError::Decode) => (),
        _ => panic!("a malformed body must fail with Decode"),
    }
}

#[test]
fn forecast_basic() {
    let body = "{\"hourly\":{\"time\":[\"2024-01-01T00:00\"],\"temperature_2m\":[5.2]}}";
    let w = parse_forecast(body).expect("body matches the expected shape");
    assert_eq!(w.hourly.time, vec!["2024-01-01T00:00".to_string()]);
    assert_eq!(w.hourly.temperature_2m, vec!["5.2".to_string()]);
}

#[test]
fn forecast_full_body() {
    let body = "{\"latitude\":51.5,\"longitude\":-0.12,\"timezone\":\"GMT\",\"hourly_units\":{\"time\":\"iso8601\",\"temperature_2m\":\"\\u00b0C\"},\"hourly\":{\"time\":[\"2024-01-01T00:00\",\"2024-01-01T01:00\"],\"temperature_2m\":[5.2,-3.75]}}";
    let w = parse_forecast(body).unwrap();
    assert_eq!(w.hourly.time.len(), 2);
    assert_eq!(w.hourly.time[1], "2024-01-01T01:00");
    assert_eq!(w.hourly.temperature_2m[1], "-3.75");
}

#[test]
fn forecast_empty_series() {
    let body = "{\"hourly\":{\"time\":[],\"temperature_2m\":[]}}";
    let w = parse_forecast(body).unwrap();
    assert_eq!(w.hourly.time.len(), 0);
    assert_eq!(w.hourly.temperature_2m.len(), 0);
}

#[test]
fn forecast_number_forms() {
    let body = "{\"hourly\":{\"time\":[\"a\",\"b\",\"c\"],\"temperature_2m\":[0,1.5e2,-0.5]}}";
    let w = parse_forecast(body).unwrap();
    assert_eq!(w.hourly.temperature_2m, vec!["0", "1.5e2", "-0.5"]);
}

#[test]
fn forecast_malformed_bodies_rejected() {
    assert!(parse_forecast("").is_none());
    assert!(parse_forecast("{oops").is_none());
    assert!(parse_forecast("{}").is_none());
    assert!(parse_forecast("{\"hourly\":{}}").is_none());
    assert!(parse_forecast("{\"hourly\":{\"time\":[]}}").is_none());
    assert!(parse_forecast("{\"hourly\":{\"time\":[],\"temperature_2m\":[\"5\"]}}").is_none());
    assert!(parse_forecast("{\"hourly\":{\"time\":[1],\"temperature_2m\":[]}}").is_none());
    assert!(parse_forecast("{\"hourly\":{\"time\":[],\"temperature_2m\":[]}}x").is_none());
    assert!(
        parse_forecast("{\"hourly\":{\"time\":[],\"temperature_2m\":[],\"time\":[]}}").is_none()
    );
}

#[test]
fn forecast_unknown_members_skipped() {
    let body = "{\"hourly\":{\"wind\":[null,false],\"time\":[\"t\"],\"temperature_2m\":[1]}}";
    let w = parse_forecast(body).unwrap();
    assert_eq!(w.hourly.time, vec!["t"]);
    assert_eq!(w.hourly.temperature_2m, vec!["1"]);
}
