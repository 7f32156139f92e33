//! The city-to-forecast resolution pipeline as an explicit state machine.
//!
//! A run starts in `Resolving`, moves to `Fetching` once the geocoding body
//! has yielded a coordinate pair, and ends in `Done` or `Failed`. Each step
//! consumes one event — a response body or a transport failure — and emits
//! the one action the driver must perform next: issue a request, or stop.
//! Every failure is terminal; in particular an empty geocoding result set
//! fails the run with `NotFound` before any forecast request is emitted.
//! The driver performs the network calls and owns nothing of the logic.

use vstd::prelude::*;

use crate::display::{entries_view, spec_entries, WeatherDisplay};
use crate::error::AppError;
use crate::forecast::{parse_forecast, spec_parse_forecast};
use crate::geo::{latlong_view, resolve_geo, spec_parse_geo, LatLong};
use crate::url::{forecast_url, geo_url, spec_forecast_url, spec_geo_url};

verus! {

/// Where a run stands.
pub enum PipelineState {
    /// Waiting for the geocoding response for `city`.
    Resolving { city: String },
    /// Waiting for the forecast response for `coord`.
    Fetching { city: String, coord: LatLong },
    /// The run ended with a render-ready display.
    Done { display: WeatherDisplay },
    /// The run ended with a terminal error.
    Failed { error: AppError },
}

/// What the outside world answered.
pub enum PipelineEvent {
    /// A response body arrived for the outstanding request.
    Response { body: String },
    /// The outstanding request could not be carried out.
    TransportFailure,
}

/// What the driver must do next.
pub enum PipelineAction {
    /// Issue a GET for `url` and feed the outcome back as the next event.
    Request { url: String },
    /// The run is over; render the state.
    Finish,
}

/// Starts a run for a city: the state awaits the geocoding response and the
/// action asks for exactly the geocoding endpoint of that city.
pub fn start(city: String) -> (r: (PipelineState, PipelineAction))
    ensures
        r.0 matches PipelineState::Resolving { city: c } && c@ == city@,
        r.1 matches PipelineAction::Request { url } && url@ == spec_geo_url(city@),
{
    let url = geo_url(city.as_str());
    (PipelineState::Resolving { city }, PipelineAction::Request { url })
}

/// Advances a run by one event.
///
/// The contract is the whole transition relation: a malformed body fails
/// with `Decode`, a transport failure with `Network`, an empty geocoding
/// result set with `NotFound` — and in every failing or final case the
/// emitted action is `Finish`, so no further request is ever asked for. A
/// resolved coordinate pair leads to exactly the forecast endpoint for the
/// first result; a decoded forecast leads to the display whose rows pair
/// the series index by index. Terminal states stay what they are.
pub fn step(state: PipelineState, event: PipelineEvent) -> (r: (PipelineState, PipelineAction))
    ensures
        (match state {
            PipelineState::Resolving { city } => (match event {
                PipelineEvent::TransportFailure => r.0 matches PipelineState::Failed { error }
                    && error == AppError::Network && r.1 is Finish,
                PipelineEvent::Response { body } => (match spec_parse_geo(body@) {
                    None => r.0 matches PipelineState::Failed { error } && error == AppError::Decode
                        && r.1 is Finish,
                    Some(results) => {
                        if results.len() == 0 {
                            r.0 matches PipelineState::Failed { error } && error
                                == AppError::NotFound && r.1 is Finish
                        } else {
                            (r.0 matches PipelineState::Fetching { city: c, coord } && c@ == city@
                                && latlong_view(coord) == results[0]) && (r.1 matches
                            PipelineAction::Request { url } && url@ == spec_forecast_url(
                                results[0].0,
                                results[0].1,
                            ))
                        }
                    },
                }),
            }),
            PipelineState::Fetching { city, coord } => (match event {
                PipelineEvent::TransportFailure => r.0 matches PipelineState::Failed { error }
                    && error == AppError::Network && r.1 is Finish,
                PipelineEvent::Response { body } => (match spec_parse_forecast(body@) {
                    None => r.0 matches PipelineState::Failed { error } && error == AppError::Decode
                        && r.1 is Finish,
                    Some(series) => r.0 matches PipelineState::Done { display } && display.city@
                        == city@ && entries_view(display.forecasts@) == spec_entries(
                        series.0,
                        series.1,
                    ) && r.1 is Finish,
                }),
            }),
            PipelineState::Done { display } => r.0 matches PipelineState::Done { display: d }
                && d.city@ == display.city@ && entries_view(d.forecasts@) == entries_view(
                display.forecasts@,
            ) && r.1 is Finish,
            PipelineState::Failed { error } => r.0 matches PipelineState::Failed { error: e } && e
                == error && r.1 is Finish,
        }),
{
    match state {
        PipelineState::Resolving { city } => match event {
            PipelineEvent::TransportFailure => (
                PipelineState::Failed { error: AppError::Network },
                PipelineAction::Finish,
            ),
            PipelineEvent::Response { body } => match resolve_geo(body.as_str()) {
                Err(e) => (PipelineState::Failed { error: e }, PipelineAction::Finish),
                Ok(coord) => {
                    let url = forecast_url(&coord);
                    (
                        PipelineState::Fetching { city, coord },
                        PipelineAction::Request { url },
                    )
                },
            },
        },
        PipelineState::Fetching { city, coord: _coord } => match event {
            PipelineEvent::TransportFailure => (
                PipelineState::Failed { error: AppError::Network },
                PipelineAction::Finish,
            ),
            PipelineEvent::Response { body } => match parse_forecast(body.as_str()) {
                None => (PipelineState::Failed { error: AppError::Decode }, PipelineAction::Finish),
                Some(resp) => (
                    PipelineState::Done { display: WeatherDisplay::new(city, resp) },
                    PipelineAction::Finish,
                ),
            },
        },
        PipelineState::Done { display } => (PipelineState::Done { display }, PipelineAction::Finish),
        PipelineState::Failed { error } => (
            PipelineState::Failed { error },
            PipelineAction::Finish,
        ),
    }
}

} // verus!
