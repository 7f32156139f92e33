//! Core of a small weather service: resolving a city name to coordinates
//! through a geocoding API, fetching an hourly forecast for those
//! coordinates, and pairing the returned time points with temperatures
//! into a render-ready display value.
//!
//! All network traffic stays outside this library: callers hand in the
//! response bodies as text and drive the request/response loop from the
//! actions the pipeline state machine emits.

pub mod display;
pub mod error;
pub mod forecast;
pub mod geo;
pub mod json;
pub mod pipeline;
pub mod url;

use vstd::prelude::*;

verus! {

/// The single query parameter of the weather endpoint: a city name.
pub struct WeatherQuery {
    pub city: String,
}
} // verus!
