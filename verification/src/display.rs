//! The display mapper: pairing the hourly time points with the hourly
//! temperatures, index by index, into render-ready rows.

use vstd::prelude::*;

use crate::forecast::{strs_view, WeatherResponse};

verus! {

/// One display row: a time point paired with the temperature read at it.
pub struct Forecast {
    pub date: String,
    pub temperature: String,
}

/// The render-ready artifact: the city and its rows, in the order the API
/// answered.
pub struct WeatherDisplay {
    pub city: String,
    pub forecasts: Vec<Forecast>,
}

/// The mathematical value of one display row.
pub open spec fn entry_view(f: Forecast) -> (Seq<char>, Seq<char>) {
    (f.date@, f.temperature@)
}

/// The mathematical value of a list of display rows.
pub open spec fn entries_view(v: Seq<Forecast>) -> Seq<(Seq<char>, Seq<char>)> {
    Seq::new(v.len(), |i: int| entry_view(v[i]))
}

/// The smaller of two lengths.
pub open spec fn spec_min(a: int, b: int) -> int {
    if a <= b {
        a
    } else {
        b
    }
}

/// The pairing policy: one row per index below both lengths, so the shorter
/// series bounds the output and no index is ever read out of range.
pub open spec fn spec_entries(time: Seq<Seq<char>>, temps: Seq<Seq<char>>) -> Seq<(
    Seq<char>,
    Seq<char>,
)> {
    Seq::new(spec_min(time.len() as int, temps.len() as int) as nat, |i: int| (time[i], temps[i]))
}

impl WeatherDisplay {
    /// Builds the display for a city from a decoded forecast response:
    /// exactly `min(len(time), len(temperature_2m))` rows, in order, row `i`
    /// pairing `time[i]` with `temperature_2m[i]`.
    pub fn new(city: String, response: WeatherResponse) -> (r: WeatherDisplay)
        ensures
            r.city@ == city@,
            r.forecasts@.len() == spec_min(
                response.hourly.time@.len() as int,
                response.hourly.temperature_2m@.len() as int,
            ),
            forall|i: int|
                0 <= i < r.forecasts@.len() ==> r.forecasts@[i].date@
                    == response.hourly.time@[i]@ && r.forecasts@[i].temperature@
                    == response.hourly.temperature_2m@[i]@,
            entries_view(r.forecasts@) == spec_entries(
                strs_view(response.hourly.time@),
                strs_view(response.hourly.temperature_2m@),
            ),
    {
        let n = if response.hourly.time.len() <= response.hourly.temperature_2m.len() {
            response.hourly.time.len()
        } else {
            response.hourly.temperature_2m.len()
        };
        let mut forecasts: Vec<Forecast> = Vec::new();
        let mut i: usize = 0;
        while i < n
            invariant
                0 <= i <= n,
                n as int == spec_min(
                    response.hourly.time@.len() as int,
                    response.hourly.temperature_2m@.len() as int,
                ),
                forecasts@.len() == i,
                forall|j: int|
                    0 <= j < i ==> forecasts@[j].date@ == response.hourly.time@[j]@
                        && forecasts@[j].temperature@ == response.hourly.temperature_2m@[j]@,
            decreases n - i,
        {
            let date = response.hourly.time[i].clone();
            let temperature = response.hourly.temperature_2m[i].clone();
            forecasts.push(Forecast { date, temperature });
            i = i + 1;
        }
        proof {
            assert(entries_view(forecasts@) =~= spec_entries(
                strs_view(response.hourly.time@),
                strs_view(response.hourly.temperature_2m@),
            ));
        }
        WeatherDisplay { city, forecasts }
    }
}

} // verus!
