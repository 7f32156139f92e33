//! The geocoding half of the pipeline: decoding the geocoding API's response
//! body and resolving a city to the first returned coordinate pair.
//!
//! The body is expected to be a JSON object with a member `"results"` whose
//! value is an array of objects, each carrying number members `"latitude"`
//! and `"longitude"`. Unknown members anywhere are skipped; a duplicate of a
//! consumed member is a decode failure, as is any text that does not match
//! the grammar. Coordinates are carried as their decimal number tokens, and
//! keys are compared as they stand in the body, escapes unprocessed.

use vstd::prelude::*;

use crate::error::AppError;
use crate::json::{
    is_digit, skip_value, skip_ws, spec_number_end, spec_skip_value, spec_skip_ws,
    spec_string_end, str_eq, string_end, number_end,
};

verus! {

/// One geocoding result: a coordinate pair, each coordinate the decimal
/// number token the API answered with.
pub struct LatLong {
    pub latitude: String,
    pub longitude: String,
}

/// The decoded geocoding response: the ordered result records.
pub struct GeoResponse {
    pub results: Vec<LatLong>,
}

/// The mathematical value of a coordinate pair: its two number tokens.
pub open spec fn latlong_view(l: LatLong) -> (Seq<char>, Seq<char>) {
    (l.latitude@, l.longitude@)
}

/// The mathematical value of a result list.
pub open spec fn latlongs_view(v: Seq<LatLong>) -> Seq<(Seq<char>, Seq<char>)> {
    Seq::new(v.len(), |i: int| latlong_view(v[i]))
}

/// The mathematical value of an optional string.
pub open spec fn opt_str_view(o: Option<String>) -> Option<Seq<char>> {
    match o {
        Some(x) => Some(x@),
        None => None,
    }
}

/// The mathematical value of an optional result list.
pub open spec fn opt_results_view(o: Option<Vec<LatLong>>) -> Option<Seq<(Seq<char>, Seq<char>)>> {
    match o {
        Some(v) => Some(latlongs_view(v@)),
        None => None,
    }
}

/// Members of one result object, starting at the opening quote of a key.
/// `lat` and `lon` hold the number tokens of the members already consumed.
pub open spec fn spec_latlong_members(
    s: Seq<char>,
    pos: int,
    lat: Option<Seq<char>>,
    lon: Option<Seq<char>>,
) -> Option<((Seq<char>, Seq<char>), int)>
    decreases s.len() - pos, 1int,
{
    if pos < 0 || pos >= s.len() || s[pos] != '"' {
        None
    } else {
        match spec_string_end(s, pos + 1) {
            None => None,
            Some(p1) => {
                let key = s.subrange(pos + 1, p1 - 1);
                let p2 = spec_skip_ws(s, p1);
                if p2 >= s.len() || s[p2] != ':' {
                    None
                } else {
                    let p3 = spec_skip_ws(s, p2 + 1);
                    if key == "latitude"@ || key == "longitude"@ {
                        if p3 >= s.len() || !(s[p3] == '-' || is_digit(s[p3])) {
                            None
                        } else {
                            let e = spec_number_end(s, p3 + 1);
                            if e < pos || e > s.len() {
                                None
                            } else {
                                let tok = s.subrange(p3, e);
                                if key == "latitude"@ {
                                    if lat is Some {
                                        None
                                    } else {
                                        spec_latlong_tail(s, e, Some(tok), lon)
                                    }
                                } else {
                                    if lon is Some {
                                        None
                                    } else {
                                        spec_latlong_tail(s, e, lat, Some(tok))
                                    }
                                }
                            }
                        }
                    } else {
                        match spec_skip_value(s, p3) {
                            None => None,
                            Some(p4) => {
                                if p4 < pos || p4 > s.len() {
                                    None
                                } else {
                                    spec_latlong_tail(s, p4, lat, lon)
                                }
                            },
                        }
                    }
                }
            },
        }
    }
}

/// After one member of a result object: either a comma and further members,
/// or the closing brace, at which point both coordinates must have been seen.
pub open spec fn spec_latlong_tail(
    s: Seq<char>,
    pos: int,
    lat: Option<Seq<char>>,
    lon: Option<Seq<char>>,
) -> Option<((Seq<char>, Seq<char>), int)>
    decreases s.len() - pos, 0int,
{
    let p5 = spec_skip_ws(s, pos);
    if p5 >= s.len() {
        None
    } else if s[p5] == ',' {
        let p6 = spec_skip_ws(s, p5 + 1);
        if p6 <= pos || p6 > s.len() {
            None
        } else {
            spec_latlong_members(s, p6, lat, lon)
        }
    } else if s[p5] == '}' {
        match (lat, lon) {
            (Some(la), Some(lo)) => Some(((la, lo), p5 + 1)),
            _ => None,
        }
    } else {
        None
    }
}

/// One result object, starting at its opening brace.
pub open spec fn spec_latlong_obj(s: Seq<char>, pos: int) -> Option<((Seq<char>, Seq<char>), int)> {
    if pos < 0 || pos >= s.len() || s[pos] != '{' {
        None
    } else {
        let p1 = spec_skip_ws(s, pos + 1);
        if p1 >= s.len() {
            None
        } else if s[p1] == '}' {
            None
        } else {
            spec_latlong_members(s, p1, None, None)
        }
    }
}

/// The remaining elements of the results array, starting at the first
/// character of an element; `acc` holds the pairs already decoded.
pub open spec fn spec_latlong_elems(
    s: Seq<char>,
    pos: int,
    acc: Seq<(Seq<char>, Seq<char>)>,
) -> Option<(Seq<(Seq<char>, Seq<char>)>, int)>
    decreases s.len() - pos,
{
    match spec_latlong_obj(s, pos) {
        None => None,
        Some((ll, p1)) => {
            let p2 = spec_skip_ws(s, p1);
            if p2 >= s.len() {
                None
            } else if s[p2] == ',' {
                let p3 = spec_skip_ws(s, p2 + 1);
                if p3 <= pos || p3 > s.len() {
                    None
                } else {
                    spec_latlong_elems(s, p3, acc.push(ll))
                }
            } else if s[p2] == ']' {
                Some((acc.push(ll), p2 + 1))
            } else {
                None
            }
        },
    }
}

/// The results array, starting at its opening bracket.
pub open spec fn spec_results_array(s: Seq<char>, pos: int) -> Option<(
    Seq<(Seq<char>, Seq<char>)>,
    int,
)> {
    if pos < 0 || pos >= s.len() || s[pos] != '[' {
        None
    } else {
        let p1 = spec_skip_ws(s, pos + 1);
        if p1 >= s.len() {
            None
        } else if s[p1] == ']' {
            Some((Seq::<(Seq<char>, Seq<char>)>::empty(), p1 + 1))
        } else {
            spec_latlong_elems(s, p1, Seq::<(Seq<char>, Seq<char>)>::empty())
        }
    }
}

/// Members of the top-level geocoding object, starting at the opening quote
/// of a key; `found` holds the decoded results array once it has been seen.
pub open spec fn spec_geo_members(
    s: Seq<char>,
    pos: int,
    found: Option<Seq<(Seq<char>, Seq<char>)>>,
) -> Option<(Seq<(Seq<char>, Seq<char>)>, int)>
    decreases s.len() - pos, 1int,
{
    if pos < 0 || pos >= s.len() || s[pos] != '"' {
        None
    } else {
        match spec_string_end(s, pos + 1) {
            None => None,
            Some(p1) => {
                let key = s.subrange(pos + 1, p1 - 1);
                let p2 = spec_skip_ws(s, p1);
                if p2 >= s.len() || s[p2] != ':' {
                    None
                } else {
                    let p3 = spec_skip_ws(s, p2 + 1);
                    if key == "results"@ {
                        if found is Some {
                            None
                        } else {
                            match spec_results_array(s, p3) {
                                None => None,
                                Some((res, p4)) => {
                                    if p4 < pos || p4 > s.len() {
                                        None
                                    } else {
                                        spec_geo_tail(s, p4, Some(res))
                                    }
                                },
                            }
                        }
                    } else {
                        match spec_skip_value(s, p3) {
                            None => None,
                            Some(p4) => {
                                if p4 < pos || p4 > s.len() {
                                    None
                                } else {
                                    spec_geo_tail(s, p4, found)
                                }
                            },
                        }
                    }
                }
            },
        }
    }
}

/// After one member of the top-level geocoding object.
pub open spec fn spec_geo_tail(
    s: Seq<char>,
    pos: int,
    found: Option<Seq<(Seq<char>, Seq<char>)>>,
) -> Option<(Seq<(Seq<char>, Seq<char>)>, int)>
    decreases s.len() - pos, 0int,
{
    let p5 = spec_skip_ws(s, pos);
    if p5 >= s.len() {
        None
    } else if s[p5] == ',' {
        let p6 = spec_skip_ws(s, p5 + 1);
        if p6 <= pos || p6 > s.len() {
            None
        } else {
            spec_geo_members(s, p6, found)
        }
    } else if s[p5] == '}' {
        match found {
            Some(res) => Some((res, p5 + 1)),
            None => None,
        }
    } else {
        None
    }
}

/// The decoded geocoding body: the sequence of coordinate-token pairs of the
/// `"results"` member, or `None` where the body does not match the expected
/// shape.
pub open spec fn spec_parse_geo(s: Seq<char>) -> Option<Seq<(Seq<char>, Seq<char>)>> {
    let p0 = spec_skip_ws(s, 0);
    if p0 >= s.len() || s[p0] != '{' {
        None
    } else {
        let p1 = spec_skip_ws(s, p0 + 1);
        if p1 >= s.len() {
            None
        } else if s[p1] == '}' {
            None
        } else {
            match spec_geo_members(s, p1, None) {
                None => None,
                Some((res, p2)) => {
                    if spec_skip_ws(s, p2) == s.len() {
                        Some(res)
                    } else {
                        None
                    }
                },
            }
        }
    }
}

fn latlong_members(s: &str, pos: usize, lat: Option<String>, lon: Option<String>) -> (r: Option<
    (LatLong, usize),
>)
    requires
        pos <= s@.len(),
    ensures
        (match r {
            Some((ll, p)) => spec_latlong_members(s@, pos as int, opt_str_view(lat), opt_str_view(lon))
                == Some((latlong_view(ll), p as int)) && pos < p <= s@.len(),
            None => spec_latlong_members(s@, pos as int, opt_str_view(lat), opt_str_view(lon))
                is None,
        }),
    decreases s@.len() - pos as int, 1int,
{
    let n = s.unicode_len();
    if pos >= n {
        return None;
    }
    if s.get_char(pos) != '"' {
        return None;
    }
    let p1 = match string_end(s, pos + 1) {
        None => {
            return None;
        },
        Some(p) => p,
    };
    let key = s.substring_char(pos + 1, p1 - 1);
    let p2 = skip_ws(s, p1);
    if p2 >= n {
        return None;
    }
    if s.get_char(p2) != ':' {
        return None;
    }
    let p3 = skip_ws(s, p2 + 1);
    let is_lat = str_eq(key, "latitude");
    let is_lon = str_eq(key, "longitude");
    if is_lat || is_lon {
        if p3 >= n {
            return None;
        }
        let c = s.get_char(p3);
        if !(c == '-' || c == '0' || c == '1' || c == '2' || c == '3' || c == '4' || c == '5'
            || c == '6' || c == '7' || c == '8' || c == '9') {
            return None;
        }
        let e = number_end(s, p3 + 1);
        let tok = String::from_str(s.substring_char(p3, e));
        if is_lat {
            if lat.is_some() {
                return None;
            }
            latlong_tail(s, e, Some(tok), lon)
        } else {
            if lon.is_some() {
                return None;
            }
            latlong_tail(s, e, lat, Some(tok))
        }
    } else {
        let p4 = match skip_value(s, p3) {
            None => {
                return None;
            },
            Some(p) => p,
        };
        latlong_tail(s, p4, lat, lon)
    }
}

fn latlong_tail(s: &str, pos: usize, lat: Option<String>, lon: Option<String>) -> (r: Option<
    (LatLong, usize),
>)
    requires
        pos <= s@.len(),
    ensures
        (match r {
            Some((ll, p)) => spec_latlong_tail(s@, pos as int, opt_str_view(lat), opt_str_view(lon))
                == Some((latlong_view(ll), p as int)) && pos < p <= s@.len(),
            None => spec_latlong_tail(s@, pos as int, opt_str_view(lat), opt_str_view(lon))
                is None,
        }),
    decreases s@.len() - pos as int, 0int,
{
    let n = s.unicode_len();
    let p5 = skip_ws(s, pos);
    if p5 >= n {
        return None;
    }
    let c5 = s.get_char(p5);
    if c5 == ',' {
        let p6 = skip_ws(s, p5 + 1);
        latlong_members(s, p6, lat, lon)
    } else if c5 == '}' {
        match (lat, lon) {
            (Some(la), Some(lo)) => Some((LatLong { latitude: la, longitude: lo }, p5 + 1)),
            _ => None,
        }
    } else {
        None
    }
}

fn latlong_obj(s: &str, pos: usize) -> (r: Option<(LatLong, usize)>)
    requires
        pos <= s@.len(),
    ensures
        (match r {
            Some((ll, p)) => spec_latlong_obj(s@, pos as int) == Some((latlong_view(ll), p as int))
                && pos < p <= s@.len(),
            None => spec_latlong_obj(s@, pos as int) is None,
        }),
{
    let n = s.unicode_len();
    if pos >= n {
        return None;
    }
    if s.get_char(pos) != '{' {
        return None;
    }
    let p1 = skip_ws(s, pos + 1);
    if p1 >= n {
        return None;
    }
    if s.get_char(p1) == '}' {
        return None;
    }
    latlong_members(s, p1, None, None)
}

fn latlong_elems(s: &str, pos: usize, acc: Vec<LatLong>) -> (r: Option<(Vec<LatLong>, usize)>)
    requires
        pos <= s@.len(),
    ensures
        (match r {
            Some((v, p)) => spec_latlong_elems(s@, pos as int, latlongs_view(acc@)) == Some(
                (latlongs_view(v@), p as int),
            ) && pos < p <= s@.len(),
            None => spec_latlong_elems(s@, pos as int, latlongs_view(acc@)) is None,
        }),
    decreases s@.len() - pos as int,
{
    let n = s.unicode_len();
    let (ll, p1) = match latlong_obj(s, pos) {
        None => {
            return None;
        },
        Some(x) => x,
    };
    let p2 = skip_ws(s, p1);
    if p2 >= n {
        return None;
    }
    let c2 = s.get_char(p2);
    if c2 == ',' {
        let p3 = skip_ws(s, p2 + 1);
        let ghost ll_v = latlong_view(ll);
        let mut acc2 = acc;
        acc2.push(ll);
        proof {
            assert(latlongs_view(acc2@) =~= latlongs_view(acc@).push(ll_v));
        }
        latlong_elems(s, p3, acc2)
    } else if c2 == ']' {
        let ghost ll_v = latlong_view(ll);
        let mut acc2 = acc;
        acc2.push(ll);
        proof {
            assert(latlongs_view(acc2@) =~= latlongs_view(acc@).push(ll_v));
        }
        Some((acc2, p2 + 1))
    } else {
        None
    }
}

fn results_array(s: &str, pos: usize) -> (r: Option<(Vec<LatLong>, usize)>)
    requires
        pos <= s@.len(),
    ensures
        (match r {
            Some((v, p)) => spec_results_array(s@, pos as int) == Some(
                (latlongs_view(v@), p as int),
            ) && pos < p <= s@.len(),
            None => spec_results_array(s@, pos as int) is None,
        }),
{
    let n = s.unicode_len();
    if pos >= n {
        return None;
    }
    if s.get_char(pos) != '[' {
        return None;
    }
    let p1 = skip_ws(s, pos + 1);
    if p1 >= n {
        return None;
    }
    let empty: Vec<LatLong> = Vec::new();
    proof {
        assert(latlongs_view(empty@) =~= Seq::<(Seq<char>, Seq<char>)>::empty());
    }
    if s.get_char(p1) == ']' {
        Some((empty, p1 + 1))
    } else {
        latlong_elems(s, p1, empty)
    }
}

fn geo_members(s: &str, pos: usize, found: Option<Vec<LatLong>>) -> (r: Option<
    (Vec<LatLong>, usize),
>)
    requires
        pos <= s@.len(),
    ensures
        (match r {
            Some((v, p)) => spec_geo_members(s@, pos as int, opt_results_view(found)) == Some(
                (latlongs_view(v@), p as int),
            ) && pos < p <= s@.len(),
            None => spec_geo_members(s@, pos as int, opt_results_view(found)) is None,
        }),
    decreases s@.len() - pos as int, 1int,
{
    let n = s.unicode_len();
    if pos >= n {
        return None;
    }
    if s.get_char(pos) != '"' {
        return None;
    }
    let p1 = match string_end(s, pos + 1) {
        None => {
            return None;
        },
        Some(p) => p,
    };
    let key = s.substring_char(pos + 1, p1 - 1);
    let p2 = skip_ws(s, p1);
    if p2 >= n {
        return None;
    }
    if s.get_char(p2) != ':' {
        return None;
    }
    let p3 = skip_ws(s, p2 + 1);
    if str_eq(key, "results") {
        if found.is_some() {
            return None;
        }
        let (res, p4) = match results_array(s, p3) {
            None => {
                return None;
            },
            Some(x) => x,
        };
        geo_tail(s, p4, Some(res))
    } else {
        let p4 = match skip_value(s, p3) {
            None => {
                return None;
            },
            Some(p) => p,
        };
        geo_tail(s, p4, found)
    }
}

fn geo_tail(s: &str, pos: usize, found: Option<Vec<LatLong>>) -> (r: Option<(Vec<LatLong>, usize)>)
    requires
        pos <= s@.len(),
    ensures
        (match r {
            Some((v, p)) => spec_geo_tail(s@, pos as int, opt_results_view(found)) == Some(
                (latlongs_view(v@), p as int),
            ) && pos < p <= s@.len(),
            None => spec_geo_tail(s@, pos as int, opt_results_view(found)) is None,
        }),
    decreases s@.len() - pos as int, 0int,
{
    let n = s.unicode_len();
    let p5 = skip_ws(s, pos);
    if p5 >= n {
        return None;
    }
    let c5 = s.get_char(p5);
    if c5 == ',' {
        let p6 = skip_ws(s, p5 + 1);
        geo_members(s, p6, found)
    } else if c5 == '}' {
        match found {
            Some(res) => Some((res, p5 + 1)),
            None => None,
        }
    } else {
        None
    }
}

/// Decodes the geocoding response body; `None` means the body does not match
/// the expected JSON shape.
pub fn parse_geo(body: &str) -> (r: Option<GeoResponse>)
    ensures
        (match r {
            Some(g) => spec_parse_geo(body@) == Some(latlongs_view(g.results@)),
            None => spec_parse_geo(body@) is None,
        }),
{
    let n = body.unicode_len();
    let p0 = skip_ws(body, 0);
    if p0 >= n {
        return None;
    }
    if body.get_char(p0) != '{' {
        return None;
    }
    let p1 = skip_ws(body, p0 + 1);
    if p1 >= n {
        return None;
    }
    if body.get_char(p1) == '}' {
        return None;
    }
    let (res, p2) = match geo_members(body, p1, None) {
        None => {
            return None;
        },
        Some(x) => x,
    };
    let p3 = skip_ws(body, p2);
    if p3 < n {
        return None;
    }
    Some(GeoResponse { results: res })
}

/// Resolves a geocoding response body to the first coordinate pair: a decode
/// failure where the body is malformed, `NotFound` where the result set is
/// empty, and otherwise the first record, exactly as the API ordered them.
pub fn resolve_geo(body: &str) -> (r: Result<LatLong, AppError>)
    ensures
        (match spec_parse_geo(body@) {
            None => r == Err::<LatLong, AppError>(AppError::Decode),
            Some(results) => {
                if results.len() == 0 {
                    r == Err::<LatLong, AppError>(AppError::NotFound)
                } else {
                    r matches Ok(ll) && latlong_view(ll) == results[0]
                }
            },
        }),
{
    match parse_geo(body) {
        None => Err(AppError::Decode),
        Some(g) => {
            if g.results.len() == 0 {
                Err(AppError::NotFound)
            } else {
                let mut g = g;
                let first = g.results.remove(0);
                Ok(first)
            }
        },
    }
}

} // verus!
