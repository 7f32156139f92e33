//! The forecast half of the pipeline: decoding the forecast API's response
//! body into the hourly series.
//!
//! The body is expected to be a JSON object with a member `"hourly"` whose
//! value is an object carrying `"time"`, an array of strings, and
//! `"temperature_2m"`, an array of numbers. Unknown members anywhere are
//! skipped; a duplicate of a consumed member is a decode failure. Time points
//! are carried as the text between their quotes, temperatures as their
//! decimal number tokens, exactly as they stand in the body; keys are
//! compared as they stand, escapes unprocessed.

use vstd::prelude::*;

use crate::json::{
    is_digit, number_end, skip_value, skip_ws, spec_number_end, spec_skip_value, spec_skip_ws,
    spec_string_end, str_eq, string_end,
};

verus! {

/// The hourly series: time points and temperatures, index-aligned.
pub struct Hourly {
    pub time: Vec<String>,
    pub temperature_2m: Vec<String>,
}

/// The decoded forecast response.
pub struct WeatherResponse {
    pub hourly: Hourly,
}

/// The mathematical value of a list of strings.
pub open spec fn strs_view(v: Seq<String>) -> Seq<Seq<char>> {
    Seq::new(v.len(), |i: int| v[i]@)
}

/// The mathematical value of an optional list of strings.
pub open spec fn opt_strs_view(o: Option<Vec<String>>) -> Option<Seq<Seq<char>>> {
    match o {
        Some(v) => Some(strs_view(v@)),
        None => None,
    }
}

/// The mathematical value of an optional decoded hourly pair.
pub open spec fn opt_hourly_view(o: Option<Hourly>) -> Option<(Seq<Seq<char>>, Seq<Seq<char>>)> {
    match o {
        Some(h) => Some((strs_view(h.time@), strs_view(h.temperature_2m@))),
        None => None,
    }
}

/// The remaining elements of an array of strings, starting at the first
/// character of an element; `acc` holds the contents already decoded.
pub open spec fn spec_string_elems(s: Seq<char>, pos: int, acc: Seq<Seq<char>>) -> Option<(
    Seq<Seq<char>>,
    int,
)>
    decreases s.len() - pos,
{
    if pos < 0 || pos >= s.len() || s[pos] != '"' {
        None
    } else {
        match spec_string_end(s, pos + 1) {
            None => None,
            Some(p1) => {
                let content = s.subrange(pos + 1, p1 - 1);
                let p2 = spec_skip_ws(s, p1);
                if p2 >= s.len() {
                    None
                } else if s[p2] == ',' {
                    let p3 = spec_skip_ws(s, p2 + 1);
                    if p3 <= pos || p3 > s.len() {
                        None
                    } else {
                        spec_string_elems(s, p3, acc.push(content))
                    }
                } else if s[p2] == ']' {
                    Some((acc.push(content), p2 + 1))
                } else {
                    None
                }
            },
        }
    }
}

/// An array of strings, starting at its opening bracket.
pub open spec fn spec_string_array(s: Seq<char>, pos: int) -> Option<(Seq<Seq<char>>, int)> {
    if pos < 0 || pos >= s.len() || s[pos] != '[' {
        None
    } else {
        let p1 = spec_skip_ws(s, pos + 1);
        if p1 >= s.len() {
            None
        } else if s[p1] == ']' {
            Some((Seq::<Seq<char>>::empty(), p1 + 1))
        } else {
            spec_string_elems(s, p1, Seq::<Seq<char>>::empty())
        }
    }
}

/// The remaining elements of an array of numbers, starting at the first
/// character of an element; `acc` holds the tokens already decoded.
pub open spec fn spec_number_elems(s: Seq<char>, pos: int, acc: Seq<Seq<char>>) -> Option<(
    Seq<Seq<char>>,
    int,
)>
    decreases s.len() - pos,
{
    if pos < 0 || pos >= s.len() || !(s[pos] == '-' || is_digit(s[pos])) {
        None
    } else {
        let e = spec_number_end(s, pos + 1);
        if e <= pos || e > s.len() {
            None
        } else {
            let tok = s.subrange(pos, e);
            let p2 = spec_skip_ws(s, e);
            if p2 >= s.len() {
                None
            } else if s[p2] == ',' {
                let p3 = spec_skip_ws(s, p2 + 1);
                if p3 <= pos || p3 > s.len() {
                    None
                } else {
                    spec_number_elems(s, p3, acc.push(tok))
                }
            } else if s[p2] == ']' {
                Some((acc.push(tok), p2 + 1))
            } else {
                None
            }
        }
    }
}

/// An array of numbers, starting at its opening bracket.
pub open spec fn spec_number_array(s: Seq<char>, pos: int) -> Option<(Seq<Seq<char>>, int)> {
    if pos < 0 || pos >= s.len() || s[pos] != '[' {
        None
    } else {
        let p1 = spec_skip_ws(s, pos + 1);
        if p1 >= s.len() {
            None
        } else if s[p1] == ']' {
            Some((Seq::<Seq<char>>::empty(), p1 + 1))
        } else {
            spec_number_elems(s, p1, Seq::<Seq<char>>::empty())
        }
    }
}

/// Members of the hourly object, starting at the opening quote of a key.
pub open spec fn spec_hourly_members(
    s: Seq<char>,
    pos: int,
    time: Option<Seq<Seq<char>>>,
    temps: Option<Seq<Seq<char>>>,
) -> Option<((Seq<Seq<char>>, Seq<Seq<char>>), int)>
    decreases s.len() - pos, 1int,
{
    if pos < 0 || pos >= s.len() || s[pos] != '"' {
        None
    } else {
        match spec_string_end(s, pos + 1) {
            None => None,
            Some(p1) => {
                let key = s.subrange(pos + 1, p1 - 1);
                let p2 = spec_skip_ws(s, p1);
                if p2 >= s.len() || s[p2] != ':' {
                    None
                } else {
                    let p3 = spec_skip_ws(s, p2 + 1);
                    if key == "time"@ {
                        if time is Some {
                            None
                        } else {
                            match spec_string_array(s, p3) {
                                None => None,
                                Some((v, p4)) => {
                                    if p4 < pos || p4 > s.len() {
                                        None
                                    } else {
                                        spec_hourly_tail(s, p4, Some(v), temps)
                                    }
                                },
                            }
                        }
                    } else if key == "temperature_2m"@ {
                        if temps is Some {
                            None
                        } else {
                            match spec_number_array(s, p3) {
                                None => None,
                                Some((v, p4)) => {
                                    if p4 < pos || p4 > s.len() {
                                        None
                                    } else {
                                        spec_hourly_tail(s, p4, time, Some(v))
                                    }
                                },
                            }
                        }
                    } else {
                        match spec_skip_value(s, p3) {
                            None => None,
                            Some(p4) => {
                                if p4 < pos || p4 > s.len() {
                                    None
                                } else {
                                    spec_hourly_tail(s, p4, time, temps)
                                }
                            },
                        }
                    }
                }
            },
        }
    }
}

/// After one member of the hourly object: a comma and further members, or
/// the closing brace, at which point both series must have been seen.
pub open spec fn spec_hourly_tail(
    s: Seq<char>,
    pos: int,
    time: Option<Seq<Seq<char>>>,
    temps: Option<Seq<Seq<char>>>,
) -> Option<((Seq<Seq<char>>, Seq<Seq<char>>), int)>
    decreases s.len() - pos, 0int,
{
    let p5 = spec_skip_ws(s, pos);
    if p5 >= s.len() {
        None
    } else if s[p5] == ',' {
        let p6 = spec_skip_ws(s, p5 + 1);
        if p6 <= pos || p6 > s.len() {
            None
        } else {
            spec_hourly_members(s, p6, time, temps)
        }
    } else if s[p5] == '}' {
        match (time, temps) {
            (Some(ti), Some(te)) => Some(((ti, te), p5 + 1)),
            _ => None,
        }
    } else {
        None
    }
}

/// The hourly object, starting at its opening brace.
pub open spec fn spec_hourly_obj(s: Seq<char>, pos: int) -> Option<(
    (Seq<Seq<char>>, Seq<Seq<char>>),
    int,
)> {
    if pos < 0 || pos >= s.len() || s[pos] != '{' {
        None
    } else {
        let p1 = spec_skip_ws(s, pos + 1);
        if p1 >= s.len() {
            None
        } else if s[p1] == '}' {
            None
        } else {
            spec_hourly_members(s, p1, None, None)
        }
    }
}

/// Members of the top-level forecast object, starting at the opening quote
/// of a key; `found` holds the decoded hourly pair once it has been seen.
pub open spec fn spec_forecast_members(
    s: Seq<char>,
    pos: int,
    found: Option<(Seq<Seq<char>>, Seq<Seq<char>>)>,
) -> Option<((Seq<Seq<char>>, Seq<Seq<char>>), int)>
    decreases s.len() - pos, 1int,
{
    if pos < 0 || pos >= s.len() || s[pos] != '"' {
        None
    } else {
        match spec_string_end(s, pos + 1) {
            None => None,
            Some(p1) => {
                let key = s.subrange(pos + 1, p1 - 1);
                let p2 = spec_skip_ws(s, p1);
                if p2 >= s.len() || s[p2] != ':' {
                    None
                } else {
                    let p3 = spec_skip_ws(s, p2 + 1);
                    if key == "hourly"@ {
                        if found is Some {
                            None
                        } else {
                            match spec_hourly_obj(s, p3) {
                                None => None,
                                Some((h, p4)) => {
                                    if p4 < pos || p4 > s.len() {
                                        None
                                    } else {
                                        spec_forecast_tail(s, p4, Some(h))
                                    }
                                },
                            }
                        }
                    } else {
                        match spec_skip_value(s, p3) {
                            None => None,
                            Some(p4) => {
                                if p4 < pos || p4 > s.len() {
                                    None
                                } else {
                                    spec_forecast_tail(s, p4, found)
                                }
                            },
                        }
                    }
                }
            },
        }
    }
}

/// After one member of the top-level forecast object.
pub open spec fn spec_forecast_tail(
    s: Seq<char>,
    pos: int,
    found: Option<(Seq<Seq<char>>, Seq<Seq<char>>)>,
) -> Option<((Seq<Seq<char>>, Seq<Seq<char>>), int)>
    decreases s.len() - pos, 0int,
{
    let p5 = spec_skip_ws(s, pos);
    if p5 >= s.len() {
        None
    } else if s[p5] == ',' {
        let p6 = spec_skip_ws(s, p5 + 1);
        if p6 <= pos || p6 > s.len() {
            None
        } else {
            spec_forecast_members(s, p6, found)
        }
    } else if s[p5] == '}' {
        match found {
            Some(h) => Some((h, p5 + 1)),
            None => None,
        }
    } else {
        None
    }
}

/// The decoded forecast body: the time points and temperature tokens of the
/// hourly series, or `None` where the body does not match the expected shape.
pub open spec fn spec_parse_forecast(s: Seq<char>) -> Option<(Seq<Seq<char>>, Seq<Seq<char>>)> {
    let p0 = spec_skip_ws(s, 0);
    if p0 >= s.len() || s[p0] != '{' {
        None
    } else {
        let p1 = spec_skip_ws(s, p0 + 1);
        if p1 >= s.len() {
            None
        } else if s[p1] == '}' {
            None
        } else {
            match spec_forecast_members(s, p1, None) {
                None => None,
                Some((h, p2)) => {
                    if spec_skip_ws(s, p2) == s.len() {
                        Some(h)
                    } else {
                        None
                    }
                },
            }
        }
    }
}

fn string_elems(s: &str, pos: usize, acc: Vec<String>) -> (r: Option<(Vec<String>, usize)>)
    requires
        pos <= s@.len(),
    ensures
        (match r {
            Some((v, p)) => spec_string_elems(s@, pos as int, strs_view(acc@)) == Some(
                (strs_view(v@), p as int),
            ) && pos < p <= s@.len(),
            None => spec_string_elems(s@, pos as int, strs_view(acc@)) is None,
        }),
    decreases s@.len() - pos as int,
{
    let n = s.unicode_len();
    if pos >= n {
        return None;
    }
    if s.get_char(pos) != '"' {
        return None;
    }
    let p1 = match string_end(s, pos + 1) {
        None => {
            return None;
        },
        Some(p) => p,
    };
    let content = String::from_str(s.substring_char(pos + 1, p1 - 1));
    let p2 = skip_ws(s, p1);
    if p2 >= n {
        return None;
    }
    let c2 = s.get_char(p2);
    if c2 == ',' {
        let p3 = skip_ws(s, p2 + 1);
        let ghost content_v = content@;
        let mut acc2 = acc;
        acc2.push(content);
        proof {
            assert(strs_view(acc2@) =~= strs_view(acc@).push(content_v));
        }
        string_elems(s, p3, acc2)
    } else if c2 == ']' {
        let ghost content_v = content@;
        let mut acc2 = acc;
        acc2.push(content);
        proof {
            assert(strs_view(acc2@) =~= strs_view(acc@).push(content_v));
        }
        Some((acc2, p2 + 1))
    } else {
        None
    }
}

fn string_array(s: &str, pos: usize) -> (r: Option<(Vec<String>, usize)>)
    requires
        pos <= s@.len(),
    ensures
        (match r {
            Some((v, p)) => spec_string_array(s@, pos as int) == Some((strs_view(v@), p as int))
                && pos < p <= s@.len(),
            None => spec_string_array(s@, pos as int) is None,
        }),
{
    let n = s.unicode_len();
    if pos >= n {
        return None;
    }
    if s.get_char(pos) != '[' {
        return None;
    }
    let p1 = skip_ws(s, pos + 1);
    if p1 >= n {
        return None;
    }
    let empty: Vec<String> = Vec::new();
    proof {
        assert(strs_view(empty@) =~= Seq::<Seq<char>>::empty());
    }
    if s.get_char(p1) == ']' {
        Some((empty, p1 + 1))
    } else {
        string_elems(s, p1, empty)
    }
}

fn number_elems(s: &str, pos: usize, acc: Vec<String>) -> (r: Option<(Vec<String>, usize)>)
    requires
        pos <= s@.len(),
    ensures
        (match r {
            Some((v, p)) => spec_number_elems(s@, pos as int, strs_view(acc@)) == Some(
                (strs_view(v@), p as int),
            ) && pos < p <= s@.len(),
            None => spec_number_elems(s@, pos as int, strs_view(acc@)) is None,
        }),
    decreases s@.len() - pos as int,
{
    let n = s.unicode_len();
    if pos >= n {
        return None;
    }
    let c = s.get_char(pos);
    if !(c == '-' || c == '0' || c == '1' || c == '2' || c == '3' || c == '4' || c == '5'
        || c == '6' || c == '7' || c == '8' || c == '9') {
        return None;
    }
    let e = number_end(s, pos + 1);
    let tok = String::from_str(s.substring_char(pos, e));
    let p2 = skip_ws(s, e);
    if p2 >= n {
        return None;
    }
    let c2 = s.get_char(p2);
    if c2 == ',' {
        let p3 = skip_ws(s, p2 + 1);
        let ghost tok_v = tok@;
        let mut acc2 = acc;
        acc2.push(tok);
        proof {
            assert(strs_view(acc2@) =~= strs_view(acc@).push(tok_v));
        }
        number_elems(s, p3, acc2)
    } else if c2 == ']' {
        let ghost tok_v = tok@;
        let mut acc2 = acc;
        acc2.push(tok);
        proof {
            assert(strs_view(acc2@) =~= strs_view(acc@).push(tok_v));
        }
        Some((acc2, p2 + 1))
    } else {
        None
    }
}

fn number_array(s: &str, pos: usize) -> (r: Option<(Vec<String>, usize)>)
    requires
        pos <= s@.len(),
    ensures
        (match r {
            Some((v, p)) => spec_number_array(s@, pos as int) == Some((strs_view(v@), p as int))
                && pos < p <= s@.len(),
            None => spec_number_array(s@, pos as int) is None,
        }),
{
    let n = s.unicode_len();
    if pos >= n {
        return None;
    }
    if s.get_char(pos) != '[' {
        return None;
    }
    let p1 = skip_ws(s, pos + 1);
    if p1 >= n {
        return None;
    }
    let empty: Vec<String> = Vec::new();
    proof {
        assert(strs_view(empty@) =~= Seq::<Seq<char>>::empty());
    }
    if s.get_char(p1) == ']' {
        Some((empty, p1 + 1))
    } else {
        number_elems(s, p1, empty)
    }
}

fn hourly_members(s: &str, pos: usize, time: Option<Vec<String>>, temps: Option<Vec<String>>) -> (r:
    Option<(Hourly, usize)>)
    requires
        pos <= s@.len(),
    ensures
        (match r {
            Some((h, p)) => spec_hourly_members(s@, pos as int, opt_strs_view(time), opt_strs_view(temps))
                == Some(((strs_view(h.time@), strs_view(h.temperature_2m@)), p as int)) && pos < p
                <= s@.len(),
            None => spec_hourly_members(s@, pos as int, opt_strs_view(time), opt_strs_view(temps))
                is None,
        }),
    decreases s@.len() - pos as int, 1int,
{
    let n = s.unicode_len();
    if pos >= n {
        return None;
    }
    if s.get_char(pos) != '"' {
        return None;
    }
    let p1 = match string_end(s, pos + 1) {
        None => {
            return None;
        },
        Some(p) => p,
    };
    let key = s.substring_char(pos + 1, p1 - 1);
    let p2 = skip_ws(s, p1);
    if p2 >= n {
        return None;
    }
    if s.get_char(p2) != ':' {
        return None;
    }
    let p3 = skip_ws(s, p2 + 1);
    if str_eq(key, "time") {
        if time.is_some() {
            return None;
        }
        let (v, p4) = match string_array(s, p3) {
            None => {
                return None;
            },
            Some(x) => x,
        };
        hourly_tail(s, p4, Some(v), temps)
    } else if str_eq(key, "temperature_2m") {
        if temps.is_some() {
            return None;
        }
        let (v, p4) = match number_array(s, p3) {
            None => {
                return None;
            },
            Some(x) => x,
        };
        hourly_tail(s, p4, time, Some(v))
    } else {
        let p4 = match skip_value(s, p3) {
            None => {
                return None;
            },
            Some(p) => p,
        };
        hourly_tail(s, p4, time, temps)
    }
}

fn hourly_tail(s: &str, pos: usize, time: Option<Vec<String>>, temps: Option<Vec<String>>) -> (r:
    Option<(Hourly, usize)>)
    requires
        pos <= s@.len(),
    ensures
        (match r {
            Some((h, p)) => spec_hourly_tail(s@, pos as int, opt_strs_view(time), opt_strs_view(temps))
                == Some(((strs_view(h.time@), strs_view(h.temperature_2m@)), p as int)) && pos < p
                <= s@.len(),
            None => spec_hourly_tail(s@, pos as int, opt_strs_view(time), opt_strs_view(temps))
                is None,
        }),
    decreases s@.len() - pos as int, 0int,
{
    let n = s.unicode_len();
    let p5 = skip_ws(s, pos);
    if p5 >= n {
        return None;
    }
    let c5 = s.get_char(p5);
    if c5 == ',' {
        let p6 = skip_ws(s, p5 + 1);
        hourly_members(s, p6, time, temps)
    } else if c5 == '}' {
        match (time, temps) {
            (Some(ti), Some(te)) => Some((Hourly { time: ti, temperature_2m: te }, p5 + 1)),
            _ => None,
        }
    } else {
        None
    }
}

fn hourly_obj(s: &str, pos: usize) -> (r: Option<(Hourly, usize)>)
    requires
        pos <= s@.len(),
    ensures
        (match r {
            Some((h, p)) => spec_hourly_obj(s@, pos as int) == Some(
                ((strs_view(h.time@), strs_view(h.temperature_2m@)), p as int),
            ) && pos < p <= s@.len(),
            None => spec_hourly_obj(s@, pos as int) is None,
        }),
{
    let n = s.unicode_len();
    if pos >= n {
        return None;
    }
    if s.get_char(pos) != '{' {
        return None;
    }
    let p1 = skip_ws(s, pos + 1);
    if p1 >= n {
        return None;
    }
    if s.get_char(p1) == '}' {
        return None;
    }
    hourly_members(s, p1, None, None)
}

fn forecast_members(s: &str, pos: usize, found: Option<Hourly>) -> (r: Option<(Hourly, usize)>)
    requires
        pos <= s@.len(),
    ensures
        (match r {
            Some((h, p)) => spec_forecast_members(s@, pos as int, opt_hourly_view(found)) == Some(
                ((strs_view(h.time@), strs_view(h.temperature_2m@)), p as int),
            ) && pos < p <= s@.len(),
            None => spec_forecast_members(s@, pos as int, opt_hourly_view(found)) is None,
        }),
    decreases s@.len() - pos as int, 1int,
{
    let n = s.unicode_len();
    if pos >= n {
        return None;
    }
    if s.get_char(pos) != '"' {
        return None;
    }
    let p1 = match string_end(s, pos + 1) {
        None => {
            return None;
        },
        Some(p) => p,
    };
    let key = s.substring_char(pos + 1, p1 - 1);
    let p2 = skip_ws(s, p1);
    if p2 >= n {
        return None;
    }
    if s.get_char(p2) != ':' {
        return None;
    }
    let p3 = skip_ws(s, p2 + 1);
    if str_eq(key, "hourly") {
        if found.is_some() {
            return None;
        }
        let (h, p4) = match hourly_obj(s, p3) {
            None => {
                return None;
            },
            Some(x) => x,
        };
        forecast_tail(s, p4, Some(h))
    } else {
        let p4 = match skip_value(s, p3) {
            None => {
                return None;
            },
            Some(p) => p,
        };
        forecast_tail(s, p4, found)
    }
}

fn forecast_tail(s: &str, pos: usize, found: Option<Hourly>) -> (r: Option<(Hourly, usize)>)
    requires
        pos <= s@.len(),
    ensures
        (match r {
            Some((h, p)) => spec_forecast_tail(s@, pos as int, opt_hourly_view(found)) == Some(
                ((strs_view(h.time@), strs_view(h.temperature_2m@)), p as int),
            ) && pos < p <= s@.len(),
            None => spec_forecast_tail(s@, pos as int, opt_hourly_view(found)) is None,
        }),
    decreases s@.len() - pos as int, 0int,
{
    let n = s.unicode_len();
    let p5 = skip_ws(s, pos);
    if p5 >= n {
        return None;
    }
    let c5 = s.get_char(p5);
    if c5 == ',' {
        let p6 = skip_ws(s, p5 + 1);
        forecast_members(s, p6, found)
    } else if c5 == '}' {
        match found {
            Some(h) => Some((h, p5 + 1)),
            None => None,
        }
    } else {
        None
    }
}

/// Decodes the forecast response body; `None` means the body does not match
/// the expected JSON shape.
pub fn parse_forecast(body: &str) -> (r: Option<WeatherResponse>)
    ensures
        (match r {
            Some(w) => spec_parse_forecast(body@) == Some(
                (strs_view(w.hourly.time@), strs_view(w.hourly.temperature_2m@)),
            ),
            None => spec_parse_forecast(body@) is None,
        }),
{
    let n = body.unicode_len();
    let p0 = skip_ws(body, 0);
    if p0 >= n {
        return None;
    }
    if body.get_char(p0) != '{' {
        return None;
    }
    let p1 = skip_ws(body, p0 + 1);
    if p1 >= n {
        return None;
    }
    if body.get_char(p1) == '}' {
        return None;
    }
    let (h, p2) = match forecast_members(body, p1, None) {
        None => {
            return None;
        },
        Some(x) => x,
    };
    let p3 = skip_ws(body, p2);
    if p3 < n {
        return None;
    }
    Some(WeatherResponse { hourly: h })
}

} // verus!
