//! The two upstream endpoints, with percent-encoding of the values that are
//! interpolated into a query string.
//!
//! A city name arrives as an arbitrary request parameter, so every character
//! outside the unreserved set is written as the percent-escaped bytes of its
//! UTF-8 encoding. Coordinate tokens are encoded the same way before they
//! are placed into the forecast query.

use vstd::prelude::*;
use vstd::utf8::encode_utf8;

use crate::geo::LatLong;

verus! {

/// The characters that stand for themselves in a query value.
pub open spec fn is_unreserved(c: char) -> bool {
    let u = c as u32;
    (97 <= u && u <= 122) || (65 <= u && u <= 90) || (48 <= u && u <= 57) || c == '-' || c == '.'
        || c == '_' || c == '~'
}

/// The upper-case hexadecimal digit of a value below sixteen.
pub open spec fn spec_hex_char(n: u8) -> char
    recommends
        n < 16,
{
    if n == 0 {
        '0'
    } else if n == 1 {
        '1'
    } else if n == 2 {
        '2'
    } else if n == 3 {
        '3'
    } else if n == 4 {
        '4'
    } else if n == 5 {
        '5'
    } else if n == 6 {
        '6'
    } else if n == 7 {
        '7'
    } else if n == 8 {
        '8'
    } else if n == 9 {
        '9'
    } else if n == 10 {
        'A'
    } else if n == 11 {
        'B'
    } else if n == 12 {
        'C'
    } else if n == 13 {
        'D'
    } else if n == 14 {
        'E'
    } else {
        'F'
    }
}

/// Each byte written as a percent sign and two hexadecimal digits.
pub open spec fn spec_pct_bytes(b: Seq<u8>) -> Seq<char>
    decreases b.len(),
{
    if b.len() == 0 {
        Seq::<char>::empty()
    } else {
        seq!['%', spec_hex_char(b[0] / 16), spec_hex_char(b[0] % 16)] + spec_pct_bytes(
            b.drop_first(),
        )
    }
}

/// One character of a query value: itself where unreserved, otherwise the
/// percent-escaped bytes of its UTF-8 encoding.
pub open spec fn spec_pct_char(c: char) -> Seq<char> {
    if is_unreserved(c) {
        seq![c]
    } else {
        spec_pct_bytes(encode_utf8(seq![c]))
    }
}

/// A whole query value, character for character.
pub open spec fn spec_percent_encode(s: Seq<char>) -> Seq<char>
    decreases s.len(),
{
    if s.len() == 0 {
        Seq::<char>::empty()
    } else {
        spec_pct_char(s[0]) + spec_percent_encode(s.drop_first())
    }
}

/// The geocoding endpoint for a city name, asking for a single match.
pub open spec fn spec_geo_url(city: Seq<char>) -> Seq<char> {
    "https://geocoding-api.open-meteo.com/v1/search?name="@ + spec_percent_encode(city)
        + "&count=1&language=en&format=json"@
}

/// The forecast endpoint for a coordinate pair, asking for the hourly
/// temperature series.
pub open spec fn spec_forecast_url(lat: Seq<char>, lon: Seq<char>) -> Seq<char> {
    "https://api.open-meteo.com/v1/forecast?latitude="@ + spec_percent_encode(lat)
        + "&longitude="@ + spec_percent_encode(lon) + "&hourly=temperature_2m"@
}

proof fn lemma_percent_encode_push(t: Seq<char>, c: char)
    ensures
        spec_percent_encode(t.push(c)) == spec_percent_encode(t) + spec_pct_char(c),
    decreases t.len(),
{
    if t.len() == 0 {
        assert(t.push(c)[0] == c);
        assert(t.push(c).drop_first() =~= Seq::<char>::empty());
        assert(spec_percent_encode(Seq::<char>::empty()) =~= Seq::<char>::empty());
        assert(spec_percent_encode(t.push(c)) =~= spec_pct_char(c) + Seq::<char>::empty());
        assert(spec_pct_char(c) + Seq::<char>::empty() =~= spec_pct_char(c));
        assert(spec_percent_encode(t) + spec_pct_char(c) =~= spec_pct_char(c));
    } else {
        lemma_percent_encode_push(t.drop_first(), c);
        assert(t.push(c)[0] == t[0]);
        assert(t.push(c).drop_first() =~= t.drop_first().push(c));
        assert(spec_pct_char(t[0]) + (spec_percent_encode(t.drop_first()) + spec_pct_char(c)) =~= (
        spec_pct_char(t[0]) + spec_percent_encode(t.drop_first())) + spec_pct_char(c));
    }
}

proof fn lemma_pct_bytes_push(t: Seq<u8>, x: u8)
    ensures
        spec_pct_bytes(t.push(x)) == spec_pct_bytes(t) + seq![
            '%',
            spec_hex_char(x / 16),
            spec_hex_char(x % 16),
        ],
    decreases t.len(),
{
    let piece = seq!['%', spec_hex_char(x / 16), spec_hex_char(x % 16)];
    if t.len() == 0 {
        assert(t.push(x)[0] == x);
        assert(t.push(x).drop_first() =~= Seq::<u8>::empty());
        assert(spec_pct_bytes(Seq::<u8>::empty()) =~= Seq::<char>::empty());
        assert(spec_pct_bytes(t.push(x)) =~= piece + Seq::<char>::empty());
        assert(piece + Seq::<char>::empty() =~= piece);
        assert(spec_pct_bytes(t) + piece =~= piece);
    } else {
        lemma_pct_bytes_push(t.drop_first(), x);
        let head = seq!['%', spec_hex_char(t[0] / 16), spec_hex_char(t[0] % 16)];
        assert(t.push(x)[0] == t[0]);
        assert(t.push(x).drop_first() =~= t.drop_first().push(x));
        assert(head + (spec_pct_bytes(t.drop_first()) + piece) =~= (head + spec_pct_bytes(
            t.drop_first(),
        )) + piece);
    }
}

fn hex_char_str(n: u8) -> (r: &'static str)
    requires
        n < 16,
    ensures
        r@ == seq![spec_hex_char(n)],
{
    proof {
        reveal_strlit("0");
        reveal_strlit("1");
        reveal_strlit("2");
        reveal_strlit("3");
        reveal_strlit("4");
        reveal_strlit("5");
        reveal_strlit("6");
        reveal_strlit("7");
        reveal_strlit("8");
        reveal_strlit("9");
        reveal_strlit("A");
        reveal_strlit("B");
        reveal_strlit("C");
        reveal_strlit("D");
        reveal_strlit("E");
        reveal_strlit("F");
    }
    let r = if n == 0 {
        "0"
    } else if n == 1 {
        "1"
    } else if n == 2 {
        "2"
    } else if n == 3 {
        "3"
    } else if n == 4 {
        "4"
    } else if n == 5 {
        "5"
    } else if n == 6 {
        "6"
    } else if n == 7 {
        "7"
    } else if n == 8 {
        "8"
    } else if n == 9 {
        "9"
    } else if n == 10 {
        "A"
    } else if n == 11 {
        "B"
    } else if n == 12 {
        "C"
    } else if n == 13 {
        "D"
    } else if n == 14 {
        "E"
    } else {
        "F"
    };
    proof {
        assert(r@ =~= seq![spec_hex_char(n)]);
    }
    r
}

/// Percent-encodes a query value.
pub fn percent_encode(s: &str) -> (r: String)
    ensures
        r@ == spec_percent_encode(s@),
{
    let n = s.unicode_len();
    let mut out = String::new();
    let mut i: usize = 0;
    while i < n
        invariant
            0 <= i <= n,
            n as int == s@.len(),
            out@ == spec_percent_encode(s@.subrange(0, i as int)),
        decreases n - i,
    {
        let c = s.get_char(i);
        let u = c as u32;
        proof {
            assert(s@.subrange(0, i as int + 1) =~= s@.subrange(0, i as int).push(c));
            lemma_percent_encode_push(s@.subrange(0, i as int), c);
        }
        if (97 <= u && u <= 122) || (65 <= u && u <= 90) || (48 <= u && u <= 57) || c == '-'
            || c == '.' || c == '_' || c == '~' {
            let one = s.substring_char(i, i + 1);
            proof {
                assert(one@ =~= seq![c]);
                assert(spec_pct_char(c) =~= seq![c]);
            }
            out.append(one);
        } else {
            let one = s.substring_char(i, i + 1);
            let bytes = one.as_bytes_vec();
            proof {
                assert(one@ =~= seq![c]);
                assert(bytes@ == encode_utf8(seq![c]));
            }
            let m = bytes.len();
            let ghost base = out@;
            let mut j: usize = 0;
            while j < m
                invariant
                    0 <= j <= m,
                    m as int == bytes@.len(),
                    bytes@ == encode_utf8(seq![c]),
                    !is_unreserved(c),
                    out@ == base + spec_pct_bytes(bytes@.subrange(0, j as int)),
                decreases m - j,
            {
                let b = bytes[j];
                proof {
                    assert(bytes@.subrange(0, j as int + 1) =~= bytes@.subrange(0, j as int).push(
                        b,
                    ));
                    lemma_pct_bytes_push(bytes@.subrange(0, j as int), b);
                }
                out.append("%");
                out.append(hex_char_str(b / 16));
                out.append(hex_char_str(b % 16));
                proof {
                    reveal_strlit("%");
                    assert("%"@ =~= seq!['%']);
                    assert(seq!['%'] + seq![spec_hex_char(b / 16)] + seq![spec_hex_char(b % 16)]
                        =~= seq!['%', spec_hex_char(b / 16), spec_hex_char(b % 16)]);
                    assert(out@ =~= base + spec_pct_bytes(bytes@.subrange(0, j as int + 1)));
                }
                j = j + 1;
            }
            proof {
                assert(bytes@.subrange(0, m as int) =~= bytes@);
                assert(out@ == base + spec_pct_char(c));
                assert(out@ =~= spec_percent_encode(s@.subrange(0, i as int + 1)));
            }
        }
        i = i + 1;
    }
    proof {
        assert(s@.subrange(0, n as int) =~= s@);
    }
    out
}

/// Builds the geocoding endpoint for a city name.
pub fn geo_url(city: &str) -> (r: String)
    ensures
        r@ == spec_geo_url(city@),
{
    let mut u = String::from_str("https://geocoding-api.open-meteo.com/v1/search?name=");
    let enc = percent_encode(city);
    u.append(enc.as_str());
    u.append("&count=1&language=en&format=json");
    proof {
        assert(u@ =~= spec_geo_url(city@));
    }
    u
}

/// Builds the forecast endpoint for a coordinate pair.
pub fn forecast_url(coord: &LatLong) -> (r: String)
    ensures
        r@ == spec_forecast_url(coord.latitude@, coord.longitude@),
{
    let mut u = String::from_str("https://api.open-meteo.com/v1/forecast?latitude=");
    let lat = percent_encode(coord.latitude.as_str());
    u.append(lat.as_str());
    u.append("&longitude=");
    let lon = percent_encode(coord.longitude.as_str());
    u.append(lon.as_str());
    u.append("&hourly=temperature_2m");
    proof {
        assert(u@ =~= spec_forecast_url(coord.latitude@, coord.longitude@));
    }
    u
}

} // verus!
