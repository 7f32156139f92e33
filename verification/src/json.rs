//! A scanner for the JSON bodies that the two upstream weather APIs return.
//!
//! Positions are character indices into the body. Each `spec_*` function is
//! the defining statement of the grammar; each executable function returns
//! exactly what its `spec_*` twin computes. A `None` result means the text
//! does not match the grammar at the given position.
//!
//! The grammar is the JSON value grammar with two deliberate relaxations:
//! inside a string, a backslash may be followed by any single character, and
//! a number is a maximal nonempty run of number characters that starts with
//! a digit or a minus sign.

use vstd::prelude::*;

verus! {

/// JSON insignificant whitespace.
pub open spec fn is_ws_char(c: char) -> bool {
    c == ' ' || c == '\t' || c == '\n' || c == '\r'
}

/// A decimal digit.
pub open spec fn is_digit(c: char) -> bool {
    c == '0' || c == '1' || c == '2' || c == '3' || c == '4' || c == '5' || c == '6' || c == '7'
        || c == '8' || c == '9'
}

/// The characters that may occur in a number token after its first character.
pub open spec fn is_number_char(c: char) -> bool {
    is_digit(c) || c == '-' || c == '+' || c == '.' || c == 'e' || c == 'E'
}

/// The first position at or after `pos` that does not hold whitespace.
pub open spec fn spec_skip_ws(s: Seq<char>, pos: int) -> int
    decreases s.len() - pos,
{
    if 0 <= pos < s.len() && is_ws_char(s[pos]) {
        spec_skip_ws(s, pos + 1)
    } else {
        pos
    }
}

/// The first position at or after `pos` that does not hold a number character.
pub open spec fn spec_number_end(s: Seq<char>, pos: int) -> int
    decreases s.len() - pos,
{
    if 0 <= pos < s.len() && is_number_char(s[pos]) {
        spec_number_end(s, pos + 1)
    } else {
        pos
    }
}

/// The position just after the closing quote of a string whose body starts at
/// `pos` (the character right after the opening quote), or `None` if the
/// string is unterminated.
pub open spec fn spec_string_end(s: Seq<char>, pos: int) -> Option<int>
    decreases s.len() - pos,
{
    if pos < 0 || pos >= s.len() {
        None
    } else if s[pos] == '"' {
        Some(pos + 1)
    } else if s[pos] == '\\' {
        if pos + 2 <= s.len() {
            spec_string_end(s, pos + 2)
        } else {
            None
        }
    } else {
        spec_string_end(s, pos + 1)
    }
}

/// The position just after the JSON value that starts at `pos`, which must
/// not be whitespace.
pub open spec fn spec_skip_value(s: Seq<char>, pos: int) -> Option<int>
    decreases s.len() - pos, 0int,
{
    if pos < 0 || pos >= s.len() {
        None
    } else if s[pos] == '"' {
        spec_string_end(s, pos + 1)
    } else if s[pos] == '{' {
        let m = spec_skip_ws(s, pos + 1);
        if m <= pos || m > s.len() {
            None
        } else if m == s.len() {
            None
        } else if s[m] == '}' {
            Some(m + 1)
        } else {
            spec_skip_members(s, m)
        }
    } else if s[pos] == '[' {
        let m = spec_skip_ws(s, pos + 1);
        if m <= pos || m > s.len() {
            None
        } else if m == s.len() {
            None
        } else if s[m] == ']' {
            Some(m + 1)
        } else {
            spec_skip_elems(s, m)
        }
    } else if s[pos] == 't' {
        if pos + 4 <= s.len() && s[pos + 1] == 'r' && s[pos + 2] == 'u' && s[pos + 3] == 'e' {
            Some(pos + 4)
        } else {
            None
        }
    } else if s[pos] == 'f' {
        if pos + 5 <= s.len() && s[pos + 1] == 'a' && s[pos + 2] == 'l' && s[pos + 3] == 's'
            && s[pos + 4] == 'e' {
            Some(pos + 5)
        } else {
            None
        }
    } else if s[pos] == 'n' {
        if pos + 4 <= s.len() && s[pos + 1] == 'u' && s[pos + 2] == 'l' && s[pos + 3] == 'l' {
            Some(pos + 4)
        } else {
            None
        }
    } else if s[pos] == '-' || is_digit(s[pos]) {
        Some(spec_number_end(s, pos + 1))
    } else {
        None
    }
}

/// The position just after the remaining members of an object, starting at
/// the opening quote of a key and ending just after the closing brace.
pub open spec fn spec_skip_members(s: Seq<char>, pos: int) -> Option<int>
    decreases s.len() - pos, 1int,
{
    if pos < 0 || pos >= s.len() {
        None
    } else if s[pos] != '"' {
        None
    } else {
        match spec_string_end(s, pos + 1) {
            None => None,
            Some(p1) => {
                let p2 = spec_skip_ws(s, p1);
                if p2 >= s.len() || s[p2] != ':' {
                    None
                } else {
                    let p3 = spec_skip_ws(s, p2 + 1);
                    if p3 < pos || p3 > s.len() {
                        None
                    } else {
                        match spec_skip_value(s, p3) {
                            None => None,
                            Some(p4) => {
                                let p5 = spec_skip_ws(s, p4);
                                if p5 >= s.len() {
                                    None
                                } else if s[p5] == ',' {
                                    let p6 = spec_skip_ws(s, p5 + 1);
                                    if p6 <= pos || p6 > s.len() {
                                        None
                                    } else {
                                        spec_skip_members(s, p6)
                                    }
                                } else if s[p5] == '}' {
                                    Some(p5 + 1)
                                } else {
                                    None
                                }
                            },
                        }
                    }
                }
            },
        }
    }
}

/// The position just after the remaining elements of an array, starting at
/// the first character of an element and ending just after the closing
/// bracket.
pub open spec fn spec_skip_elems(s: Seq<char>, pos: int) -> Option<int>
    decreases s.len() - pos, 1int,
{
    match spec_skip_value(s, pos) {
        None => None,
        Some(p1) => {
            let p2 = spec_skip_ws(s, p1);
            if p2 >= s.len() {
                None
            } else if s[p2] == ',' {
                let p3 = spec_skip_ws(s, p2 + 1);
                if p3 <= pos || p3 > s.len() {
                    None
                } else {
                    spec_skip_elems(s, p3)
                }
            } else if s[p2] == ']' {
                Some(p2 + 1)
            } else {
                None
            }
        },
    }
}

/// Character-for-character equality of two string slices.
pub fn str_eq(a: &str, b: &str) -> (r: bool)
    ensures
        r == (a@ == b@),
{
    let na = a.unicode_len();
    let nb = b.unicode_len();
    if na != nb {
        return false;
    }
    let mut i: usize = 0;
    while i < na
        invariant
            0 <= i <= na,
            na as int == a@.len(),
            nb as int == b@.len(),
            na == nb,
            forall|j: int| 0 <= j < i ==> a@[j] == b@[j],
        decreases na - i,
    {
        if a.get_char(i) != b.get_char(i) {
            return false;
        }
        i = i + 1;
    }
    proof {
        assert(a@ =~= b@);
    }
    true
}

/// Whitespace scan.
pub fn skip_ws(s: &str, pos: usize) -> (r: usize)
    requires
        pos <= s@.len(),
    ensures
        r as int == spec_skip_ws(s@, pos as int),
        pos <= r <= s@.len(),
    decreases s@.len() - pos as int,
{
    let n = s.unicode_len();
    if pos < n {
        let c = s.get_char(pos);
        if c == ' ' || c == '\t' || c == '\n' || c == '\r' {
            return skip_ws(s, pos + 1);
        }
    }
    pos
}

/// Number-character scan.
pub fn number_end(s: &str, pos: usize) -> (r: usize)
    requires
        pos <= s@.len(),
    ensures
        r as int == spec_number_end(s@, pos as int),
        pos <= r <= s@.len(),
    decreases s@.len() - pos as int,
{
    let n = s.unicode_len();
    if pos < n {
        let c = s.get_char(pos);
        if c == '0' || c == '1' || c == '2' || c == '3' || c == '4' || c == '5' || c == '6'
            || c == '7' || c == '8' || c == '9' || c == '-' || c == '+' || c == '.' || c == 'e'
            || c == 'E' {
            return number_end(s, pos + 1);
        }
    }
    pos
}

/// String-body scan.
pub fn string_end(s: &str, pos: usize) -> (r: Option<usize>)
    requires
        pos <= s@.len(),
    ensures
        (match r {
            Some(p) => spec_string_end(s@, pos as int) == Some(p as int) && pos < p <= s@.len(),
            None => spec_string_end(s@, pos as int) is None,
        }),
    decreases s@.len() - pos as int,
{
    let n = s.unicode_len();
    if pos >= n {
        return None;
    }
    let c = s.get_char(pos);
    if c == '"' {
        Some(pos + 1)
    } else if c == '\\' {
        if pos + 1 < n {
            string_end(s, pos + 2)
        } else {
            None
        }
    } else {
        string_end(s, pos + 1)
    }
}

/// Value scan.
pub fn skip_value(s: &str, pos: usize) -> (r: Option<usize>)
    requires
        pos <= s@.len(),
    ensures
        (match r {
            Some(p) => spec_skip_value(s@, pos as int) == Some(p as int) && pos < p <= s@.len(),
            None => spec_skip_value(s@, pos as int) is None,
        }),
    decreases s@.len() - pos as int, 0int,
{
    let n = s.unicode_len();
    if pos >= n {
        return None;
    }
    let c = s.get_char(pos);
    if c == '"' {
        string_end(s, pos + 1)
    } else if c == '{' {
        let m = skip_ws(s, pos + 1);
        if m >= n {
            None
        } else if s.get_char(m) == '}' {
            Some(m + 1)
        } else {
            skip_members(s, m)
        }
    } else if c == '[' {
        let m = skip_ws(s, pos + 1);
        if m >= n {
            None
        } else if s.get_char(m) == ']' {
            Some(m + 1)
        } else {
            skip_elems(s, m)
        }
    } else if c == 't' {
        if n - pos >= 4 && s.get_char(pos + 1) == 'r' && s.get_char(pos + 2) == 'u'
            && s.get_char(pos + 3) == 'e' {
            Some(pos + 4)
        } else {
            None
        }
    } else if c == 'f' {
        if n - pos >= 5 && s.get_char(pos + 1) == 'a' && s.get_char(pos + 2) == 'l'
            && s.get_char(pos + 3) == 's' && s.get_char(pos + 4) == 'e' {
            Some(pos + 5)
        } else {
            None
        }
    } else if c == 'n' {
        if n - pos >= 4 && s.get_char(pos + 1) == 'u' && s.get_char(pos + 2) == 'l'
            && s.get_char(pos + 3) == 'l' {
            Some(pos + 4)
        } else {
            None
        }
    } else if c == '-' || c == '0' || c == '1' || c == '2' || c == '3' || c == '4' || c == '5'
        || c == '6' || c == '7' || c == '8' || c == '9' {
        Some(number_end(s, pos + 1))
    } else {
        None
    }
}

/// Object-member scan.
pub fn skip_members(s: &str, pos: usize) -> (r: Option<usize>)
    requires
        pos <= s@.len(),
    ensures
        (match r {
            Some(p) => spec_skip_members(s@, pos as int) == Some(p as int) && pos < p <= s@.len(),
            None => spec_skip_members(s@, pos as int) is None,
        }),
    decreases s@.len() - pos as int, 1int,
{
    let n = s.unicode_len();
    if pos >= n {
        return None;
    }
    if s.get_char(pos) != '"' {
        return None;
    }
    let p1 = match string_end(s, pos + 1) {
        None => {
            return None;
        },
        Some(p) => p,
    };
    let p2 = skip_ws(s, p1);
    if p2 >= n {
        return None;
    }
    if s.get_char(p2) != ':' {
        return None;
    }
    let p3 = skip_ws(s, p2 + 1);
    let p4 = match skip_value(s, p3) {
        None => {
            return None;
        },
        Some(p) => p,
    };
    let p5 = skip_ws(s, p4);
    if p5 >= n {
        return None;
    }
    let c5 = s.get_char(p5);
    if c5 == ',' {
        let p6 = skip_ws(s, p5 + 1);
        skip_members(s, p6)
    } else if c5 == '}' {
        Some(p5 + 1)
    } else {
        None
    }
}

/// Array-element scan.
pub fn skip_elems(s: &str, pos: usize) -> (r: Option<usize>)
    requires
        pos <= s@.len(),
    ensures
        (match r {
            Some(p) => spec_skip_elems(s@, pos as int) == Some(p as int) && pos < p <= s@.len(),
            None => spec_skip_elems(s@, pos as int) is None,
        }),
    decreases s@.len() - pos as int, 1int,
{
    let n = s.unicode_len();
    let p1 = match skip_value(s, pos) {
        None => {
            return None;
        },
        Some(p) => p,
    };
    let p2 = skip_ws(s, p1);
    if p2 >= n {
        return None;
    }
    let c2 = s.get_char(p2);
    if c2 == ',' {
        let p3 = skip_ws(s, p2 + 1);
        skip_elems(s, p3)
    } else if c2 == ']' {
        Some(p2 + 1)
    } else {
        None
    }
}

} // verus!
