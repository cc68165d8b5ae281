//! Parsing a backend connection string of the form
//! `[http://|https://]host:port`: an optional scheme, then everything up
//! to the first colon that is followed by a digit, then the port as a
//! run of decimal digits.

use vstd::prelude::*;
use vstd::string::StrSliceExecFns;
use vstd::string::StringExecFns;

use crate::strutil::str_starts_with;

verus! {

/// Whether the character is a decimal digit.
pub open spec fn is_digit(c: char) -> bool {
    48 <= c as u32 <= 57
}

/// The value of one decimal digit character.
pub open spec fn digit_val(c: char) -> int {
    c as u32 - 48
}

/// The value of a run of decimal digit characters, most significant
/// first.
pub open spec fn digits_value(s: Seq<char>) -> int
    decreases s.len(),
{
    if s.len() == 0 {
        0
    } else {
        digits_value(s.drop_last()) * 10 + digit_val(s.last())
    }
}

/// The first position at or after `i` where a colon is followed by a
/// digit, or -1 when there is none.
pub open spec fn first_sep(s: Seq<char>, i: int) -> int
    decreases s.len() - i,
{
    if i < 0 || i + 1 >= s.len() {
        -1
    } else if s[i] == ':' && is_digit(s[i + 1]) {
        i
    } else {
        first_sep(s, i + 1)
    }
}

/// The end of the run of digits starting at `i`: the first position at
/// or after `i` holding no digit.
pub open spec fn digit_run_end(s: Seq<char>, i: int) -> int
    decreases s.len() - i,
{
    if i < 0 || i >= s.len() {
        i
    } else if is_digit(s[i]) {
        digit_run_end(s, i + 1)
    } else {
        i
    }
}

/// What `host:port` splitting yields on a scheme-less string: the text
/// before the first colon-followed-by-a-digit (at least one character),
/// and the value of the digit run after that colon. Nothing when no
/// such colon exists.
pub open spec fn spec_split_host_port(s: Seq<char>) -> Option<(Seq<char>, int)> {
    let i = first_sep(s, 1);
    if i < 0 {
        None
    } else {
        Some((s.subrange(0, i), digits_value(s.subrange(i + 1, digit_run_end(s, i + 1)))))
    }
}

/// The connection string with one leading scheme removed.
pub open spec fn spec_strip_scheme(s: Seq<char>) -> Seq<char> {
    if s.len() >= 8 && s.subrange(0, 8) == "https://"@ {
        s.skip(8)
    } else if s.len() >= 7 && s.subrange(0, 7) == "http://"@ {
        s.skip(7)
    } else {
        s
    }
}

/// What parsing a connection string yields: the host and port of the
/// scheme-stripped text or, when the text after the scheme holds no
/// `host:port` split, of the whole string.
pub open spec fn spec_parse_connection(s: Seq<char>) -> Option<(Seq<char>, int)> {
    match spec_split_host_port(spec_strip_scheme(s)) {
        Some(hp) => Some(hp),
        None => if spec_strip_scheme(s) != s {
            spec_split_host_port(s)
        } else {
            None
        },
    }
}

/// Whether the character is a decimal digit.
fn is_digit_exec(c: char) -> (r: bool)
    ensures
        r == is_digit(c),
{
    let u = c as u32;
    48 <= u && u <= 57
}

/// Splits a scheme-less string into host and port digits. Yields the
/// split exactly when the string has one; the port value is withheld
/// when it does not fit a `u32`.
fn split_host_port(s: &str) -> (r: Option<(String, Option<u32>)>)
    ensures
        ({
            let sp = spec_split_host_port(s@);
            &&& (r is Some) == (sp is Some)
            &&& (r matches Some(pr) ==> (sp matches Some(hp) && pr.0@ == hp.0 && (match pr.1 {
                Some(v) => hp.1 == v && hp.1 <= u32::MAX,
                None => hp.1 > u32::MAX,
            })))
        }),
{
    let n = s.unicode_len();
    if n < 2 {
        return None;
    }
    let last = n - 1;
    let mut i: usize = 1;
    while i < last && !(s.get_char(i) == ':' && is_digit_exec(s.get_char(i + 1)))
        invariant
            1 <= i <= last,
            last == n - 1,
            n == s@.len(),
            n >= 2,
            first_sep(s@, 1) == first_sep(s@, i as int),
        decreases last - i,
    {
        i += 1;
    }
    if i == last {
        assert(first_sep(s@, i as int) == -1);
        return None;
    }
    assert(first_sep(s@, 1) == i);
    let sep: usize = i;

    // The port: the maximal run of digits after the colon, its value
    // withheld when it does not fit a u32.
    let mut j: usize = sep + 1;
    let mut value: u64 = 0;
    let mut overflow = false;
    while j < n && is_digit_exec(s.get_char(j))
        invariant
            sep + 1 <= j <= n,
            n == s@.len(),
            digit_run_end(s@, sep + 1 as int) == digit_run_end(s@, j as int),
            forall|k: int| sep + 1 <= k < j ==> is_digit(#[trigger] s@[k]),
            !overflow ==> value == digits_value(s@.subrange(sep + 1 as int, j as int)) && value
                <= u32::MAX,
            overflow ==> digits_value(s@.subrange(sep + 1 as int, j as int)) > u32::MAX,
        decreases n - j,
    {
        let ghost prefix = s@.subrange(sep + 1 as int, j as int);
        let c = s.get_char(j);
        let d: u64 = (c as u32 - 48) as u64;
        proof {
            let cur = s@.subrange(sep + 1 as int, j + 1 as int);
            assert(cur.drop_last() =~= prefix);
            assert(cur.last() == s@[j as int]);
        }
        if !overflow {
            let nv: u64 = value * 10 + d;
            if nv > 0xFFFF_FFFF {
                overflow = true;
            } else {
                value = nv;
            }
        } else {
            assert(digits_value(s@.subrange(sep + 1 as int, j + 1 as int)) > u32::MAX);
        }
        j += 1;
    }
    assert(digit_run_end(s@, j as int) == j);
    let host = String::from_str(s.substring_char(0, sep));
    if overflow {
        Some((host, None))
    } else {
        Some((host, Some(value as u32)))
    }
}

/// Parses a backend connection string: an optional `http://` or
/// `https://` scheme, the host, a colon, and the port in decimal.
/// Yields host and port exactly when the string has that form and the
/// port fits a `u32`; the host is taken after the scheme when the
/// remainder splits, and from the whole string otherwise.
pub fn parse_connection_string(cnx: &str) -> (r: Option<(String, u32)>)
    ensures
        ({
            let sp = spec_parse_connection(cnx@);
            &&& (r is Some) == (sp matches Some(hp) && hp.1 <= u32::MAX)
            &&& (r matches Some(pr) ==> (sp matches Some(hp) && pr.0@ == hp.0 && pr.1 == hp.1))
        }),
{
    let n = cnx.unicode_len();
    let stripped: &str = if str_starts_with(cnx, "https://") {
        proof {
            reveal_strlit("https://");
        }
        cnx.substring_char(8, n)
    } else if str_starts_with(cnx, "http://") {
        proof {
            reveal_strlit("https://");
            reveal_strlit("http://");
        }
        cnx.substring_char(7, n)
    } else {
        proof {
            reveal_strlit("https://");
            reveal_strlit("http://");
        }
        cnx
    };
    assert(stripped@ =~= spec_strip_scheme(cnx@));
    match split_host_port(stripped) {
        Some(hp) => {
            match hp.1 {
                Some(p) => Some((hp.0, p)),
                None => None,
            }
        },
        None => {
            if stripped.unicode_len() == n {
                assert(spec_strip_scheme(cnx@) =~= cnx@);
                None
            } else {
                match split_host_port(cnx) {
                    Some(hp) => {
                        match hp.1 {
                            Some(p) => Some((hp.0, p)),
                            None => None,
                        }
                    },
                    None => None,
                }
            }
        },
    }
}

} // verus!
