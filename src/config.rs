use vstd::prelude::*;

use crate::text::chars_of;

verus! {

/// The service's settings.
#[derive(Debug, Clone, Copy, PartialEq, Eq, Structural)]
pub struct AppConfig {
    pub server_port: u16,
    pub enable_swagger: bool,
}

/// A setting that could not be read.
#[derive(Debug, Clone, Copy, PartialEq, Eq, Structural)]
pub enum ConfigError {
    /// The port is not a number from 0 to 65535.
    InvalidServerPort,
    /// The documentation switch is neither `true` nor `false`.
    InvalidSwaggerFlag,
}

pub open spec fn is_digit(c: char) -> bool {
    '0' <= c && c <= '9'
}

/// The number that a run of decimal digits spells.
pub open spec fn digits_value(s: Seq<char>) -> int
    decreases s.len(),
{
    if s.len() == 0 {
        0
    } else {
        digits_value(s.drop_last()) * 10 + (s.last() as int - '0' as int)
    }
}

/// The digits of a port number: an optional leading `+`, as `u16`'s parser
/// allows, and the rest.
pub open spec fn port_digits(s: Seq<char>) -> Seq<char> {
    if s.len() > 0 && s[0] == '+' {
        s.skip(1)
    } else {
        s
    }
}

/// The port that `s` spells, as `str::parse::<u16>` reads it: one or more
/// decimal digits after an optional `+`, at most 65535.
pub open spec fn port_of(s: Seq<char>) -> Option<u16> {
    let d = port_digits(s);
    if d.len() > 0 && (forall|i: int| 0 <= i < d.len() ==> is_digit(#[trigger] d[i]))
        && digits_value(d) <= 65535 {
        Some(digits_value(d) as u16)
    } else {
        None
    }
}

/// The switch that `s` spells, as `str::parse::<bool>` reads it.
pub open spec fn flag_of(s: Seq<char>) -> Option<bool> {
    if s == seq!['t', 'r', 'u', 'e'] {
        Some(true)
    } else if s == seq!['f', 'a', 'l', 's', 'e'] {
        Some(false)
    } else {
        None
    }
}

proof fn lemma_digits_grow(s: Seq<char>, n: int)
    requires
        0 <= n <= s.len(),
        forall|i: int| 0 <= i < s.len() ==> is_digit(#[trigger] s[i]),
    ensures
        digits_value(s.take(n)) <= digits_value(s),
        0 <= digits_value(s.take(n)),
    decreases s.len() - n,
{
    if n < s.len() {
        lemma_digits_grow(s, n + 1);
        assert(s.take(n + 1).drop_last() == s.take(n));
    } else {
        assert(s.take(n) == s);
    }
    lemma_digits_nonneg(s.take(n));
}

proof fn lemma_digits_nonneg(s: Seq<char>)
    requires
        forall|i: int| 0 <= i < s.len() ==> is_digit(#[trigger] s[i]),
    ensures
        0 <= digits_value(s),
    decreases s.len(),
{
    if s.len() > 0 {
        lemma_digits_nonneg(s.drop_last());
    }
}

/// Reads a port number, as `str::parse::<u16>` does.
pub fn parse_port(s: &str) -> (r: Option<u16>)
    ensures
        r == port_of(s@),
{
    let cs = chars_of(s);
    let mut i: usize = 0;
    if cs.len() > 0 && cs[0] == '+' {
        i = 1;
    }
    let start = i;
    let ghost d = port_digits(s@);
    assert(d == cs@.skip(start as int));
    if start == cs.len() {
        return None;
    }
    let mut value: u32 = 0;
    while i < cs.len()
        invariant
            cs@ == s@,
            d == port_digits(s@),
            d == cs@.skip(start as int),
            start <= i <= cs.len(),
            value <= 65535,
            value == digits_value(d.take(i - start)),
            forall|k: int| 0 <= k < i - start ==> is_digit(#[trigger] d[k]),
        decreases cs.len() - i,
    {
        let c = cs[i];
        assert(d[i - start] == c);
        if !('0' <= c && c <= '9') {
            assert(!is_digit(d[i - start]));
            return None;
        }
        assert(d.take(i - start + 1).drop_last() == d.take(i - start));
        value = value * 10 + (c as u32 - '0' as u32);
        if value > 65535 {
            proof {
                if forall|k: int| 0 <= k < d.len() ==> is_digit(#[trigger] d[k]) {
                    lemma_digits_grow(d, i - start + 1);
                }
            }
            return None;
        }
        i = i + 1;
    }
    assert(d.take(i - start) == d);
    Some(value as u16)
}

/// Reads a switch, as `str::parse::<bool>` does.
pub fn parse_flag(s: &str) -> (r: Option<bool>)
    ensures
        r == flag_of(s@),
{
    let cs = chars_of(s);
    let t = vec!['t', 'r', 'u', 'e'];
    let f = vec!['f', 'a', 'l', 's', 'e'];
    assert(t@ == seq!['t', 'r', 'u', 'e']);
    assert(f@ == seq!['f', 'a', 'l', 's', 'e']);
    if crate::text::same_chars(&cs, &t) {
        Some(true)
    } else if crate::text::same_chars(&cs, &f) {
        Some(false)
    } else {
        None
    }
}

impl AppConfig {
    /// The settings that the given texts spell: the port is required; the
    /// documentation switch defaults to on when absent. A bad switch is reported
    /// before a bad port.
    pub fn from_settings(server_port: &str, enable_swagger: Option<&str>) -> (r: Result<
        AppConfig,
        ConfigError,
    >)
        ensures
            match enable_swagger {
                Some(v) if flag_of(v@) is None => r == Err::<AppConfig, ConfigError>(
                    ConfigError::InvalidSwaggerFlag,
                ),
                _ => match port_of(server_port@) {
                    None => r == Err::<AppConfig, ConfigError>(ConfigError::InvalidServerPort),
                    Some(port) => r == Ok::<AppConfig, ConfigError>(
                        AppConfig {
                            server_port: port,
                            enable_swagger: match enable_swagger {
                                Some(v) => flag_of(v@)->0,
                                None => true,
                            },
                        },
                    ),
                },
            },
    {
        let enable_swagger = match enable_swagger {
            None => true,
            Some(v) => match parse_flag(v) {
                Some(b) => b,
                None => {
                    return Err(ConfigError::InvalidSwaggerFlag);
                },
            },
        };
        match parse_port(server_port) {
            Some(port) => Ok(AppConfig { server_port: port, enable_swagger }),
            None => Err(ConfigError::InvalidServerPort),
        }
    }
}

} // verus!
