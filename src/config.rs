//! The service's configuration, read from raw setting values with defaults.
use vstd::prelude::*;
use crate::errors::AksError;
use crate::text::str_eq;

verus! {

/// The preview flag when none is set.
pub const DEFAULT_SHOW_PREVIEW: bool = false;

/// The HTTP port when none is set.
pub const DEFAULT_PORT: u16 = 8080;

/// The cache time-to-live when none is set, in seconds.
pub const DEFAULT_CACHE_TTL_SECONDS: u64 = 3600;

/// An ASCII decimal digit.
pub open spec fn is_digit(c: char) -> bool {
    '0' <= c && c <= '9'
}

/// The number a string of decimal digits spells.
pub open spec fn decimal_value(s: Seq<char>) -> nat
    decreases s.len(),
{
    if s.len() == 0 {
        0
    } else {
        decimal_value(s.drop_last()) * 10 + ((s.last() as u32) - ('0' as u32)) as nat
    }
}

/// The number `s` spells, when it is a non-empty run of decimal digits whose
/// value is at most `max`.
pub open spec fn decimal_up_to(s: Seq<char>, max: nat) -> Option<nat> {
    if s.len() > 0 && (forall|i: int| 0 <= i < s.len() ==> is_digit(#[trigger] s[i]))
        && decimal_value(s) <= max {
        Some(decimal_value(s))
    } else {
        None
    }
}

proof fn lemma_decimal_prefix_grows(s: Seq<char>, j: int, k: int)
    requires
        0 <= j <= k <= s.len(),
        forall|i: int| 0 <= i < s.len() ==> is_digit(#[trigger] s[i]),
    ensures
        decimal_value(s.subrange(0, j)) <= decimal_value(s.subrange(0, k)),
    decreases k - j,
{
    if j < k {
        lemma_decimal_prefix_grows(s, j, k - 1);
        assert(s.subrange(0, k).drop_last() =~= s.subrange(0, k - 1));
    }
}

/// Reads a decimal number no larger than `max`.
pub fn parse_decimal(s: &str, max: u64) -> (r: Option<u64>)
    ensures
        match decimal_up_to(s@, max as nat) {
            Some(v) => r == Some(v as u64),
            None => r is None,
        },
{
    let n = s.unicode_len();
    if n == 0 {
        return None;
    }
    let mut v: u64 = 0;
    let mut i: usize = 0;
    while i < n
        invariant
            n == s@.len(),
            i <= n,
            forall|k: int| 0 <= k < i ==> is_digit(#[trigger] s@[k]),
            v as nat == decimal_value(s@.subrange(0, i as int)),
            v <= max,
        decreases n - i,
    {
        let c = s.get_char(i);
        if !('0' <= c && c <= '9') {
            return None;
        }
        let d = (c as u32 - '0' as u32) as u64;
        proof {
            assert(s@.subrange(0, i + 1).drop_last() =~= s@.subrange(0, i as int));
        }
        if d > max || v > (max - d) / 10 {
            proof {
                if d <= max {
                    assert(v * 10 + d > max) by (nonlinear_arith)
                        requires
                            v > (max - d) / 10,
                            d <= max,
                    ;
                }
                if forall|k: int| 0 <= k < n ==> is_digit(#[trigger] s@[k]) {
                    lemma_decimal_prefix_grows(s@, i + 1, n as int);
                    assert(s@.subrange(0, n as int) =~= s@);
                }
            }
            return None;
        }
        assert(v * 10 + d <= max) by (nonlinear_arith)
            requires
                v <= (max - d) / 10,
                d <= max,
        ;
        v = v * 10 + d;
        i = i + 1;
    }
    proof {
        assert(s@.subrange(0, n as int) =~= s@);
    }
    Some(v)
}

/// Reads a flag: exactly `true` or `false`.
pub fn parse_flag(s: &str) -> (r: Option<bool>)
    ensures
        r == (if s@ == "true"@ {
            Some(true)
        } else if s@ == "false"@ {
            Some(false)
        } else {
            None::<bool>
        }),
{
    if str_eq(s, "true") {
        Some(true)
    } else if str_eq(s, "false") {
        Some(false)
    } else {
        None
    }
}

/// The service's configuration.
pub struct Config {
    pub subscription_id: String,
    pub show_preview: bool,
    pub port: u16,
    pub cache_ttl_seconds: u64,
}

/// A setting's value, or its default when it is not set; `None` when it is
/// set to something that does not read.
pub open spec fn setting<T>(raw: Option<String>, read: spec_fn(Seq<char>) -> Option<T>, default: T) -> Option<T> {
    match raw {
        Some(s) => read(s@),
        None => Some(default),
    }
}

pub open spec fn read_flag(s: Seq<char>) -> Option<bool> {
    if s == "true"@ {
        Some(true)
    } else if s == "false"@ {
        Some(false)
    } else {
        None
    }
}

pub open spec fn read_port(s: Seq<char>) -> Option<u16> {
    match decimal_up_to(s, u16::MAX as nat) {
        Some(v) => Some(v as u16),
        None => None,
    }
}

pub open spec fn read_ttl(s: Seq<char>) -> Option<u64> {
    match decimal_up_to(s, u64::MAX as nat) {
        Some(v) => Some(v as u64),
        None => None,
    }
}

impl Config {
    /// Builds the configuration from the raw values of its settings: the
    /// subscription (required), the preview flag, the HTTP port and the
    /// cache time-to-live in seconds. Unset settings take their defaults; a
    /// missing subscription or a value that does not read is `Config`.
    pub fn from_env(
        subscription_id: Option<String>,
        show_preview: Option<String>,
        port: Option<String>,
        cache_ttl_seconds: Option<String>,
    ) -> (r: Result<Config, AksError>)
        ensures
            r is Ok == (subscription_id is Some
                && setting(show_preview, |s| read_flag(s), DEFAULT_SHOW_PREVIEW) is Some
                && setting(port, |s| read_port(s), DEFAULT_PORT) is Some
                && setting(cache_ttl_seconds, |s| read_ttl(s), DEFAULT_CACHE_TTL_SECONDS) is Some),
            r matches Err(e) ==> e is Config,
            r matches Ok(c) ==> c.subscription_id@ == subscription_id->0@
                && Some(c.show_preview) == setting(show_preview, |s| read_flag(s), DEFAULT_SHOW_PREVIEW)
                && Some(c.port) == setting(port, |s| read_port(s), DEFAULT_PORT)
                && Some(c.cache_ttl_seconds) == setting(cache_ttl_seconds, |s| read_ttl(s), DEFAULT_CACHE_TTL_SECONDS),
    {
        let subscription_id = match subscription_id {
            Some(s) => s,
            None => {
                return Err(AksError::Config(String::from_str("AZ_SUBSCRIPTION_ID is not set")));
            },
        };
        let show_preview = match &show_preview {
            Some(s) => match parse_flag(s.as_str()) {
                Some(b) => b,
                None => {
                    return Err(AksError::Config(String::from_str("SHOW_PREVIEW must be true or false")));
                },
            },
            None => DEFAULT_SHOW_PREVIEW,
        };
        let port = match &port {
            Some(s) => match parse_decimal(s.as_str(), 65535) {
                Some(p) => p as u16,
                None => {
                    return Err(AksError::Config(String::from_str("HTTP_PORT must be a port number")));
                },
            },
            None => DEFAULT_PORT,
        };
        let cache_ttl_seconds = match &cache_ttl_seconds {
            Some(s) => match parse_decimal(s.as_str(), u64::MAX) {
                Some(t) => t,
                None => {
                    return Err(AksError::Config(String::from_str("CACHE_TTL_SECONDS must be a number of seconds")));
                },
            },
            None => DEFAULT_CACHE_TTL_SECONDS,
        };
        Ok(Config { subscription_id, show_preview, port, cache_ttl_seconds })
    }
}

} // verus!
