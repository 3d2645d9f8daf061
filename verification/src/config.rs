//! Server settings, read from environment values.

use vstd::prelude::*;
use vstd::string::*;

use crate::text::chars_of;

verus! {

pub open spec fn is_digit(c: char) -> bool {
    '0' <= c <= '9'
}

pub open spec fn digit_value(c: char) -> nat {
    (c as u32 - '0' as u32) as nat
}

/// The number that the decimal digits `s` write.
pub open spec fn digits_value(s: Seq<char>) -> nat
    decreases s.len(),
{
    if s.len() == 0 {
        0
    } else {
        digits_value(s.drop_last()) * 10 + digit_value(s.last())
    }
}

/// The digits of unsigned decimal text as Rust's `FromStr` for unsigned integers
/// reads it: an optional `+`, then one or more ASCII digits.
pub open spec fn decimal_digits(s: Seq<char>) -> Option<Seq<char>> {
    let d = unsigned_body(s);
    if d.len() > 0 && all_digits(d) {
        Some(d)
    } else {
        None
    }
}

/// `s` without a leading `+`.
pub open spec fn unsigned_body(s: Seq<char>) -> Seq<char> {
    if s.len() > 0 && s[0] == '+' {
        s.drop_first()
    } else {
        s
    }
}

pub open spec fn all_digits(d: Seq<char>) -> bool {
    forall|i: int| 0 <= i < d.len() ==> is_digit(#[trigger] d[i])
}

/// The value of unsigned decimal text, where it is well formed and at most `max`.
pub open spec fn parsed_unsigned(s: Seq<char>, max: nat) -> Option<nat> {
    match decimal_digits(s) {
        Some(d) => if digits_value(d) <= max {
            Some(digits_value(d))
        } else {
            None
        },
        None => None,
    }
}

proof fn lemma_digits_value_step(s: Seq<char>, i: int)
    requires
        0 <= i < s.len(),
    ensures
        digits_value(s.take(i + 1)) == digits_value(s.take(i)) * 10 + digit_value(s[i]),
{
    assert(s.take(i + 1).drop_last() =~= s.take(i));
}

proof fn lemma_digits_value_grows(s: Seq<char>, i: int)
    requires
        0 <= i <= s.len(),
    ensures
        digits_value(s.take(i)) <= digits_value(s),
    decreases s.len() - i,
{
    if i < s.len() {
        lemma_digits_value_step(s, i);
        lemma_digits_value_grows(s, i + 1);
    } else {
        assert(s.take(i) =~= s);
    }
}

/// Unsigned decimal text read as Rust's `FromStr` reads it for an unsigned
/// type whose largest value is `max`.
pub fn parse_unsigned(s: &str, max: u64) -> (r: Option<u64>)
    ensures
        match parsed_unsigned(s@, max as nat) {
            Some(v) => r == Some(v as u64),
            None => r is None,
        },
{
    let chars = chars_of(s);
    let mut start: usize = 0;
    if chars.len() > 0 && chars[0] == '+' {
        start = 1;
    }
    let ghost d = unsigned_body(s@);
    if start >= chars.len() {
        return None;
    }
    let mut acc: u128 = 0;
    let mut i: usize = start;
    while i < chars.len()
        invariant
            chars@ == s@,
            start <= i <= chars.len(),
            d == s@.skip(start as int),
            d == unsigned_body(s@),
            forall|j: int| 0 <= j < i - start ==> is_digit(d[j]),
            acc == digits_value(d.take(i - start)),
            acc <= max,
        decreases chars.len() - i,
    {
        let c = chars[i];
        if !('0' <= c && c <= '9') {
            proof {
                assert(!is_digit(d[i - start]));
                assert(decimal_digits(s@) is None);
            }
            return None;
        }
        let digit = (c as u32 - '0' as u32) as u128;
        proof {
            assert(d[i - start] == c);
            lemma_digits_value_step(d, i - start);
        }
        acc = acc * 10 + digit;
        if acc > max as u128 {
            proof {
                let k = (i + 1 - start) as int;
                lemma_digits_value_grows(d, k);
                assert(decimal_digits(s@) is Some ==> decimal_digits(s@)->0 == d);
            }
            return None;
        }
        i += 1;
    }
    proof {
        assert(d.take(d.len() as int) =~= d);
    }
    Some(acc as u64)
}

/// An environment variable that configures the server.
#[derive(Debug, Clone, Copy, PartialEq, Eq, Structural)]
pub enum ConfigKey {
    Host,
    Port,
    DatabaseUrl,
    FrontendUrl,
    Judge0Url,
    RateLimitPerSecond,
    RateLimitBurstSize,
}

pub open spec fn key_name(key: ConfigKey) -> Seq<char> {
    match key {
        ConfigKey::Host => "HOST"@,
        ConfigKey::Port => "PORT"@,
        ConfigKey::DatabaseUrl => "DATABASE_URL"@,
        ConfigKey::FrontendUrl => "FRONTEND_URL"@,
        ConfigKey::Judge0Url => "JUDGE0_URL"@,
        ConfigKey::RateLimitPerSecond => "RATE_LIMIT_PER_SECOND"@,
        ConfigKey::RateLimitBurstSize => "RATE_LIMIT_BURST_SIZE"@,
    }
}

impl ConfigKey {
    /// The name of the environment variable.
    pub fn name(&self) -> (r: &'static str)
        ensures
            r@ == key_name(*self),
    {
        match self {
            ConfigKey::Host => "HOST",
            ConfigKey::Port => "PORT",
            ConfigKey::DatabaseUrl => "DATABASE_URL",
            ConfigKey::FrontendUrl => "FRONTEND_URL",
            ConfigKey::Judge0Url => "JUDGE0_URL",
            ConfigKey::RateLimitPerSecond => "RATE_LIMIT_PER_SECOND",
            ConfigKey::RateLimitBurstSize => "RATE_LIMIT_BURST_SIZE",
        }
    }
}

/// Why the settings could not be loaded.
#[derive(Debug)]
pub enum ConfigError {
    /// A required variable is not set.
    Missing(ConfigKey),
    /// A numeric variable holds text that is no number of its type.
    Invalid(ConfigKey, String),
}

pub open spec fn config_error_message(e: ConfigError) -> Seq<char> {
    match e {
        ConfigError::Missing(k) => "Missing required environment variable: "@ + key_name(k),
        ConfigError::Invalid(k, v) => "Invalid value for "@ + key_name(k) + ": "@ + v@,
    }
}

impl ConfigError {
    /// The message reported for this error.
    pub fn message(&self) -> (r: String)
        ensures
            r@ == config_error_message(*self),
    {
        match self {
            ConfigError::Missing(k) => {
                let mut m = String::from_str("Missing required environment variable: ");
                m.append(k.name());
                m
            },
            ConfigError::Invalid(k, v) => {
                let mut m = String::from_str("Invalid value for ");
                m.append(k.name());
                m.append(": ");
                m.append(v.as_str());
                m
            },
        }
    }
}

/// The values of the environment variables that configure the server; `None`
/// where a variable is unset (or not valid Unicode).
#[derive(Debug)]
pub struct ConfigSource {
    pub host: Option<String>,
    pub port: Option<String>,
    pub database_url: Option<String>,
    pub frontend_url: Option<String>,
    pub judge0_url: Option<String>,
    pub rate_limit_per_second: Option<String>,
    pub rate_limit_burst_size: Option<String>,
}

/// The server's settings.
#[derive(Debug)]
pub struct Config {
    pub host: String,
    pub port: u16,
    pub database_url: String,
    pub frontend_url: String,
    pub judge0_url: String,
    pub rate_limit_per_second: u64,
    pub rate_limit_burst_size: u32,
}

/// A numeric setting: its default where unset, else its value where it reads
/// as a number no larger than `max`.
pub open spec fn numeric_setting(value: Option<String>, max: nat, default: nat) -> Option<nat> {
    match value {
        None => Some(default),
        Some(v) => parsed_unsigned(v@, max),
    }
}

fn parse_or(key: ConfigKey, value: Option<String>, max: u64, default: u64) -> (r: Result<
    u64,
    ConfigError,
>)
    requires
        default <= max,
    ensures
        match numeric_setting(value, max as nat, default as nat) {
            Some(n) => r == Ok::<u64, ConfigError>(n as u64),
            None => r matches Err(ConfigError::Invalid(k, v)) && k == key && Some(v) == value,
        },
{
    match value {
        None => Ok(default),
        Some(v) => match parse_unsigned(v.as_str(), max) {
            Some(n) => Ok(n),
            None => Err(ConfigError::Invalid(key, v)),
        },
    }
}

fn required(key: ConfigKey, value: Option<String>) -> (r: Result<String, ConfigError>)
    ensures
        match value {
            Some(v) => r == Ok::<String, ConfigError>(v),
            None => r matches Err(ConfigError::Missing(k)) && k == key,
        },
{
    match value {
        Some(v) => Ok(v),
        None => Err(ConfigError::Missing(key)),
    }
}

impl Config {
    /// The settings: `HOST` (default `0.0.0.0`), `PORT` (default 8080),
    /// the required `DATABASE_URL`, `FRONTEND_URL` and `JUDGE0_URL`,
    /// `RATE_LIMIT_PER_SECOND` (default 10) and `RATE_LIMIT_BURST_SIZE`
    /// (default 30). The first variable that is missing or holds no number of
    /// its type, in that order, is reported.
    pub fn load(source: ConfigSource) -> (r: Result<Config, ConfigError>)
        ensures
            ({
                let port = numeric_setting(source.port, 65535, 8080);
                let rate = numeric_setting(source.rate_limit_per_second, 0xffff_ffff_ffff_ffff, 10);
                let burst = numeric_setting(source.rate_limit_burst_size, 0xffff_ffff, 30);
                if port is None {
                    r matches Err(ConfigError::Invalid(k, v)) && k == ConfigKey::Port && Some(v)
                        == source.port
                } else if source.database_url is None {
                    r matches Err(ConfigError::Missing(k)) && k == ConfigKey::DatabaseUrl
                } else if source.frontend_url is None {
                    r matches Err(ConfigError::Missing(k)) && k == ConfigKey::FrontendUrl
                } else if source.judge0_url is None {
                    r matches Err(ConfigError::Missing(k)) && k == ConfigKey::Judge0Url
                } else if rate is None {
                    r matches Err(ConfigError::Invalid(k, v)) && k == ConfigKey::RateLimitPerSecond
                        && Some(v) == source.rate_limit_per_second
                } else if burst is None {
                    r matches Err(ConfigError::Invalid(k, v)) && k == ConfigKey::RateLimitBurstSize
                        && Some(v) == source.rate_limit_burst_size
                } else {
                    r matches Ok(c) && c.host@ == (match source.host {
                        Some(h) => h@,
                        None => "0.0.0.0"@,
                    }) && c.port == port->0 && Some(c.database_url) == source.database_url
                        && Some(c.frontend_url) == source.frontend_url && Some(c.judge0_url)
                        == source.judge0_url && c.rate_limit_per_second == rate->0
                        && c.rate_limit_burst_size == burst->0
                }
            }),
    {
        let host = match source.host {
            Some(h) => h,
            None => String::from_str("0.0.0.0"),
        };
        let port = parse_or(ConfigKey::Port, source.port, 65535, 8080)?;
        let database_url = required(ConfigKey::DatabaseUrl, source.database_url)?;
        let frontend_url = required(ConfigKey::FrontendUrl, source.frontend_url)?;
        let judge0_url = required(ConfigKey::Judge0Url, source.judge0_url)?;
        let rate_limit_per_second = parse_or(
            ConfigKey::RateLimitPerSecond,
            source.rate_limit_per_second,
            0xffff_ffff_ffff_ffff,
            10,
        )?;
        let rate_limit_burst_size = parse_or(
            ConfigKey::RateLimitBurstSize,
            source.rate_limit_burst_size,
            0xffff_ffff,
            30,
        )?;
        Ok(
            Config {
                host,
                port: port as u16,
                database_url,
                frontend_url,
                judge0_url,
                rate_limit_per_second,
                rate_limit_burst_size: rate_limit_burst_size as u32,
            },
        )
    }
}

} // verus!
