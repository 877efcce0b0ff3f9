//! Process configuration built from plain optional text values, with the same
//! defaults and the same required entries as the surrounding process expects.
//! Reading the environment itself is left to the caller; this module owns the
//! defaulting and the numeric parsing.

use vstd::prelude::*;

verus! {

/// Whether `c` is a decimal digit.
pub open spec fn is_digit(c: char) -> bool {
    '0' as u32 <= c as u32 <= '9' as u32
}

/// The numeric value of a decimal digit character.
pub open spec fn digit_val(c: char) -> int {
    c as u32 - '0' as u32
}

/// Whether every character of `s` is a decimal digit.
pub open spec fn all_digits(s: Seq<char>) -> bool {
    forall|i: int| 0 <= i < s.len() ==> is_digit(#[trigger] s[i])
}

/// The value of `s` read as a decimal numeral.
pub open spec fn digits_value(s: Seq<char>) -> int
    decreases s.len(),
{
    if s.len() == 0 {
        0
    } else {
        digits_value(s.drop_last()) * 10 + digit_val(s.last())
    }
}

/// A decimal numeral never denotes a negative value.
pub proof fn lemma_digits_value_nonneg(s: Seq<char>)
    requires
        all_digits(s),
    ensures
        digits_value(s) >= 0,
    decreases s.len(),
{
    if s.len() > 0 {
        assert forall|i: int| 0 <= i < s.drop_last().len() implies is_digit(
            #[trigger] s.drop_last()[i],
        ) by {
            assert(s.drop_last()[i] == s[i]);
        }
        lemma_digits_value_nonneg(s.drop_last());
    }
}

/// Reading more digits never shrinks the value: a prefix of a numeral denotes
/// at most what the whole numeral denotes.
pub proof fn lemma_digits_value_prefix(s: Seq<char>, i: int)
    requires
        all_digits(s),
        0 <= i <= s.len(),
    ensures
        digits_value(s.take(i)) <= digits_value(s),
    decreases s.len() - i,
{
    if i < s.len() {
        assert(s.take(i + 1).drop_last() =~= s.take(i));
        assert(s.take(i + 1).last() == s[i]);
        assert forall|j: int| 0 <= j < s.take(i).len() implies is_digit(
            #[trigger] s.take(i)[j],
        ) by {
            assert(s.take(i)[j] == s[j]);
        }
        lemma_digits_value_nonneg(s.take(i));
        assert(is_digit(s[i]));
        assert(digits_value(s.take(i + 1)) == digits_value(s.take(i)) * 10 + digit_val(s[i]));
        lemma_digits_value_prefix(s, i + 1);
    } else {
        assert(s.take(i) =~= s);
    }
}

/// Reads `s` from position `start` to its end as a decimal numeral of value
/// at most `limit`: the value when the text is non-empty, all digits, and in
/// bound, and nothing otherwise.
pub fn parse_decimal(s: &str, start: usize, limit: u64) -> (r: Option<u64>)
    requires
        start <= s@.len(),
    ensures
        match r {
            Some(v) => {
                &&& s@.len() > start
                &&& all_digits(s@.subrange(start as int, s@.len() as int))
                &&& v as int == digits_value(s@.subrange(start as int, s@.len() as int))
                &&& v <= limit
            },
            None => s@.len() == start || !all_digits(
                s@.subrange(start as int, s@.len() as int),
            ) || digits_value(s@.subrange(start as int, s@.len() as int)) > limit,
        },
{
    let len = s.unicode_len();
    if start == len {
        return None;
    }
    let mut i: usize = start;
    let mut acc: u128 = 0;
    while i < len
        invariant
            start <= i <= len,
            len == s@.len(),
            start < len,
            all_digits(s@.subrange(start as int, i as int)),
            acc as int == digits_value(s@.subrange(start as int, i as int)),
            acc <= limit as u128,
        decreases len - i,
    {
        let c = s.get_char(i);
        let u = c as u32;
        if u < 48 || u > 57 {
            proof {
                assert(s@.subrange(start as int, len as int)[i - start] == s@[i as int]);
                assert(!is_digit(s@[i as int]));
            }
            return None;
        }
        let d = (u - 48) as u128;
        proof {
            assert(s@.subrange(start as int, i + 1 as int).drop_last() =~= s@.subrange(
                start as int,
                i as int,
            ));
            assert(s@.subrange(start as int, i + 1 as int).last() == s@[i as int]);
            assert forall|j: int| 0 <= j < i + 1 - start implies is_digit(
                #[trigger] s@.subrange(start as int, i + 1 as int)[j],
            ) by {
                if j < i - start {
                    assert(s@.subrange(start as int, i + 1 as int)[j] == s@.subrange(
                        start as int,
                        i as int,
                    )[j]);
                } else {
                    assert(s@.subrange(start as int, i + 1 as int)[j] == s@[i as int]);
                }
            }
        }
        let next = acc * 10 + d;
        if next > limit as u128 {
            proof {
                if all_digits(s@.subrange(start as int, len as int)) {
                    assert(s@.subrange(start as int, len as int).take(i + 1 - start) =~= s@.subrange(
                        start as int,
                        i + 1 as int,
                    ));
                    lemma_digits_value_prefix(
                        s@.subrange(start as int, len as int),
                        i + 1 - start,
                    );
                }
            }
            return None;
        }
        acc = next;
        i += 1;
    }
    Some(acc as u64)
}

/// Reads `s` whole as an unsigned decimal numeral that fits a `u16`.
pub fn parse_u16(s: &str) -> (r: Option<u16>)
    ensures
        match r {
            Some(v) => s@.len() > 0 && all_digits(s@) && v as int == digits_value(s@),
            None => s@.len() == 0 || !all_digits(s@) || digits_value(s@) > u16::MAX,
        },
{
    proof {
        assert(s@.subrange(0, s@.len() as int) =~= s@);
    }
    match parse_decimal(s, 0, 65535) {
        Some(v) => Some(v as u16),
        None => None,
    }
}

/// Whether `s` is a decimal integer numeral: digits, under an optional
/// leading minus sign.
pub open spec fn valid_int_text(s: Seq<char>) -> bool {
    if s.len() > 0 && s[0] == '-' {
        s.len() > 1 && all_digits(s.drop_first())
    } else {
        s.len() > 0 && all_digits(s)
    }
}

/// The signed value a decimal integer numeral denotes.
pub open spec fn int_value(s: Seq<char>) -> int {
    if s.len() > 0 && s[0] == '-' {
        -digits_value(s.drop_first())
    } else {
        digits_value(s)
    }
}

/// Reads `s` whole as a signed decimal numeral whose magnitude fits an `i64`.
pub fn parse_i64(s: &str) -> (r: Option<i64>)
    ensures
        match r {
            Some(v) => valid_int_text(s@) && v as int == int_value(s@) && -(i64::MAX as int)
                <= int_value(s@),
            None => !valid_int_text(s@) || int_value(s@) > i64::MAX as int || int_value(s@) < -(
            i64::MAX as int),
        },
{
    let len = s.unicode_len();
    if len == 0 {
        return None;
    }
    let c0 = s.get_char(0);
    if c0 == '-' {
        proof {
            assert(s@.subrange(1, s@.len() as int) =~= s@.drop_first());
        }
        match parse_decimal(s, 1, 9223372036854775807) {
            Some(v) => Some(-(v as i64)),
            None => None,
        }
    } else {
        proof {
            assert(s@.subrange(0, s@.len() as int) =~= s@);
        }
        match parse_decimal(s, 0, 9223372036854775807) {
            Some(v) => Some(v as i64),
            None => None,
        }
    }
}

/// Why a configuration could not be assembled from the given values.
#[derive(Debug, Clone, Copy, PartialEq, Eq, Structural)]
pub enum ConfigError {
    BadPort,
    MissingDatabaseUrl,
    BadJwtExpiration,
}

/// Process configuration: where the server listens, how it reaches its
/// stores, and its token settings.
#[derive(Debug, Clone)]
pub struct Config {
    pub environment: String,
    pub port: u16,
    pub database_url: String,
    pub redis_url: String,
    pub jwt_secret: String,
    pub jwt_expiration_hours: i64,
}

/// The given text, or the default where none was given.
pub open spec fn text_or(o: Option<String>, default: Seq<char>) -> Seq<char> {
    match o {
        Some(s) => s@,
        None => default,
    }
}

/// Whether a port text denotes a valid port number.
pub open spec fn port_ok(t: Seq<char>) -> bool {
    t.len() > 0 && all_digits(t) && digits_value(t) <= u16::MAX
}

/// Whether an expiration text denotes an hour count an `i64` can hold.
pub open spec fn hours_ok(t: Seq<char>) -> bool {
    valid_int_text(t) && -(i64::MAX as int) <= int_value(t) <= i64::MAX as int
}

impl Config {
    /// Assembles a configuration from optional raw values, applying the
    /// documented defaults: only the database location is required, the port
    /// defaults to 3000 and the token lifetime to 24 hours. A malformed port
    /// is reported first, then a missing database location, then a malformed
    /// token lifetime.
    pub fn from_values(
        environment: Option<String>,
        port: Option<String>,
        database_url: Option<String>,
        redis_url: Option<String>,
        jwt_secret: Option<String>,
        jwt_expiration_hours: Option<String>,
    ) -> (r: Result<Config, ConfigError>)
        ensures
            !port_ok(text_or(port, "3000"@)) <==> r == Err::<Config, ConfigError>(
                ConfigError::BadPort,
            ),
            port_ok(text_or(port, "3000"@)) && database_url is None <==> r == Err::<
                Config,
                ConfigError,
            >(ConfigError::MissingDatabaseUrl),
            port_ok(text_or(port, "3000"@)) && database_url is Some && !hours_ok(
                text_or(jwt_expiration_hours, "24"@),
            ) <==> r == Err::<Config, ConfigError>(ConfigError::BadJwtExpiration),
            r matches Ok(c) ==> {
                &&& c.environment@ == text_or(environment, "development"@)
                &&& c.port as int == digits_value(text_or(port, "3000"@))
                &&& database_url matches Some(d) && c.database_url@ == d@
                &&& c.redis_url@ == text_or(redis_url, "redis://localhost:6379"@)
                &&& c.jwt_secret@ == text_or(jwt_secret, "default-secret-change-me"@)
                &&& c.jwt_expiration_hours as int == int_value(text_or(jwt_expiration_hours, "24"@))
            },
    {
        let port_text = match port {
            Some(p) => p,
            None => String::from_str("3000"),
        };
        let port_num = match parse_u16(port_text.as_str()) {
            Some(v) => v,
            None => {
                return Err(ConfigError::BadPort);
            },
        };
        let database_url = match database_url {
            Some(d) => d,
            None => {
                return Err(ConfigError::MissingDatabaseUrl);
            },
        };
        let hours_text = match jwt_expiration_hours {
            Some(h) => h,
            None => String::from_str("24"),
        };
        let hours = match parse_i64(hours_text.as_str()) {
            Some(v) => v,
            None => {
                return Err(ConfigError::BadJwtExpiration);
            },
        };
        let environment = match environment {
            Some(e) => e,
            None => String::from_str("development"),
        };
        let redis_url = match redis_url {
            Some(u) => u,
            None => String::from_str("redis://localhost:6379"),
        };
        let jwt_secret = match jwt_secret {
            Some(s) => s,
            None => String::from_str("default-secret-change-me"),
        };
        Ok(
            Config {
                environment,
                port: port_num,
                database_url,
                redis_url,
                jwt_secret,
                jwt_expiration_hours: hours,
            },
        )
    }
}

} // verus!
