//! The server's settings, taken from the values of its environment variables.
use vstd::prelude::*;
use crate::text::to_chars;

verus! {

/// The server's settings.
#[derive(Debug, Clone, PartialEq, Eq)]
pub struct Config {
    pub database_url: String,
    pub redis_url: String,
    pub jwt_secret: String,
    pub port: u16,
    pub upload_dir: String,
    pub nrel_api_key: Option<String>,
    pub ocm_api_key: Option<String>,
    pub tankerkoenig_api_key: Option<String>,
    pub gemini_api_key: Option<String>,
    pub gemini_model: Option<String>,
    pub kilo_model: Option<String>,
}

/// The values of the environment variables the settings come from; `None`
/// where a variable is unset or not Unicode.
#[derive(Debug, PartialEq, Eq)]
pub struct EnvValues {
    /// `DATABASE_URL`
    pub database_url: Option<String>,
    /// `REDIS_URL`
    pub redis_url: Option<String>,
    /// `JWT_SECRET`
    pub jwt_secret: Option<String>,
    /// `PORT`
    pub port: Option<String>,
    /// `UPLOAD_DIR`
    pub upload_dir: Option<String>,
    /// `NREL_API_KEY`
    pub nrel_api_key: Option<String>,
    /// `OCM_API_KEY`
    pub ocm_api_key: Option<String>,
    /// `TANKERKOENIG_API_KEY`
    pub tankerkoenig_api_key: Option<String>,
    /// `GEMINI_API_KEY`
    pub gemini_api_key: Option<String>,
    /// `GEMINI_MODEL`
    pub gemini_model: Option<String>,
    /// `KILO_MODEL`
    pub kilo_model: Option<String>,
}

/// Whether a character is an ASCII decimal digit.
pub open spec fn is_digit(c: char) -> bool {
    '0' <= c && c <= '9'
}

/// The value of a decimal digit.
pub open spec fn digit_value(c: char) -> int {
    c as int - '0' as int
}

/// The number a string of decimal digits spells.
pub open spec fn digits_value(s: Seq<char>) -> int
    decreases s.len(),
{
    if s.len() == 0 {
        0
    } else {
        digits_value(s.drop_last()) * 10 + digit_value(s.last())
    }
}

/// The text after an optional leading `+`.
pub open spec fn unsigned_digits(s: Seq<char>) -> Seq<char> {
    if s.len() > 0 && s[0] == '+' {
        s.skip(1)
    } else {
        s
    }
}

/// Whether every character is a decimal digit.
pub open spec fn all_digits(d: Seq<char>) -> bool {
    forall|i: int| 0 <= i < d.len() ==> is_digit(#[trigger] d[i])
}

/// What `u16::from_str` gives: an optional `+`, then one or more decimal
/// digits spelling a number no larger than 65535.
pub open spec fn parse_u16_text(s: Seq<char>) -> Option<u16> {
    let d = unsigned_digits(s);
    if d.len() > 0 && all_digits(d) && digits_value(d) <= 65535 {
        Some(digits_value(d) as u16)
    } else {
        None
    }
}

/// The port listened on when `PORT` is unset or not a port number.
pub open spec fn default_port() -> u16 {
    3001
}

proof fn lemma_digits_value_nonneg(s: Seq<char>)
    requires
        forall|i: int| 0 <= i < s.len() ==> is_digit(#[trigger] s[i]),
    ensures
        digits_value(s) >= 0,
    decreases s.len(),
{
    if s.len() > 0 {
        let t = s.drop_last();
        assert forall|i: int| 0 <= i < t.len() implies is_digit(#[trigger] t[i]) by {
            assert(t[i] == s[i]);
        }
        lemma_digits_value_nonneg(t);
        assert(is_digit(s[s.len() - 1]));
    }
}

/// Parses a port number as `u16::from_str` does.
pub fn parse_u16(s: &str) -> (r: Option<u16>)
    ensures
        r == parse_u16_text(s@),
{
    let v = to_chars(s);
    let start: usize = if v.len() > 0 && v[0] == '+' {
        1
    } else {
        0
    };
    let ghost d = unsigned_digits(s@);
    assert(d == v@.skip(start as int));
    if v.len() == start {
        return None;
    }
    let mut value: u32 = 0;
    let mut k: usize = start;
    assert(d.take(0) =~= Seq::<char>::empty());
    while k < v.len()
        invariant
            start <= k <= v.len(),
            d == v@.skip(start as int),
            d == unsigned_digits(s@),
            d.len() > 0,
            forall|i: int| 0 <= i < k - start ==> is_digit(#[trigger] d[i]),
            value <= 65536,
            value == (if digits_value(d.take(k - start)) < 65536 {
                digits_value(d.take(k - start))
            } else {
                65536
            }),
        decreases v.len() - k,
    {
        let c = v[k];
        if !('0' <= c && c <= '9') {
            assert(!is_digit(d[k - start]));
            assert(!all_digits(d));
            return None;
        }
        let dv: u32 = (c as u32) - ('0' as u32);
        proof {
            let p = d.take(k - start);
            let p2 = d.take(k + 1 - start);
            assert(p2.drop_last() == p);
            assert(p2.last() == c);
            assert forall|i: int| 0 <= i < p.len() implies is_digit(#[trigger] p[i]) by {
                assert(p[i] == d[i]);
            }
            lemma_digits_value_nonneg(p);
        }
        let next = value * 10 + dv;
        value = if next < 65536 {
            next
        } else {
            65536
        };
        k = k + 1;
    }
    assert(d.take(v.len() - start) == d);
    assert(all_digits(d));
    if value <= 65535 {
        Some(value as u16)
    } else {
        None
    }
}

/// The port to listen on: `PORT` where it is a port number, else 3001.
pub fn parse_port(port: &Option<String>) -> (r: u16)
    ensures
        r == match port {
            Some(p) => match parse_u16_text(p@) {
                Some(n) => n,
                None => default_port(),
            },
            None => default_port(),
        },
{
    match port {
        Some(p) => match parse_u16(p.as_str()) {
            Some(n) => n,
            None => 3001,
        },
        None => 3001,
    }
}

/// A variable's value, or the default where it is unset.
fn or_default(v: Option<String>, default: &str) -> (r: String)
    ensures
        r@ == match v {
            Some(s) => s@,
            None => default@,
        },
{
    match v {
        Some(s) => s,
        None => String::from_str(default),
    }
}

impl Config {
    /// The settings for the given variable values, with the defaults where a
    /// variable is unset: a local database and Redis, a development secret,
    /// port 3001 and `./uploads`.
    pub fn from_values(env: EnvValues) -> (c: Config)
        ensures
            c.database_url@ == match env.database_url {
                Some(s) => s@,
                None => "postgres://localhost/maps"@,
            },
            c.redis_url@ == match env.redis_url {
                Some(s) => s@,
                None => "redis://127.0.0.1:6379"@,
            },
            c.jwt_secret@ == match env.jwt_secret {
                Some(s) => s@,
                None => "dev-secret-change-in-production-32bytes!!"@,
            },
            c.port == match env.port {
                Some(p) => match parse_u16_text(p@) {
                    Some(n) => n,
                    None => default_port(),
                },
                None => default_port(),
            },
            c.upload_dir@ == match env.upload_dir {
                Some(s) => s@,
                None => "./uploads"@,
            },
            c.nrel_api_key == env.nrel_api_key,
            c.ocm_api_key == env.ocm_api_key,
            c.tankerkoenig_api_key == env.tankerkoenig_api_key,
            c.gemini_api_key == env.gemini_api_key,
            c.gemini_model == env.gemini_model,
            c.kilo_model == env.kilo_model,
    {
        let port = parse_port(&env.port);
        Config {
            database_url: or_default(env.database_url, "postgres://localhost/maps"),
            redis_url: or_default(env.redis_url, "redis://127.0.0.1:6379"),
            jwt_secret: or_default(env.jwt_secret, "dev-secret-change-in-production-32bytes!!"),
            port,
            upload_dir: or_default(env.upload_dir, "./uploads"),
            nrel_api_key: env.nrel_api_key,
            ocm_api_key: env.ocm_api_key,
            tankerkoenig_api_key: env.tankerkoenig_api_key,
            gemini_api_key: env.gemini_api_key,
            gemini_model: env.gemini_model,
            kilo_model: env.kilo_model,
        }
    }
}

} // verus!
