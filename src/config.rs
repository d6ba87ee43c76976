//! Configuration values, their validation, and reading of settings.

use vstd::prelude::*;

verus! {

pub open spec fn is_digit(c: char) -> bool {
    '0' <= c && c <= '9'
}

/// The value of a string of decimal digits.
pub open spec fn digits_value(s: Seq<char>) -> nat
    decreases s.len(),
{
    if s.len() == 0 {
        0
    } else {
        digits_value(s.drop_last()) * 10 + (s.last() as nat - '0' as nat) as nat
    }
}

/// The number that a text writes in decimal, as std's integer parsing reads
/// it: an optional `+`, then one or more digits, nothing else.
pub open spec fn decimal_value(s: Seq<char>) -> Option<nat> {
    let body = unsigned_part(s);
    if body.len() > 0 && all_digits(body) {
        Some(digits_value(body))
    } else {
        None
    }
}

/// `s` without a leading `+`.
pub open spec fn unsigned_part(s: Seq<char>) -> Seq<char> {
    if s.len() > 0 && s[0] == '+' {
        s.drop_first()
    } else {
        s
    }
}

pub open spec fn all_digits(s: Seq<char>) -> bool {
    forall|i: int| 0 <= i < s.len() ==> is_digit(#[trigger] s[i])
}

/// Reads a decimal number no larger than `max`.
pub fn parse_decimal(s: &str, max: u64) -> (r: Option<u64>)
    ensures
        r == match decimal_value(s@) {
            Some(v) => if v <= max {
                Some(v as u64)
            } else {
                None
            },
            None => None,
        },
{
    let n = s.unicode_len();
    let mut start: usize = 0;
    if n > 0 && s.get_char(0) == '+' {
        start = 1;
    }
    let ghost body = unsigned_part(s@);
    proof {
        assert(body =~= s@.subrange(start as int, n as int));
    }
    if start >= n {
        return None;
    }
    let mut acc: u64 = 0;
    let mut over = false;
    let mut i: usize = start;
    while i < n
        invariant
            n == s@.len(),
            start <= i <= n,
            body =~= s@.subrange(start as int, n as int),
            body == unsigned_part(s@),
            forall|k: int| start <= k < i ==> is_digit(#[trigger] s@[k]),
            !over ==> acc == digits_value(s@.subrange(start as int, i as int)) && acc <= max,
            over ==> digits_value(s@.subrange(start as int, i as int)) > max,
        decreases n - i,
    {
        let c = s.get_char(i);
        if !('0' <= c && c <= '9') {
            proof {
                let j = i - start;
                assert(0 <= j < body.len() && !is_digit(body[j]));
                assert(!all_digits(body));
            }
            return None;
        }
        let ghost pre = s@.subrange(start as int, i as int);
        let ghost next = s@.subrange(start as int, i + 1);
        proof {
            assert(next.drop_last() =~= pre);
            assert(next.last() == c);
        }
        let d = (c as u32 - '0' as u32) as u64;
        if !over {
            if d > max || acc > (max - d) / 10 {
                over = true;
                proof {
                    if d <= max {
                        assert(acc * 10 + d > max) by (nonlinear_arith)
                            requires
                                acc > (max - d) / 10,
                                d <= max,
                        ;
                    }
                }
            } else {
                proof {
                    assert(acc * 10 + d <= max) by (nonlinear_arith)
                        requires
                            acc <= (max - d) / 10,
                            d <= max,
                    ;
                }
                acc = acc * 10 + d;
            }
        } else {
            proof {
                assert(digits_value(next) >= digits_value(pre));
            }
        }
        i = i + 1;
    }
    proof {
        assert forall|k: int| 0 <= k < body.len() implies is_digit(#[trigger] body[k]) by {
            assert(body[k] == s@[start + k]);
        }
        assert(all_digits(body));
        assert(s@.subrange(start as int, n as int) =~= body);
    }
    if over {
        None
    } else {
        Some(acc)
    }
}

/// Whether a setting reads "true", in any case.
pub fn flag_is_true(value: &str) -> (r: bool)
    ensures
        r == (crate::text::lower_of(value@) == "true"@),
{
    let lowered = crate::text::lowercase(value);
    lowered == String::from_str("true")
}

/// Telephony carrier settings.
pub struct TwilioConfig {
    pub account_sid: String,
    pub auth_token: String,
    pub from_number: String,
    pub webhook_url: String,
    pub webhook_port: u16,
    pub voice: String,
    pub speech_model: String,
    pub default_timeout: u32,
    pub partial_processing: bool,
    pub language: Option<String>,
    pub region: Option<String>,
    pub edge: Option<String>,
}

/// The first problem found in a carrier configuration, if any.
pub open spec fn twilio_config_problem(c: TwilioConfig) -> Option<Seq<char>> {
    if c.account_sid@.len() == 0 {
        Some("Twilio account SID cannot be empty"@)
    } else if c.auth_token@.len() == 0 {
        Some("Twilio auth token cannot be empty"@)
    } else if c.from_number@.len() == 0 {
        Some("From number cannot be empty"@)
    } else if c.webhook_url@.len() == 0 {
        Some("Webhook URL cannot be empty"@)
    } else if c.webhook_port == 0 {
        Some("Webhook port must be a valid port number"@)
    } else if c.default_timeout == 0 {
        Some("Default timeout must be greater than 0"@)
    } else {
        None
    }
}

/// The outcome of a check that found `problem`.
pub open spec fn check_result(problem: Option<Seq<char>>, r: Result<(), String>) -> bool {
    match problem {
        None => r is Ok,
        Some(p) => r is Err && r->Err_0@ == p,
    }
}

impl TwilioConfig {
    /// Checks that the credentials, numbers and URL are present, the port is
    /// not zero and the default timeout is positive.
    pub fn validate(&self) -> (r: Result<(), String>)
        ensures
            check_result(twilio_config_problem(*self), r),
    {
        if self.account_sid.unicode_len() == 0 {
            return Err(String::from_str("Twilio account SID cannot be empty"));
        }
        if self.auth_token.unicode_len() == 0 {
            return Err(String::from_str("Twilio auth token cannot be empty"));
        }
        if self.from_number.unicode_len() == 0 {
            return Err(String::from_str("From number cannot be empty"));
        }
        if self.webhook_url.unicode_len() == 0 {
            return Err(String::from_str("Webhook URL cannot be empty"));
        }
        if self.webhook_port == 0 {
            return Err(String::from_str("Webhook port must be a valid port number"));
        }
        if self.default_timeout == 0 {
            return Err(String::from_str("Default timeout must be greater than 0"));
        }
        Ok(())
    }
}

/// Backend settings.
pub struct BackendConfig {
    pub url: String,
    pub authorization_token: Option<String>,
    pub ws_url: String,
    pub enable_circuit_breaker: bool,
    pub retry_attempts: usize,
    pub retry_base_delay_ms: u64,
}

/// The first problem found in a backend configuration, if any.
pub open spec fn backend_config_problem(c: BackendConfig) -> Option<Seq<char>> {
    if c.url@.len() == 0 {
        Some("Backend URL cannot be empty"@)
    } else if c.ws_url@.len() == 0 {
        Some("Backend WebSocket URL cannot be empty"@)
    } else {
        None
    }
}

impl BackendConfig {
    /// Checks that both backend URLs are present.
    pub fn validate(&self) -> (r: Result<(), String>)
        ensures
            check_result(backend_config_problem(*self), r),
    {
        if self.url.unicode_len() == 0 {
            return Err(String::from_str("Backend URL cannot be empty"));
        }
        if self.ws_url.unicode_len() == 0 {
            return Err(String::from_str("Backend WebSocket URL cannot be empty"));
        }
        Ok(())
    }
}

/// Session lifecycle settings.
pub struct SessionConfig {
    pub cleanup_interval_minutes: u64,
    pub max_age_minutes: i64,
}

/// The complete configuration.
pub struct Config {
    pub twilio: TwilioConfig,
    pub backend: BackendConfig,
    pub session: SessionConfig,
}

impl Config {
    /// Checks the carrier part, then the backend part.
    pub fn validate(&self) -> (r: Result<(), String>)
        ensures
            check_result(
                match twilio_config_problem(self.twilio) {
                    Some(p) => Some(p),
                    None => backend_config_problem(self.backend),
                },
                r,
            ),
    {
        match self.twilio.validate() {
            Err(e) => {
                return Err(e);
            },
            Ok(()) => {},
        }
        self.backend.validate()
    }
}

} // verus!
