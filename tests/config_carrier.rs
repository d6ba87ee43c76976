use twilio_bot::api::{overall_status, HealthCheck, HealthResponse, HealthStatus};
use twilio_bot::carrier::{
    basic_auth_value, carrier_retry_step, phone_numbers_url_for, TwilioAccount, TwilioError,
};
use twilio_bot::config::{
    flag_is_true, parse_decimal, BackendConfig, Config, SessionConfig, TwilioConfig,
};
use twilio_bot::orchestrator::{greeting_or_default, status_action, StatusAction};
use twilio_bot::resilience::RetryPolicy;

fn twilio() -> TwilioConfig {
    TwilioConfig {
        account_sid: "AC1".to_string(),
        auth_token: "tok".to_string(),
        from_number: "+100".to_string(),
        webhook_url: "https://h.example/twilio".to_string(),
        webhook_port: 8000,
        voice: "Polly.Salli".to_string(),
        speech_model: "googlev2_telephony".to_string(),
        default_timeout: 10,
        partial_processing: true,
        language: None,
        region: None,
        edge: None,
    }
}

fn backend() -> BackendConfig {
    BackendConfig {
        url: "http://b".to_string(),
        authorization_token: None,
        ws_url: "ws://b".to_string(),
        enable_circuit_breaker: true,
        retry_attempts: 3,
        retry_base_delay_ms: 500,
    }
}

#[test]
fn twilio_config_checks() {
    assert!(twilio().validate().is_ok());
    let mut c = twilio();
    c.account_sid = String::new();
    assert_eq!(c.validate(), Err("Twilio account SID cannot be empty".to_string()));
    let mut c = twilio();
    c.auth_token = String::new();
    assert_eq!(c.validate(), Err("Twilio auth token cannot be empty".to_string()));
    let mut c = twilio();
    c.from_number = String::new();
    assert_eq!(c.validate(), Err("From number cannot be empty".to_string()));
    let mut c = twilio();
    c.webhook_url = String::new();
    assert_eq!(c.validate(), Err("Webhook URL cannot be empty".to_string()));
    let mut c = twilio();
    c.webhook_port = 0;
    assert_eq!(c.validate(), Err("Webhook port must be a valid port number".to_string()));
    let mut c = twilio();
    c.default_timeout = 0;
    assert_eq!(c.validate(), Err("Default timeout must be greater than 0".to_string()));
}

#[test]
fn backend_and_full_config_checks() {
    assert!(backend().validate().is_ok());
    let mut b = backend();
    b.ws_url = String::new();
    assert_eq!(b.validate(), Err("Backend WebSocket URL cannot be empty".to_string()));
    let mut b = backend();
    b.url = String::new();
    assert_eq!(b.validate(), Err("Backend URL cannot be empty".to_string()));
    let session = SessionConfig { cleanup_interval_minutes: 5, max_age_minutes: 30 };
    let mut t = twilio();
    t.auth_token = String::new();
    let cfg = Config { twilio: t, backend: b, session };
    assert_eq!(cfg.validate(), Err("Twilio auth token cannot be empty".to_string()));
    let cfg = Config {
        twilio: twilio(),
        backend: backend(),
        session: SessionConfig { cleanup_interval_minutes: 5, max_age_minutes: 30 },
    };
    assert!(cfg.validate().is_ok());
}

#[test]
fn account_urls() {
    let a = TwilioAccount {
        account_sid: "AC1".to_string(),
        auth_token: "tok".to_string(),
        region: Some("ie1".to_string()),
        edge: Some("dublin".to_string()),
    };
    assert_eq!(a.base_url(), "https://dublin-api.ie1-twilio.com/2010-04-01/Accounts/AC1");
    let b = TwilioAccount { region: Some(String::new()), edge: None, ..a };
    assert_eq!(b.base_url(), "https://api.twilio.com/2010-04-01/Accounts/AC1");
    assert_eq!(b.calls_url(), "https://api.twilio.com/2010-04-01/Accounts/AC1/Calls.json");
    assert_eq!(b.call_url("CA9"), "https://api.twilio.com/2010-04-01/Accounts/AC1/Calls/CA9.json");
    assert_eq!(
        b.phone_number_url("PN1"),
        "https://api.twilio.com/2010-04-01/Accounts/AC1/IncomingPhoneNumbers/PN1.json"
    );
}

#[test]
fn account_auth_header_is_base64() {
    let a = TwilioAccount {
        account_sid: "AC1".to_string(),
        auth_token: "tok".to_string(),
        region: None,
        edge: None,
    };
    assert_eq!(a.auth_header(), "Basic QUMxOnRvaw==");
    assert_eq!(basic_auth_value("abc"), "Basic abc");
}

#[test]
fn phone_number_lookup_is_encoded() {
    let a = TwilioAccount {
        account_sid: "AC1".to_string(),
        auth_token: "tok".to_string(),
        region: None,
        edge: None,
    };
    assert_eq!(
        a.phone_numbers_url("+1 555"),
        "https://api.twilio.com/2010-04-01/Accounts/AC1/IncomingPhoneNumbers.json?PhoneNumber=%2B1%20555"
    );
    assert_eq!(phone_numbers_url_for("B", "x%20y"), "B/IncomingPhoneNumbers.json?PhoneNumber=x%20y");
}

#[test]
fn carrier_retries_until_exhausted() {
    let p = RetryPolicy { max_attempts: 2, base_delay_ms: 100 };
    assert!(matches!(carrier_retry_step(&p, 1, TwilioError::StatusError(500, "x".to_string())), Ok(100)));
    assert!(matches!(carrier_retry_step(&p, 1, TwilioError::RequestError("t".to_string())), Ok(100)));
    match carrier_retry_step(&p, 2, TwilioError::StatusError(503, "busy".to_string())) {
        Err(TwilioError::RetryExhausted(inner)) => {
            assert!(matches!(*inner, TwilioError::StatusError(503, _)))
        }
        _ => panic!("expected exhaustion"),
    }
}

#[test]
fn carrier_auth_failures_are_not_retried() {
    let p = RetryPolicy { max_attempts: 5, base_delay_ms: 100 };
    assert!(matches!(
        carrier_retry_step(&p, 1, TwilioError::StatusError(403, "no".to_string())),
        Err(TwilioError::StatusError(403, _))
    ));
    assert!(matches!(
        carrier_retry_step(&p, 1, TwilioError::StatusError(401, "no".to_string())),
        Err(TwilioError::StatusError(401, _))
    ));
    assert!(!TwilioError::StatusError(401, String::new()).is_retryable());
    assert!(TwilioError::StatusError(404, String::new()).is_retryable());
}

#[test]
fn call_status_actions() {
    assert!(matches!(status_action("in-progress"), StatusAction::SendGreeting));
    for s in ["completed", "busy", "no-answer", "canceled", "failed"] {
        assert!(matches!(status_action(s), StatusAction::CloseSession));
    }
    assert!(matches!(status_action("ringing"), StatusAction::Ignore));
}

#[test]
fn greeting_fallback() {
    assert_eq!(greeting_or_default(None), "Hello, welcome to our service.");
    assert_eq!(greeting_or_default(Some("Hi!".to_string())), "Hi!");
}

#[test]
fn overall_health() {
    let up = |n: &str| HealthCheck { name: n.to_string(), status: HealthStatus::Up };
    assert!(overall_status(&vec![up("a"), up("b")]) == HealthStatus::Up);
    let checks = vec![
        up("a"),
        HealthCheck { name: "b".to_string(), status: HealthStatus::Unknown },
    ];
    assert!(overall_status(&checks) == HealthStatus::Unknown);
    let checks = vec![
        HealthCheck { name: "b".to_string(), status: HealthStatus::Unknown },
        HealthCheck { name: "c".to_string(), status: HealthStatus::Down },
    ];
    let r = HealthResponse::from_checks(checks);
    assert!(r.status == HealthStatus::Down);
    assert_eq!(r.status.as_str(), "DOWN");
    assert!(overall_status(&vec![]) == HealthStatus::Up);
}

#[test]
fn decimal_settings_parse() {
    assert_eq!(parse_decimal("8000", 65_535), Some(8000));
    assert_eq!(parse_decimal("+42", 100), Some(42));
    assert_eq!(parse_decimal("65535", 65_535), Some(65_535));
    assert_eq!(parse_decimal("65536", 65_535), None);
    assert_eq!(parse_decimal("", 10), None);
    assert_eq!(parse_decimal("+", 10), None);
    assert_eq!(parse_decimal("-1", 10), None);
    assert_eq!(parse_decimal(" 1", 10), None);
    assert_eq!(parse_decimal("12a", 100), None);
    assert_eq!(parse_decimal("18446744073709551615", u64::MAX), Some(u64::MAX));
    assert_eq!(parse_decimal("18446744073709551616", u64::MAX), None);
    assert_eq!(parse_decimal("007", 10), Some(7));
}

#[test]
fn flag_settings_parse() {
    assert!(flag_is_true("true"));
    assert!(flag_is_true("TRUE"));
    assert!(flag_is_true("True"));
    assert!(!flag_is_true("yes"));
    assert!(!flag_is_true(" true"));
}
