//! The telephony carrier account: API URLs, credentials, errors and the
//! retry decision for carrier calls.

use vstd::prelude::*;

use base64::Engine;

use crate::resilience::RetryStep;

verus! {

/// A call resource as the carrier reports it.
pub struct TwilioCall {
    pub sid: String,
    pub status: String,
}

/// Errors of a carrier API call.
pub enum TwilioError {
    /// The request did not reach the carrier or no reply came back.
    RequestError(String),
    /// The carrier's reply could not be used.
    ApiError(String),
    /// The carrier answered with a non-success status and this body.
    StatusError(u16, String),
    /// Every allowed attempt failed; holds the last failure.
    RetryExhausted(Box<TwilioError>),
}

impl TwilioError {
    /// A carrier failure may be retried unless the carrier rejected the
    /// credentials (status 401 or 403).
    pub open spec fn spec_is_retryable(&self) -> bool {
        !(self matches TwilioError::StatusError(status, _) && (status == 401 || status == 403))
    }

    pub fn is_retryable(&self) -> (r: bool)
        ensures
            r == self.spec_is_retryable(),
    {
        match self {
            TwilioError::StatusError(status, _) => !(*status == 401 || *status == 403),
            _ => true,
        }
    }
}

/// What follows a failed carrier call, as an error to report or a delay
/// before the next attempt. Authentication failures are handed back at
/// once; others are retried until the attempts are spent.
pub fn carrier_retry_step(policy: &crate::resilience::RetryPolicy, failures: usize, err: TwilioError) -> (r:
    Result<u64, TwilioError>)
    requires
        failures >= 1,
        failures <= u32::MAX,
    ensures
        match policy.step_after(failures as nat, err.spec_is_retryable()) {
            RetryStep::Stop => r == Err::<u64, TwilioError>(err),
            RetryStep::Exhausted => r == Err::<u64, TwilioError>(
                TwilioError::RetryExhausted(Box::new(err)),
            ),
            RetryStep::Wait(d) => r == Ok::<u64, TwilioError>(d),
        },
{
    let retryable = err.is_retryable();
    match policy.next_step(failures, retryable) {
        RetryStep::Stop => Err(err),
        RetryStep::Exhausted => Err(TwilioError::RetryExhausted(Box::new(err))),
        RetryStep::Wait(d) => Ok(d),
    }
}

/// The standard, padded base64 form of the UTF-8 bytes of a text.
pub uninterp spec fn base64_of(s: Seq<char>) -> Seq<char>;

/// The percent-encoded form of the UTF-8 bytes of a text.
pub uninterp spec fn url_encoded(s: Seq<char>) -> Seq<char>;

/// Relies on base64's STANDARD engine `encode`: the padded base64 text of
/// the input's bytes, which depends on them alone.
#[verifier::external_body]
fn encode_base64(s: &str) -> (r: String)
    ensures
        r@ == base64_of(s@),
{
    base64::engine::general_purpose::STANDARD.encode(s)
}

/// Relies on urlencoding::encode: the percent-encoded text of the input,
/// which depends on it alone.
#[verifier::external_body]
fn encode_url_component(s: &str) -> (r: String)
    ensures
        r@ == url_encoded(s@),
{
    urlencoding::encode(s).into_owned()
}

/// `prefix-` when a non-empty prefix is set, else nothing.
pub open spec fn host_prefix(p: Option<String>) -> Seq<char> {
    match p {
        Some(v) => if v@.len() > 0 {
            v@ + "-"@
        } else {
            Seq::empty()
        },
        None => Seq::empty(),
    }
}

fn push_host_prefix(out: &mut String, p: &Option<String>)
    ensures
        final(out)@ == old(out)@ + host_prefix(*p),
{
    match p {
        Some(v) => {
            if v.unicode_len() > 0 {
                out.append(v.as_str());
                out.append("-");
            } else {
                proof {
                    assert(old(out)@ + Seq::<char>::empty() =~= old(out)@);
                }
            }
        },
        None => {
            proof {
                assert(old(out)@ + Seq::<char>::empty() =~= old(out)@);
            }
        },
    }
}

/// The credentials and routing of a carrier account.
pub struct TwilioAccount {
    pub account_sid: String,
    pub auth_token: String,
    pub region: Option<String>,
    pub edge: Option<String>,
}

/// The value of a basic authorization header for base64 credentials.
pub fn basic_auth_value(encoded_credentials: &str) -> (r: String)
    ensures
        r@ == "Basic "@ + encoded_credentials@,
{
    let mut r = String::from_str("Basic ");
    r.append(encoded_credentials);
    r
}

/// The URL that lists the account's numbers matching an encoded number.
pub fn phone_numbers_url_for(base: &str, encoded_number: &str) -> (r: String)
    ensures
        r@ == base@ + "/IncomingPhoneNumbers.json?PhoneNumber="@ + encoded_number@,
{
    let mut r = String::from_str(base);
    r.append("/IncomingPhoneNumbers.json?PhoneNumber=");
    r.append(encoded_number);
    r
}

impl TwilioAccount {
    /// The account's API base URL, with the edge and region, if set, in
    /// the host name.
    pub open spec fn spec_base_url(&self) -> Seq<char> {
        "https://"@ + host_prefix(self.edge) + "api."@ + host_prefix(self.region)
            + "twilio.com/2010-04-01/Accounts/"@ + self.account_sid@
    }

    pub fn base_url(&self) -> (r: String)
        ensures
            r@ == self.spec_base_url(),
    {
        let mut r = String::from_str("https://");
        push_host_prefix(&mut r, &self.edge);
        r.append("api.");
        push_host_prefix(&mut r, &self.region);
        r.append("twilio.com/2010-04-01/Accounts/");
        r.append(self.account_sid.as_str());
        r
    }

    /// The basic authorization header value for the account.
    pub fn auth_header(&self) -> (r: String)
        ensures
            r@ == "Basic "@ + base64_of(self.account_sid@ + ":"@ + self.auth_token@),
    {
        let mut credentials = self.account_sid.clone();
        credentials.append(":");
        credentials.append(self.auth_token.as_str());
        let encoded = encode_base64(credentials.as_str());
        basic_auth_value(encoded.as_str())
    }

    /// The URL of the account's call collection.
    pub fn calls_url(&self) -> (r: String)
        ensures
            r@ == self.spec_base_url() + "/Calls.json"@,
    {
        let mut r = self.base_url();
        r.append("/Calls.json");
        r
    }

    /// The URL of one call.
    pub fn call_url(&self, call_sid: &str) -> (r: String)
        ensures
            r@ == self.spec_base_url() + "/Calls/"@ + call_sid@ + ".json"@,
    {
        let mut r = self.base_url();
        r.append("/Calls/");
        r.append(call_sid);
        r.append(".json");
        r
    }

    /// The URL that lists the account's numbers matching `phone_number`.
    pub fn phone_numbers_url(&self, phone_number: &str) -> (r: String)
        ensures
            r@ == self.spec_base_url() + "/IncomingPhoneNumbers.json?PhoneNumber="@ + url_encoded(
                phone_number@,
            ),
    {
        let base = self.base_url();
        let encoded = encode_url_component(phone_number);
        phone_numbers_url_for(base.as_str(), encoded.as_str())
    }

    /// The URL of one of the account's numbers.
    pub fn phone_number_url(&self, phone_number_sid: &str) -> (r: String)
        ensures
            r@ == self.spec_base_url() + "/IncomingPhoneNumbers/"@ + phone_number_sid@ + ".json"@,
    {
        let mut r = self.base_url();
        r.append("/IncomingPhoneNumbers/");
        r.append(phone_number_sid);
        r.append(".json");
        r
    }
}

} // verus!
