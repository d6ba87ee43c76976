//! Plain data of carrier callbacks and call requests.

use vstd::prelude::*;

verus! {

/// The fields of a carrier webhook callback.
pub struct TwilioCallbackForm {
    pub call_sid: Option<String>,
    pub call_status: Option<String>,
    pub from_number: Option<String>,
    pub speech_result: Option<String>,
    pub unstable_speech_result: Option<String>,
}

/// The reply to a request for an outbound call placed with a session.
pub struct MakeCallResponse {
    pub message: String,
    pub session_id: String,
}

/// The backend's description of an opened session.
pub struct SessionInfo {
    pub session_id: String,
}

} // verus!
