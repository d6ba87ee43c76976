//! Webhook decisions: which reply a turn gets and the markup that carries
//! it, queue-poll answers, and call-status handling.

use vstd::prelude::*;

use crate::bridge::QueueSummary;
use crate::config::TwilioConfig;
use crate::speculative::FinalOutcome;
use crate::text::{trim, trimmed};
use crate::twiml::{
    create_hangup_response,
    create_voice_response,
    document_start,
    escaped,
    escaped_attr,
    gather_markup,
    hangup_response,
    opt_str,
    opt_string_view,
    voice_response,
    GatherOptions,
    GatherView,
    TwiML,
};

verus! {

pub const GREETING_FALLBACK: &'static str = "Hello, welcome to our service.";

pub const TECHNICAL_DIFFICULTIES: &'static str = "Sorry, we're experiencing technical difficulties.";

pub const SESSION_EXPIRED: &'static str = "Sorry, your session has expired.";

pub const NOT_UNDERSTOOD: &'static str = "I'm sorry, I didn't understand that.";

pub const PROCESSING_TROUBLE: &'static str =
    "I'm sorry, I'm having trouble processing your request right now.";

/// What the caller hears next.
pub enum Reply {
    /// Speak the text and keep listening.
    Speak(String),
    /// Speak the text, if any, and hang up.
    Hangup(Option<String>),
    /// Play the code as tones.
    Code(String),
    /// Wait for the streamed result of the generation in flight.
    AwaitQueue,
}

/// Whether a backend reply is a code to be played as tones.
pub open spec fn is_code(t: Seq<char>) -> bool {
    t.len() >= 5 && t.subrange(0, 5) == "Code:"@
}

/// The code that a code reply carries: what follows the tag, trimmed.
pub open spec fn code_of(t: Seq<char>) -> Seq<char> {
    trimmed(t.subrange(5, t.len() as int))
}

/// Whether `r` is the reply owed to a backend result: `ends` when the
/// backend ended the conversation, `response` its text if any.
pub open spec fn result_reply(ends: bool, response: Option<Seq<char>>, r: Reply) -> bool {
    if ends {
        r matches Reply::Hangup(m) && opt_string_view(m) == response
    } else {
        match response {
            Some(t) => if is_code(t) {
                r matches Reply::Code(c) && c@ == code_of(t)
            } else {
                r matches Reply::Speak(s) && s@ == t
            },
            None => r matches Reply::Speak(s) && s@ == NOT_UNDERSTOOD@,
        }
    }
}

/// Chooses the reply to a backend result.
pub fn reply_for_result(ends: bool, response: Option<String>) -> (r: Reply)
    ensures
        result_reply(ends, opt_string_view(response), r),
{
    if ends {
        return Reply::Hangup(response);
    }
    match response {
        Some(t) => {
            let tag = "Code:";
            proof {
                reveal_strlit("Code:");
            }
            let n = t.as_str().unicode_len();
            if n >= 5 {
                let head = t.as_str().substring_char(0, 5);
                if String::from_str(head) == String::from_str(tag) {
                    let rest = t.as_str().substring_char(5, n);
                    let code = trim(rest);
                    return Reply::Code(String::from_str(code));
                }
            }
            Reply::Speak(t)
        },
        None => Reply::Speak(String::from_str(NOT_UNDERSTOOD)),
    }
}

/// The reply when the backend call of a turn failed for good: an apology,
/// then the call ends.
pub fn reply_for_failure() -> (r: Reply)
    ensures
        r matches Reply::Hangup(Some(m)) && m@ == PROCESSING_TROUBLE@,
{
    Reply::Hangup(Some(String::from_str(PROCESSING_TROUBLE)))
}

/// The reply to a final transcript that needs no backend call, if any.
pub fn reply_for_final_outcome(outcome: &FinalOutcome) -> (r: Option<Reply>)
    ensures
        outcome is Expired || outcome is Ended ==> (r matches Some(Reply::Hangup(Some(m)))
            && m@ == SESSION_EXPIRED@),
        outcome is AwaitSpeculative ==> r matches Some(Reply::AwaitQueue),
        outcome is Run ==> r is None,
{
    match outcome {
        FinalOutcome::Expired => Some(Reply::Hangup(Some(String::from_str(SESSION_EXPIRED)))),
        FinalOutcome::Ended => Some(Reply::Hangup(Some(String::from_str(SESSION_EXPIRED)))),
        FinalOutcome::AwaitSpeculative => Some(Reply::AwaitQueue),
        FinalOutcome::Run { .. } => None,
    }
}

/// The `Gather` options of a code reply: the code is also spoken.
pub open spec fn code_gather(code: Seq<char>, c: TwilioConfig) -> GatherView {
    GatherView {
        input: Some("speech"@),
        action: Some(c.webhook_url@ + "/transcription_callback"@),
        method: Some("POST"@),
        timeout: Some(10),
        speech_timeout: Some("auto"@),
        barge_in: Some(true),
        partial_result_callback: Some(c.webhook_url@ + "/partial_callback"@),
        speech_model: Some(c.speech_model@),
        language: opt_string_view(c.language),
        say_text: Some(code),
        voice: Some(c.voice@),
    }
}

/// A response that polls the session's queue again after a pause.
pub open spec fn poll_response(c: TwilioConfig) -> Seq<char> {
    document_start() + "<Pause length=\""@ + "1"@ + "\"/>"@ + "<Redirect>"@ + escaped(
        c.webhook_url@ + "/queue_callback"@,
    ) + "</Redirect>"@ + "</Response>"@
}

/// The markup of a reply.
pub open spec fn reply_markup(r: Reply, c: TwilioConfig) -> Seq<char> {
    match r {
        Reply::Speak(t) => voice_response(t@, c, c.default_timeout, "auto"@),
        Reply::Hangup(m) => hangup_response(opt_string_view(m), c),
        Reply::Code(code) => document_start() + gather_markup(code_gather(code@, c))
            + "<Play digits=\""@ + escaped_attr(code@) + "\"/>"@ + "</Response>"@,
        Reply::AwaitQueue => poll_response(c),
    }
}

fn queue_url(config: &TwilioConfig) -> (r: String)
    ensures
        r@ == config.webhook_url@ + "/queue_callback"@,
{
    let mut url = config.webhook_url.clone();
    url.append("/queue_callback");
    url
}

/// Renders a reply as markup for the carrier.
pub fn render_reply(reply: &Reply, config: &TwilioConfig) -> (r: String)
    ensures
        r@ == reply_markup(*reply, *config),
{
    match reply {
        Reply::Speak(t) => create_voice_response(t.as_str(), config, config.default_timeout, "auto"),
        Reply::Hangup(m) => create_hangup_response(opt_str(m), config),
        Reply::Code(code) => {
            let mut action_url = config.webhook_url.clone();
            action_url.append("/transcription_callback");
            let mut partial_callback_url = config.webhook_url.clone();
            partial_callback_url.append("/partial_callback");
            let options = GatherOptions {
                input: Some("speech"),
                action: Some(action_url.as_str()),
                method: Some("POST"),
                timeout: Some(10),
                speech_timeout: Some("auto"),
                barge_in: Some(true),
                partial_result_callback: Some(partial_callback_url.as_str()),
                speech_model: Some(config.speech_model.as_str()),
                language: opt_str(&config.language),
                say_text: Some(code.as_str()),
                voice: Some(config.voice.as_str()),
            };
            proof {
                assert(options@ == code_gather(code@, *config));
            }
            TwiML::new().gather(options).play_digits(code.as_str()).build()
        },
        Reply::AwaitQueue => {
            let url = queue_url(config);
            let r = TwiML::new().pause(1).redirect(url.as_str()).build();
            proof {
                reveal_strlit("1");
                reveal_strlit("0123456789");
                assert(crate::twiml::decimal(1) =~= "1"@);
            }
            r
        },
    }
}

/// The markup that answers a poll of the session's queue: hang up after
/// the text if the conversation ended; otherwise speak the text, listening
/// briefly until the stream has ended, and poll again if text came.
pub open spec fn queue_markup(s: QueueSummary, c: TwilioConfig) -> Seq<char> {
    if s.end_of_conversation {
        hangup_response(
            if s.text@.len() == 0 {
                None
            } else {
                Some(s.text@)
            },
            c,
        )
    } else {
        let timeout: u32 = if s.end_of_stream {
            c.default_timeout
        } else {
            1
        };
        let speech_timeout = if s.end_of_stream {
            "auto"@
        } else {
            "1"@
        };
        if s.text@.len() == 0 {
            voice_response(Seq::empty(), c, timeout, speech_timeout)
        } else {
            document_start() + gather_markup(
                crate::twiml::prompt_gather(s.text@, c, timeout, speech_timeout),
            ) + "<Redirect>"@ + escaped(c.webhook_url@ + "/queue_callback"@) + "</Redirect>"@
                + "</Response>"@
        }
    }
}

/// Renders the answer to a poll of the session's queue.
pub fn render_queue_reply(summary: &QueueSummary, config: &TwilioConfig) -> (r: String)
    ensures
        r@ == queue_markup(*summary, *config),
{
    let has_text = summary.text.unicode_len() > 0;
    if summary.end_of_conversation {
        if has_text {
            return create_hangup_response(Some(summary.text.as_str()), config);
        } else {
            return create_hangup_response(None, config);
        }
    }
    let timeout = if summary.end_of_stream {
        config.default_timeout
    } else {
        1
    };
    let speech_timeout = if summary.end_of_stream {
        "auto"
    } else {
        "1"
    };
    if !has_text {
        let empty = String::new();
        return create_voice_response(empty.as_str(), config, timeout, speech_timeout);
    }
    let mut action_url = config.webhook_url.clone();
    action_url.append("/transcription_callback");
    let mut partial_callback_url = config.webhook_url.clone();
    partial_callback_url.append("/partial_callback");
    let options = GatherOptions {
        input: Some("speech"),
        action: Some(action_url.as_str()),
        method: Some("POST"),
        timeout: Some(timeout),
        speech_timeout: Some(speech_timeout),
        barge_in: Some(true),
        partial_result_callback: Some(partial_callback_url.as_str()),
        speech_model: Some(config.speech_model.as_str()),
        language: opt_str(&config.language),
        say_text: Some(summary.text.as_str()),
        voice: Some(config.voice.as_str()),
    };
    let url = queue_url(config);
    TwiML::new().gather(options).redirect(url.as_str()).build()
}

/// What a call-status callback asks for.
pub enum StatusAction {
    /// The call was answered: speak the session's greeting.
    SendGreeting,
    /// The call is over: remove the session and close it at the backend.
    CloseSession,
    /// Nothing to do.
    Ignore,
}

/// Whether a carrier call status means the call is over.
pub open spec fn is_final_status(s: Seq<char>) -> bool {
    s == "completed"@ || s == "busy"@ || s == "no-answer"@ || s == "canceled"@ || s
        == "failed"@
}

/// Classifies a carrier call status.
pub fn status_action(status: &str) -> (r: StatusAction)
    ensures
        status@ == "in-progress"@ ==> r is SendGreeting,
        status@ != "in-progress"@ && is_final_status(status@) ==> r is CloseSession,
        status@ != "in-progress"@ && !is_final_status(status@) ==> r is Ignore,
{
    let s = String::from_str(status);
    if s == String::from_str("in-progress") {
        StatusAction::SendGreeting
    } else if s == String::from_str("completed") || s == String::from_str("busy") || s
        == String::from_str("no-answer") || s == String::from_str("canceled") || s
        == String::from_str("failed") {
        StatusAction::CloseSession
    } else {
        StatusAction::Ignore
    }
}

/// The greeting to speak: the backend's, or a fallback.
pub fn greeting_or_default(greeting: Option<String>) -> (r: String)
    ensures
        greeting is Some ==> r == greeting->Some_0,
        greeting is None ==> r@ == GREETING_FALLBACK@,
{
    match greeting {
        Some(g) => g,
        None => String::from_str(GREETING_FALLBACK),
    }
}

} // verus!
