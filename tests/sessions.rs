use twilio_bot::bridge::{
    reconnect_backoff_secs, summarize_messages, Delivery, WebSocketClient, WsMessage,
};
use twilio_bot::config::TwilioConfig;
use twilio_bot::orchestrator::{
    render_queue_reply, render_reply, reply_for_failure, reply_for_final_outcome,
    reply_for_result, Reply, SESSION_EXPIRED,
};
use twilio_bot::registry::SessionStore;
use twilio_bot::session::{MessageType, Session};
use twilio_bot::speculative::{FinalOutcome, PartialOutcome};

const MINUTE: i64 = 60_000;

fn config() -> TwilioConfig {
    TwilioConfig {
        account_sid: "AC1".to_string(),
        auth_token: "tok".to_string(),
        from_number: "+100".to_string(),
        webhook_url: "https://h.example/twilio".to_string(),
        webhook_port: 8000,
        voice: "Polly.Salli".to_string(),
        speech_model: "googlev2_telephony".to_string(),
        default_timeout: 10,
        partial_processing: true,
        language: None,
        region: None,
        edge: None,
    }
}

fn session(id: &str, conv: Option<&str>, now: i64) -> Session {
    Session::new_at(
        id.to_string(),
        "u".to_string(),
        "+1555".to_string(),
        "twilio".to_string(),
        conv.map(|c| c.to_string()),
        now,
    )
}

#[test]
fn new_session_is_idle() {
    let s = Session::new("u".to_string(), "n".to_string(), "twilio".to_string(), None);
    assert_eq!(s.session_id.len(), 36);
    assert!(!s.generation && !s.session_ends && !s.run_in_progress);
    assert_eq!(s.creation_time, s.last_activity_time);
}

#[test]
fn activity_time_never_moves_back() {
    let mut s = session("s1", None, 1_000);
    s.update_activity_time_at(500);
    assert_eq!(s.last_activity_time, 1_000);
    s.update_activity_time_at(2_000);
    assert_eq!(s.last_activity_time, 2_000);
    assert!(s.is_expired_at(10, 2_011));
    assert!(!s.is_expired_at(10, 2_010));
    s.update_activity_time();
    assert!(s.last_activity_time >= 2_000);
    assert!(!s.is_expired(MINUTE));
}

#[test]
fn metadata_keeps_latest_value() {
    let mut s = session("s1", None, 0);
    assert!(s.get_metadata("greeting").is_none());
    s.set_metadata("greeting".to_string(), "Hello.".to_string());
    s.set_metadata("lang".to_string(), "en".to_string());
    assert_eq!(s.get_metadata("greeting").as_deref(), Some("Hello."));
    s.set_metadata("greeting".to_string(), "Hi again.".to_string());
    assert_eq!(s.get_metadata("greeting").as_deref(), Some("Hi again."));
    assert_eq!(s.get_metadata("lang").as_deref(), Some("en"));
    assert!(s.get_metadata("other").is_none());
}

#[test]
fn session_sentence_check() {
    assert!(Session::ends_with_sentence_punctuation("Really? "));
    assert!(!Session::ends_with_sentence_punctuation("Really"));
}

#[test]
fn unstable_result_comparison() {
    let mut s = session("s1", None, 0);
    assert!(!s.unstable_speech_result_is_the_same("hi."));
    s.unstable_speech_result = Some("Hello there.".to_string());
    assert!(s.unstable_speech_result_is_the_same("hello   there."));
    assert!(!s.unstable_speech_result_is_the_same("hello there"));
}

#[test]
fn conversation_index_is_bijective() {
    let mut store = SessionStore::new();
    let id = store.add_session(session("s1", Some("CA1"), 0));
    assert_eq!(id, "s1");
    store.add_session(session("s2", Some("CA2"), 0));
    assert_eq!(store.get_session_id_by_conversation("CA1").as_deref(), Some("s1"));
    assert_eq!(store.get_session_by_conversation("CA2").unwrap().session_id, "s2");
    let removed = store.remove_by_conversation("CA1").unwrap();
    assert_eq!(removed.session_id, "s1");
    assert!(store.get_session("s1").is_none());
    assert!(store.get_session_id_by_conversation("CA1").is_none());
    let removed = store.remove_session("s2").unwrap();
    assert_eq!(removed.conversation_id.as_deref(), Some("CA2"));
    assert!(store.get_session_by_conversation("CA2").is_none());
    assert_eq!(store.len(), 0);
}

#[test]
fn conversation_rebinding_moves_the_binding() {
    let mut store = SessionStore::new();
    store.add_session(session("s1", Some("CA1"), 0));
    store.add_session(session("s2", Some("CA1"), 0));
    assert_eq!(store.get_session_id_by_conversation("CA1").as_deref(), Some("s2"));
    assert!(store.get_session("s1").unwrap().conversation_id.is_none());
    assert!(store.set_conversation_mapping("CA1".to_string(), "s1".to_string()));
    assert_eq!(store.get_session_id_by_conversation("CA1").as_deref(), Some("s1"));
    assert!(store.get_session("s2").unwrap().conversation_id.is_none());
    assert!(!store.set_conversation_mapping("CA9".to_string(), "nope".to_string()));
    assert!(store.get_session_id_by_conversation("CA9").is_none());
}

#[test]
fn adding_same_id_replaces() {
    let mut store = SessionStore::new();
    store.add_session(session("s1", Some("CA1"), 0));
    store.add_session(session("s1", Some("CA2"), 5));
    assert_eq!(store.len(), 1);
    assert_eq!(store.get_session("s1").unwrap().creation_time, 5);
    assert_eq!(store.get_session_id_by_conversation("CA2").as_deref(), Some("s1"));
}

#[test]
fn remove_twice_is_safe() {
    let mut store = SessionStore::new();
    store.add_session(session("s1", Some("CA1"), 0));
    store.add_session(session("s2", None, 0));
    assert!(store.remove_session("s1").is_some());
    assert!(store.remove_session("s1").is_none());
    assert_eq!(store.len(), 1);
    assert!(store.get_session("s2").is_some());
}

#[test]
fn write_access_refreshes_activity() {
    let mut store = SessionStore::new();
    store.add_session(session("s1", Some("CA1"), 100));
    assert!(store.get_session_mut("s1", 200));
    assert_eq!(store.get_session("s1").unwrap().last_activity_time, 200);
    assert_eq!(store.get_session_by_conversation_mut("CA1", 300).as_deref(), Some("s1"));
    assert_eq!(store.get_session("s1").unwrap().last_activity_time, 300);
    assert!(!store.get_session_mut("zz", 400));
    assert!(store.get_session_by_conversation_mut("CA9", 400).is_none());
}

#[test]
fn idle_sweep_removes_only_stale_sessions() {
    let now = 100 * MINUTE;
    let mut store = SessionStore::new();
    store.add_session(session("old", Some("CA1"), now - 31 * MINUTE));
    store.add_session(session("fresh", Some("CA2"), now - 5 * MINUTE));
    store.cleanup_expired_sessions_at(30 * MINUTE, now);
    assert!(store.get_session("old").is_none());
    assert!(store.get_session_id_by_conversation("CA1").is_none());
    assert!(store.get_session("fresh").is_some());
    assert_eq!(store.len(), 1);
}

#[test]
fn sweep_keeps_boundary_and_order() {
    let mut store = SessionStore::new();
    store.add_session(session("a", None, 0));
    store.add_session(session("b", None, 70));
    store.add_session(session("c", None, 50));
    store.cleanup_expired_sessions_at(50, 100);
    assert_eq!(store.len(), 2);
    assert!(store.get_session("a").is_none());
    store.cleanup_expired_sessions(i64::MAX);
    assert_eq!(store.len(), 2);
}

#[test]
fn duplicate_partials_start_one_generation() {
    let mut store = SessionStore::new();
    store.add_session(session("s1", Some("CA1"), 0));
    let first = store.on_partial_transcript("CA1", "Hello there.", true, 1);
    let epoch = match first {
        PartialOutcome::Start { session_id, epoch } => {
            assert_eq!(session_id, "s1");
            epoch
        }
        _ => panic!("expected a start"),
    };
    assert_eq!(epoch, 1);
    let second = store.on_partial_transcript("CA1", "hello   there.", true, 2);
    assert!(matches!(second, PartialOutcome::Duplicate));
    let s = store.get_session("s1").unwrap();
    assert!(s.generation && s.run_in_progress);
    assert_eq!(s.generation_epoch, 1);
    assert_eq!(s.last_activity_time, 2);
}

#[test]
fn partial_edge_cases() {
    let mut store = SessionStore::new();
    store.add_session(session("s1", Some("CA1"), 0));
    assert!(matches!(store.on_partial_transcript("CA1", "Hello there.", false, 1), PartialOutcome::Ignored));
    assert!(matches!(store.on_partial_transcript("CA1", "Hello there", true, 1), PartialOutcome::Ignored));
    assert!(matches!(store.on_partial_transcript("CA9", "Hello.", true, 1), PartialOutcome::NotFound));
    assert!(matches!(store.on_partial_transcript("CA1", "Hello.", true, 1), PartialOutcome::Start { .. }));
    assert!(matches!(store.on_partial_transcript("CA1", "Hello you.", true, 2), PartialOutcome::Start { epoch: 2, .. }));
    store.on_generation_result("s1", 2, true, 3);
    assert!(matches!(store.on_partial_transcript("CA1", "Bye.", true, 4), PartialOutcome::SessionEnded));
}

#[test]
fn racing_partial_and_final_keep_one_owner() {
    let mut store = SessionStore::new();
    store.add_session(session("s1", Some("CA1"), 0));
    let start_epoch = match store.on_partial_transcript("CA1", "Call my mother.", true, 1) {
        PartialOutcome::Start { epoch, .. } => epoch,
        _ => panic!("expected a start"),
    };
    let run_epoch = match store.on_final_transcript("CA1", "Call my brother.", 2) {
        FinalOutcome::Run { epoch, .. } => epoch,
        _ => panic!("expected a run"),
    };
    assert_ne!(start_epoch, run_epoch);
    store.on_generation_failed("s1", start_epoch, 3);
    assert!(store.get_session("s1").unwrap().generation);
    assert!(!store.on_generation_result("s1", run_epoch, false, 4));
    assert!(!store.get_session("s1").unwrap().generation);
}

#[test]
fn stale_result_keeps_newer_generation() {
    let mut store = SessionStore::new();
    store.add_session(session("s1", Some("CA1"), 0));
    store.on_partial_transcript("CA1", "One.", true, 1);
    store.on_partial_transcript("CA1", "One two.", true, 2);
    assert!(!store.on_generation_result("s1", 1, false, 3));
    assert!(store.get_session("s1").unwrap().generation);
    store.on_generation_failed("s1", 2, 4);
    assert!(!store.get_session("s1").unwrap().generation);
    assert!(!store.on_generation_result("nope", 2, true, 5));
}

#[test]
fn final_transcript_matching_speculation_awaits_it() {
    let mut store = SessionStore::new();
    store.add_session(session("s1", Some("CA1"), 0));
    store.on_partial_transcript("CA1", "Book a table.", true, 1);
    let outcome = store.on_final_transcript("CA1", "book a  table.", 2);
    assert!(matches!(outcome, FinalOutcome::AwaitSpeculative));
    let reply = reply_for_final_outcome(&outcome).unwrap();
    assert!(matches!(reply, Reply::AwaitQueue));
    let xml = render_reply(&reply, &config());
    assert_eq!(
        xml,
        "<?xml version=\"1.0\" encoding=\"UTF-8\"?><Response><Pause length=\"1\"/>\
<Redirect>https://h.example/twilio/queue_callback</Redirect></Response>"
    );
}

#[test]
fn inbound_turn_speaks_backend_reply() {
    let mut store = SessionStore::new();
    store.add_session(session("s1", Some("CA1"), 0));
    let outcome = store.on_final_transcript("CA1", "What's the weather?", 10);
    let (sid, epoch) = match outcome {
        FinalOutcome::Run { session_id, epoch } => (session_id, epoch),
        _ => panic!("expected a run"),
    };
    assert!(reply_for_final_outcome(&FinalOutcome::Run { session_id: sid.clone(), epoch }).is_none());
    assert!(store.get_session("s1").unwrap().generation);
    let ends = store.on_generation_result(&sid, epoch, false, 20);
    assert!(!ends);
    let reply = reply_for_result(ends, Some("It's sunny.".to_string()));
    let xml = render_reply(&reply, &config());
    assert!(xml.contains("It's sunny."));
    assert!(!xml.contains("<Hangup/>"));
    let s = store.get_session_by_conversation("CA1").unwrap();
    assert!(!s.session_ends && !s.generation);
}

#[test]
fn ending_turn_hangs_up_and_later_turns_expire() {
    let mut store = SessionStore::new();
    store.add_session(session("s1", Some("CA1"), 0));
    let (sid, epoch) = match store.on_final_transcript("CA1", "Goodbye.", 10) {
        FinalOutcome::Run { session_id, epoch } => (session_id, epoch),
        _ => panic!("expected a run"),
    };
    let ends = store.on_generation_result(&sid, epoch, true, 20);
    assert!(ends);
    assert!(store.get_session("s1").unwrap().session_ends);
    let reply = reply_for_result(ends, Some("Bye now.".to_string()));
    let xml = render_reply(&reply, &config());
    assert!(xml.ends_with("<Say voice=\"Polly.Salli\">Bye now.</Say><Hangup/></Response>"));
    let later = store.on_final_transcript("CA1", "Hello?", 30);
    assert!(matches!(later, FinalOutcome::Ended));
    let reply = reply_for_final_outcome(&later).unwrap();
    match &reply {
        Reply::Hangup(Some(m)) => assert_eq!(m, SESSION_EXPIRED),
        _ => panic!("expected the expired-session message"),
    }
    assert!(render_reply(&reply, &config()).contains("Sorry, your session has expired.</Say><Hangup/>"));
    assert!(matches!(store.on_final_transcript("CA7", "Hi.", 30), FinalOutcome::Expired));
}

#[test]
fn code_replies_play_digits() {
    match reply_for_result(false, Some("Code: 1234 ".to_string())) {
        Reply::Code(c) => assert_eq!(c, "1234"),
        _ => panic!("expected a code"),
    }
    let xml = render_reply(&Reply::Code("42#".to_string()), &config());
    assert!(xml.contains("<Say voice=\"Polly.Salli\">42#</Say></Gather><Play digits=\"42#\"/></Response>"));
    assert!(xml.contains(" timeout=\"10\""));
}

#[test]
fn result_replies_without_code() {
    assert!(matches!(reply_for_result(false, None), Reply::Speak(ref t) if t == "I'm sorry, I didn't understand that."));
    assert!(matches!(reply_for_result(false, Some("Cod".to_string())), Reply::Speak(ref t) if t == "Cod"));
    assert!(matches!(reply_for_result(true, None), Reply::Hangup(None)));
    assert!(matches!(reply_for_failure(), Reply::Hangup(Some(ref m)) if m == "I'm sorry, I'm having trouble processing your request right now."));
}

#[test]
fn events_are_classified() {
    let m = WsMessage { kind: "message".to_string(), message: "hi".to_string() };
    assert!(matches!(m.into_message(), Some(MessageType::Text(ref t)) if t == "hi"));
    let m = WsMessage { kind: "eos".to_string(), message: String::new() };
    assert!(matches!(m.into_message(), Some(MessageType::EndOfStream)));
    let m = WsMessage { kind: "timeout".to_string(), message: String::new() };
    assert!(matches!(m.into_message(), Some(MessageType::EndOfConversation)));
    let m = WsMessage { kind: "other".to_string(), message: String::new() };
    assert!(m.into_message().is_none());
}

#[test]
fn events_reach_the_queue_in_order() {
    let mut store = SessionStore::new();
    store.add_session(session("s1", Some("CA1"), 0));
    assert!(matches!(store.deliver("s1", MessageType::Text("Hello".to_string()), 5), Delivery::Queued));
    assert!(matches!(store.deliver("s1", MessageType::Text("world".to_string()), 6), Delivery::Queued));
    assert!(matches!(store.deliver("s1", MessageType::EndOfStream, 7), Delivery::Queued));
    assert!(matches!(store.deliver("gone", MessageType::EndOfStream, 7), Delivery::NoSession));
    assert_eq!(store.get_session("s1").unwrap().last_activity_time, 7);
    let drained = store.drain_queue("CA1", 8).unwrap();
    assert_eq!(drained.len(), 3);
    let summary = summarize_messages(&drained);
    assert_eq!(summary.text, "Hello world");
    assert!(summary.end_of_stream && !summary.end_of_conversation);
    assert_eq!(store.drain_queue("CA1", 9).unwrap().len(), 0);
    assert!(store.drain_queue("CA9", 9).is_none());
}

#[test]
fn full_queue_drops_events() {
    let mut store = SessionStore::new();
    store.add_session(session("s1", None, 0));
    for i in 0..100 {
        assert!(matches!(store.deliver("s1", MessageType::Text(i.to_string()), 1), Delivery::Queued));
    }
    assert!(matches!(store.deliver("s1", MessageType::EndOfStream, 2), Delivery::Dropped));
}

#[test]
fn queue_poll_responses() {
    let c = config();
    let eoc = summarize_messages(&vec![MessageType::Text("Bye".to_string()), MessageType::EndOfConversation]);
    assert_eq!(
        render_queue_reply(&eoc, &c),
        "<?xml version=\"1.0\" encoding=\"UTF-8\"?><Response><Say voice=\"Polly.Salli\">Bye</Say><Hangup/></Response>"
    );
    let partial = summarize_messages(&vec![MessageType::Text("Part".to_string())]);
    let xml = render_queue_reply(&partial, &c);
    assert!(xml.contains(" timeout=\"1\" speechTimeout=\"1\""));
    assert!(xml.ends_with("</Gather><Redirect>https://h.example/twilio/queue_callback</Redirect></Response>"));
    let done = summarize_messages(&vec![MessageType::EndOfStream]);
    let xml = render_queue_reply(&done, &c);
    assert!(xml.contains(" timeout=\"10\" speechTimeout=\"auto\""));
    assert!(!xml.contains("Redirect"));
}

#[test]
fn reconnect_backoff_grows_and_caps() {
    assert_eq!(reconnect_backoff_secs(0), 0);
    assert_eq!(reconnect_backoff_secs(1), 5);
    assert_eq!(reconnect_backoff_secs(2), 10);
    assert_eq!(reconnect_backoff_secs(6), 160);
    assert_eq!(reconnect_backoff_secs(7), 300);
    assert_eq!(reconnect_backoff_secs(usize::MAX), 300);
}

#[test]
fn reconnect_attempts_follow_backoff() {
    let mut c = WebSocketClient::new_at("s1".to_string(), "ws://b".to_string(), 0);
    assert!(c.begin_reconnect_at(0));
    c.record_connect_failure();
    assert_eq!(c.consecutive_failures, 1);
    assert!(!c.begin_reconnect_at(4_999));
    assert!(c.begin_reconnect_at(5_000));
    assert_eq!(c.last_reconnect_attempt, 5_000);
    c.record_connected();
    assert!(c.connected && c.consecutive_failures == 0);
    assert!(!c.begin_reconnect_at(100_000));
    c.record_disconnected();
    assert!(c.begin_reconnect_at(100_000));
    let fresh = WebSocketClient::new("s2".to_string(), "ws://b".to_string());
    assert!(!fresh.connected);
}
