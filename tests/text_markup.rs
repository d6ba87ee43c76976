use twilio_bot::config::TwilioConfig;
use twilio_bot::text::{
    collapse_whitespace, is_space_char, normalize_transcript, transcripts_match, trim,
};
use twilio_bot::twiml::{
    create_hangup_response, create_voice_response, decimal_string, ends_with_sentence_punctuation,
    escape_xml, escape_xml_attr, GatherOptions, TwiML,
};

fn config() -> TwilioConfig {
    TwilioConfig {
        account_sid: "AC1".to_string(),
        auth_token: "tok".to_string(),
        from_number: "+100".to_string(),
        webhook_url: "https://h.example/twilio".to_string(),
        webhook_port: 8000,
        voice: "Polly.Salli".to_string(),
        speech_model: "googlev2_telephony".to_string(),
        default_timeout: 10,
        partial_processing: true,
        language: None,
        region: None,
        edge: None,
    }
}

#[test]
fn whitespace_is_collapsed() {
    assert_eq!(collapse_whitespace("  hello \t  there.\n"), "hello there.");
    assert_eq!(collapse_whitespace(""), "");
    assert_eq!(collapse_whitespace("   "), "");
    assert_eq!(collapse_whitespace("a\u{3000}b"), "a b");
}

#[test]
fn transcripts_normalize() {
    assert_eq!(normalize_transcript("Hello   THERE."), "hello there.");
    assert_eq!(normalize_transcript("ÀBC  Déjà\tVU"), "àbc déjà vu");
    assert!(is_space_char('\u{85}'));
    assert!(!is_space_char('x'));
}

#[test]
fn trimming() {
    assert_eq!(trim("  x y \n"), "x y");
    assert_eq!(trim("\u{3000}\u{a0}z\u{2029}"), "z");
    assert_eq!(trim("   "), "");
    assert_eq!(trim(""), "");
    assert_eq!(trim("abc"), "abc");
}

#[test]
fn duplicate_transcripts_match() {
    assert!(transcripts_match("Hello there.", "hello   there."));
    assert!(!transcripts_match("Hello there.", "hello there now."));
    assert!(!transcripts_match("Hello there.", "Hello there"));
}

#[test]
fn sentence_punctuation() {
    assert!(ends_with_sentence_punctuation("Is it raining? "));
    assert!(ends_with_sentence_punctuation("Stop!"));
    assert!(ends_with_sentence_punctuation(" done.\n"));
    assert!(!ends_with_sentence_punctuation("and then"));
    assert!(!ends_with_sentence_punctuation("   "));
    assert!(!ends_with_sentence_punctuation(""));
}

#[test]
fn xml_escaping() {
    assert_eq!(escape_xml("a<b>&c\"'"), "a&lt;b&gt;&amp;c\"'");
    assert_eq!(escape_xml_attr("a<b>&c\"'"), "a&lt;b&gt;&amp;c&quot;&apos;");
}

#[test]
fn decimal_forms() {
    assert_eq!(decimal_string(0), "0");
    assert_eq!(decimal_string(10), "10");
    assert_eq!(decimal_string(4_294_967_295), "4294967295");
}

#[test]
fn builder_elements() {
    let xml = TwiML::new()
        .say("Hi & bye", "alice", Some("en-US"))
        .pause(2)
        .play_digits("12#")
        .redirect("https://x/q?a=1&b=2")
        .hangup()
        .build();
    assert_eq!(
        xml,
        "<?xml version=\"1.0\" encoding=\"UTF-8\"?><Response>\
<Say voice=\"alice\" language=\"en-US\">Hi &amp; bye</Say>\
<Pause length=\"2\"/><Play digits=\"12#\"/>\
<Redirect>https://x/q?a=1&amp;b=2</Redirect><Hangup/></Response>"
    );
}

#[test]
fn say_skips_empty_voice_and_language() {
    let xml = TwiML::new().say("ok", "", Some("")).build();
    assert_eq!(
        xml,
        "<?xml version=\"1.0\" encoding=\"UTF-8\"?><Response><Say>ok</Say></Response>"
    );
}

#[test]
fn gather_with_defaults() {
    let xml = TwiML::new().gather(GatherOptions::default()).build();
    assert_eq!(
        xml,
        "<?xml version=\"1.0\" encoding=\"UTF-8\"?><Response>\
<Gather input=\"speech\" method=\"POST\" timeout=\"10\" speechTimeout=\"auto\" bargeIn=\"true\">\
</Gather></Response>"
    );
}

#[test]
fn voice_response_markup() {
    let xml = create_voice_response("Hi & bye", &config(), 10, "auto");
    assert_eq!(
        xml,
        "<?xml version=\"1.0\" encoding=\"UTF-8\"?><Response>\
<Gather input=\"speech\" action=\"https://h.example/twilio/transcription_callback\" \
method=\"POST\" timeout=\"10\" speechTimeout=\"auto\" bargeIn=\"true\" \
partialResultCallback=\"https://h.example/twilio/partial_callback\" \
speechModel=\"googlev2_telephony\"><Say voice=\"Polly.Salli\">Hi &amp; bye</Say>\
</Gather></Response>"
    );
}

#[test]
fn spoken_reply_is_verbatim() {
    let xml = create_voice_response("It's sunny.", &config(), 10, "auto");
    assert!(xml.ends_with("<Say voice=\"Polly.Salli\">It's sunny.</Say></Gather></Response>"));
    assert!(xml.contains(" action=\"https://h.example/twilio/transcription_callback\""));
    assert!(!xml.contains("<Hangup/>"));
}

#[test]
fn voice_response_with_language() {
    let mut c = config();
    c.language = Some("en-GB".to_string());
    let xml = create_voice_response("", &c, 1, "1");
    assert!(xml.contains(" timeout=\"1\" speechTimeout=\"1\""));
    assert!(xml.contains(" language=\"en-GB\"><Say voice=\"Polly.Salli\" language=\"en-GB\"></Say>"));
}

#[test]
fn hangup_response_markup() {
    assert_eq!(
        create_hangup_response(Some("Bye"), &config()),
        "<?xml version=\"1.0\" encoding=\"UTF-8\"?><Response>\
<Say voice=\"Polly.Salli\">Bye</Say><Hangup/></Response>"
    );
    assert_eq!(
        create_hangup_response(None, &config()),
        "<?xml version=\"1.0\" encoding=\"UTF-8\"?><Response><Hangup/></Response>"
    );
}
