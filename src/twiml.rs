//! The voice-response markup builder and XML escaping.

use vstd::prelude::*;

use crate::config::TwilioConfig;
use crate::text::{trim, trimmed};

verus! {

/// Whether `s`, trimmed, ends with one of `.`, `!`, `?`.
pub open spec fn sentence_final(s: Seq<char>) -> bool {
    let t = trimmed(s);
    t.len() > 0 && (t.last() == '.' || t.last() == '!' || t.last() == '?')
}

/// Whether `text` ends with sentence punctuation once surrounding white
/// space is trimmed.
pub fn ends_with_sentence_punctuation(text: &str) -> (r: bool)
    ensures
        r == sentence_final(text@),
{
    let t = trim(text);
    let n = t.unicode_len();
    if n == 0 {
        false
    } else {
        let c = t.get_char(n - 1);
        c == '.' || c == '!' || c == '?'
    }
}

/// `c` as it stands in XML text: `&`, `<` and `>` become entities.
pub open spec fn escaped_char(c: char) -> Seq<char> {
    if c == '&' {
        "&amp;"@
    } else if c == '<' {
        "&lt;"@
    } else if c == '>' {
        "&gt;"@
    } else {
        seq![c]
    }
}

/// `c` as it stands in an XML attribute value: quotes become entities too.
pub open spec fn escaped_attr_char(c: char) -> Seq<char> {
    if c == '"' {
        "&quot;"@
    } else if c == '\'' {
        "&apos;"@
    } else {
        escaped_char(c)
    }
}

/// `s` escaped for XML text.
pub open spec fn escaped(s: Seq<char>) -> Seq<char>
    decreases s.len(),
{
    if s.len() == 0 {
        Seq::empty()
    } else {
        escaped(s.drop_last()) + escaped_char(s.last())
    }
}

/// `s` escaped for an XML attribute value.
pub open spec fn escaped_attr(s: Seq<char>) -> Seq<char>
    decreases s.len(),
{
    if s.len() == 0 {
        Seq::empty()
    } else {
        escaped_attr(s.drop_last()) + escaped_attr_char(s.last())
    }
}

fn escape_with(s: &str, attr: bool) -> (r: String)
    ensures
        r@ == if attr {
            escaped_attr(s@)
        } else {
            escaped(s@)
        },
{
    let amp = "&amp;";
    let lt = "&lt;";
    let gt = "&gt;";
    let quot = "&quot;";
    let apos = "&apos;";
    let n = s.unicode_len();
    let mut out = String::new();
    let mut i: usize = 0;
    while i < n
        invariant
            n == s@.len(),
            0 <= i <= n,
            out@ == if attr {
                escaped_attr(s@.subrange(0, i as int))
            } else {
                escaped(s@.subrange(0, i as int))
            },
            amp@ == "&amp;"@,
            lt@ == "&lt;"@,
            gt@ == "&gt;"@,
            quot@ == "&quot;"@,
            apos@ == "&apos;"@,
        decreases n - i,
    {
        let c = s.get_char(i);
        let ghost next = s@.subrange(0, i + 1);
        proof {
            assert(next.drop_last() =~= s@.subrange(0, i as int));
            assert(next.last() == c);
        }
        if c == '&' {
            out.append(amp);
        } else if c == '<' {
            out.append(lt);
        } else if c == '>' {
            out.append(gt);
        } else if attr && c == '"' {
            out.append(quot);
        } else if attr && c == '\'' {
            out.append(apos);
        } else {
            out.append(s.substring_char(i, i + 1));
        }
        i = i + 1;
    }
    proof {
        assert(s@.subrange(0, n as int) =~= s@);
    }
    out
}

/// Text without the characters that XML text content escapes.
pub open spec fn is_plain_text(s: Seq<char>) -> bool {
    forall|i: int| 0 <= i < s.len() ==> #[trigger] s[i] != '&' && s[i] != '<' && s[i] != '>'
}

proof fn lemma_escaped_plain(s: Seq<char>)
    requires
        is_plain_text(s),
    ensures
        escaped(s) == s,
    decreases s.len(),
{
    if s.len() > 0 {
        let d = s.drop_last();
        assert forall|i: int| 0 <= i < d.len() implies #[trigger] d[i] != '&' && d[i] != '<'
            && d[i] != '>' by {
            assert(d[i] == s[i]);
        }
        lemma_escaped_plain(d);
        assert(s[s.len() - 1] == s.last());
        assert(d + seq![s.last()] =~= s);
    }
}

/// Escapes XML text content.
pub fn escape_xml(s: &str) -> (r: String)
    ensures
        r@ == escaped(s@),
{
    escape_with(s, false)
}

/// Escapes an XML attribute value.
pub fn escape_xml_attr(s: &str) -> (r: String)
    ensures
        r@ == escaped_attr(s@),
{
    escape_with(s, true)
}

/// The decimal digit for `d < 10`.
pub open spec fn digit_char(d: nat) -> char {
    "0123456789"@[d as int]
}

/// The decimal form of `n`.
pub open spec fn decimal(n: nat) -> Seq<char>
    decreases n,
{
    if n < 10 {
        seq![digit_char(n)]
    } else {
        decimal(n / 10) + seq![digit_char(n % 10)]
    }
}

/// The decimal form of `n`.
pub fn decimal_string(n: u32) -> (r: String)
    ensures
        r@ == decimal(n as nat),
    decreases n,
{
    let digits = "0123456789";
    proof {
        reveal_strlit("0123456789");
    }
    if n < 10 {
        String::from_str(digits.substring_char(n as usize, n as usize + 1))
    } else {
        let mut s = decimal_string(n / 10);
        let d = (n % 10) as usize;
        s.append(digits.substring_char(d, d + 1));
        s
    }
}

/// `"true"` or `"false"`.
pub open spec fn bool_text(b: bool) -> Seq<char> {
    if b {
        "true"@
    } else {
        "false"@
    }
}

/// An attribute: its opening text (` name="`), the escaped value, a quote.
pub open spec fn attr(opening: Seq<char>, value: Seq<char>) -> Seq<char> {
    opening + escaped_attr(value) + "\""@
}

/// The text of an optional string slice.
pub open spec fn opt_view(o: Option<&str>) -> Option<Seq<char>> {
    match o {
        Some(v) => Some(v@),
        None => None,
    }
}

/// The text of an optional string.
pub open spec fn opt_string_view(o: Option<String>) -> Option<Seq<char>> {
    match o {
        Some(v) => Some(v@),
        None => None,
    }
}

/// The attribute for an optional value; nothing when absent.
pub open spec fn opt_attr(opening: Seq<char>, value: Option<Seq<char>>) -> Seq<char> {
    match value {
        Some(v) => attr(opening, v),
        None => Seq::empty(),
    }
}

/// The attribute for an optional value; nothing when absent or empty.
pub open spec fn nonempty_attr(opening: Seq<char>, value: Option<Seq<char>>) -> Seq<char> {
    match value {
        Some(v) => if v.len() > 0 {
            attr(opening, v)
        } else {
            Seq::empty()
        },
        None => Seq::empty(),
    }
}

fn push_attr(out: &mut String, opening: &str, value: &str)
    ensures
        final(out)@ == old(out)@ + attr(opening@, value@),
{
    out.append(opening);
    let v = escape_xml_attr(value);
    out.append(v.as_str());
    out.append("\"");
}

fn push_opt_attr(out: &mut String, opening: &str, value: Option<&str>)
    ensures
        final(out)@ == old(out)@ + opt_attr(opening@, opt_view(value)),
{
    match value {
        Some(v) => push_attr(out, opening, v),
        None => {
            proof {
                assert(old(out)@ + Seq::<char>::empty() =~= old(out)@);
            }
        },
    }
}

/// The markup that opens every response.
pub open spec fn document_start() -> Seq<char> {
    "<?xml version=\"1.0\" encoding=\"UTF-8\"?><Response>"@
}

/// A `Say` element speaking `text`, with optional voice and language.
pub open spec fn say_markup(text: Seq<char>, voice: Seq<char>, language: Option<Seq<char>>) -> Seq<
    char,
> {
    "<Say"@ + (if voice.len() > 0 {
        attr(" voice=\""@, voice)
    } else {
        Seq::empty()
    }) + nonempty_attr(" language=\""@, language) + ">"@ + escaped(text) + "</Say>"@
}

/// Options of a `Gather` element.
pub struct GatherOptions<'a> {
    pub input: Option<&'a str>,
    pub action: Option<&'a str>,
    pub method: Option<&'a str>,
    pub timeout: Option<u32>,
    pub speech_timeout: Option<&'a str>,
    pub barge_in: Option<bool>,
    pub partial_result_callback: Option<&'a str>,
    pub speech_model: Option<&'a str>,
    pub language: Option<&'a str>,
    pub say_text: Option<&'a str>,
    pub voice: Option<&'a str>,
}

/// The options of a `Gather` element, as text.
pub struct GatherView {
    pub input: Option<Seq<char>>,
    pub action: Option<Seq<char>>,
    pub method: Option<Seq<char>>,
    pub timeout: Option<u32>,
    pub speech_timeout: Option<Seq<char>>,
    pub barge_in: Option<bool>,
    pub partial_result_callback: Option<Seq<char>>,
    pub speech_model: Option<Seq<char>>,
    pub language: Option<Seq<char>>,
    pub say_text: Option<Seq<char>>,
    pub voice: Option<Seq<char>>,
}

impl<'a> View for GatherOptions<'a> {
    type V = GatherView;

    open spec fn view(&self) -> GatherView {
        GatherView {
            input: opt_view(self.input),
            action: opt_view(self.action),
            method: opt_view(self.method),
            timeout: self.timeout,
            speech_timeout: opt_view(self.speech_timeout),
            barge_in: self.barge_in,
            partial_result_callback: opt_view(self.partial_result_callback),
            speech_model: opt_view(self.speech_model),
            language: opt_view(self.language),
            say_text: opt_view(self.say_text),
            voice: opt_view(self.voice),
        }
    }
}

impl<'a> Default for GatherOptions<'a> {
    fn default() -> (r: GatherOptions<'a>)
        ensures
            r.input matches Some(v) && v@ == "speech"@,
            r.action is None,
            r.method matches Some(v) && v@ == "POST"@,
            r.timeout == Some(10u32),
            r.speech_timeout matches Some(v) && v@ == "auto"@,
            r.barge_in == Some(true),
            r.partial_result_callback is None,
            r.speech_model is None,
            r.language is None,
            r.say_text is None,
            r.voice is None,
    {
        GatherOptions {
            input: Some("speech"),
            action: None,
            method: Some("POST"),
            timeout: Some(10),
            speech_timeout: Some("auto"),
            barge_in: Some(true),
            partial_result_callback: None,
            speech_model: None,
            language: None,
            say_text: None,
            voice: None,
        }
    }
}

/// The `timeout` attribute, if set.
pub open spec fn timeout_attr(t: Option<u32>) -> Seq<char> {
    match t {
        Some(t) => " timeout=\""@ + decimal(t as nat) + "\""@,
        None => Seq::empty(),
    }
}

/// The `bargeIn` attribute, if set.
pub open spec fn barge_in_attr(b: Option<bool>) -> Seq<char> {
    match b {
        Some(b) => " bargeIn=\""@ + bool_text(b) + "\""@,
        None => Seq::empty(),
    }
}

/// The `Say` element nested in a `Gather`, if there is text to say.
pub open spec fn gather_say(o: GatherView) -> Seq<char> {
    match o.say_text {
        Some(t) => "<Say"@ + opt_attr(" voice=\""@, o.voice) + opt_attr(" language=\""@, o.language)
            + ">"@ + escaped(t) + "</Say>"@,
        None => Seq::empty(),
    }
}

/// A `Gather` element with the given options.
pub open spec fn gather_markup(o: GatherView) -> Seq<char> {
    "<Gather"@ + opt_attr(" input=\""@, o.input) + opt_attr(" action=\""@, o.action) + opt_attr(
        " method=\""@,
        o.method,
    ) + timeout_attr(o.timeout) + opt_attr(" speechTimeout=\""@, o.speech_timeout)
        + barge_in_attr(o.barge_in) + opt_attr(
        " partialResultCallback=\""@,
        o.partial_result_callback,
    ) + opt_attr(" speechModel=\""@, o.speech_model) + opt_attr(" language=\""@, o.language)
        + ">"@ + gather_say(o) + "</Gather>"@
}

fn push_timeout(out: &mut String, t: Option<u32>)
    ensures
        final(out)@ == old(out)@ + timeout_attr(t),
{
    match t {
        Some(t) => {
            out.append(" timeout=\"");
            let d = decimal_string(t);
            out.append(d.as_str());
            out.append("\"");
        },
        None => {
            proof {
                assert(old(out)@ + Seq::<char>::empty() =~= old(out)@);
            }
        },
    }
}

fn push_barge_in(out: &mut String, b: Option<bool>)
    ensures
        final(out)@ == old(out)@ + barge_in_attr(b),
{
    match b {
        Some(b) => {
            out.append(" bargeIn=\"");
            if b {
                out.append("true");
            } else {
                out.append("false");
            }
            out.append("\"");
        },
        None => {
            proof {
                assert(old(out)@ + Seq::<char>::empty() =~= old(out)@);
            }
        },
    }
}

fn push_gather_say(out: &mut String, o: &GatherOptions)
    ensures
        final(out)@ == old(out)@ + gather_say(o@),
{
    match o.say_text {
        Some(t) => {
            let mut e = String::from_str("<Say");
            push_opt_attr(&mut e, " voice=\"", o.voice);
            push_opt_attr(&mut e, " language=\"", o.language);
            e.append(">");
            let body = escape_xml(t);
            e.append(body.as_str());
            e.append("</Say>");
            out.append(e.as_str());
        },
        None => {
            proof {
                assert(old(out)@ + Seq::<char>::empty() =~= old(out)@);
            }
        },
    }
}

/// A voice response under construction.
pub struct TwiML {
    content: String,
}

impl View for TwiML {
    type V = Seq<char>;

    closed spec fn view(&self) -> Seq<char> {
        self.content@
    }
}

impl TwiML {
    pub fn new() -> (r: TwiML)
        ensures
            r@ == document_start(),
    {
        TwiML { content: String::from_str("<?xml version=\"1.0\" encoding=\"UTF-8\"?><Response>") }
    }

    /// Appends a `Say` element; an empty voice or language is left out.
    pub fn say(self, text: &str, voice: &str, language: Option<&str>) -> (r: TwiML)
        ensures
            r@ == self@ + say_markup(text@, voice@, opt_view(language)),
    {
        let mut content = self.content;
        let ghost start = content@;
        content.append("<Say");
        if voice.unicode_len() > 0 {
            push_attr(&mut content, " voice=\"", voice);
        }
        match language {
            Some(lang) => {
                if lang.unicode_len() > 0 {
                    push_attr(&mut content, " language=\"", lang);
                }
            },
            None => {},
        }
        content.append(">");
        let body = escape_xml(text);
        content.append(body.as_str());
        content.append("</Say>");
        proof {
            assert(content@ =~= start + say_markup(text@, voice@, opt_view(language)));
        }
        TwiML { content }
    }

    /// Appends a `Gather` element.
    pub fn gather(self, options: GatherOptions) -> (r: TwiML)
        ensures
            r@ == self@ + gather_markup(options@),
    {
        let mut g = String::from_str("<Gather");
        push_opt_attr(&mut g, " input=\"", options.input);
        push_opt_attr(&mut g, " action=\"", options.action);
        push_opt_attr(&mut g, " method=\"", options.method);
        push_timeout(&mut g, options.timeout);
        push_opt_attr(&mut g, " speechTimeout=\"", options.speech_timeout);
        push_barge_in(&mut g, options.barge_in);
        push_opt_attr(&mut g, " partialResultCallback=\"", options.partial_result_callback);
        push_opt_attr(&mut g, " speechModel=\"", options.speech_model);
        push_opt_attr(&mut g, " language=\"", options.language);
        g.append(">");
        push_gather_say(&mut g, &options);
        g.append("</Gather>");
        let mut c = self.content;
        c.append(g.as_str());
        TwiML { content: c }
    }

    /// Appends a `Hangup` element.
    pub fn hangup(self) -> (r: TwiML)
        ensures
            r@ == self@ + "<Hangup/>"@,
    {
        let mut c = self.content;
        c.append("<Hangup/>");
        TwiML { content: c }
    }

    /// Appends a `Redirect` element to `url`.
    pub fn redirect(self, url: &str) -> (r: TwiML)
        ensures
            r@ == self@ + "<Redirect>"@ + escaped(url@) + "</Redirect>"@,
    {
        let mut c = self.content;
        c.append("<Redirect>");
        let u = escape_xml(url);
        c.append(u.as_str());
        c.append("</Redirect>");
        TwiML { content: c }
    }

    /// Appends a `Play` element that sends `digits` as tones.
    pub fn play_digits(self, digits: &str) -> (r: TwiML)
        ensures
            r@ == self@ + "<Play digits=\""@ + escaped_attr(digits@) + "\"/>"@,
    {
        let mut c = self.content;
        c.append("<Play digits=\"");
        let d = escape_xml_attr(digits);
        c.append(d.as_str());
        c.append("\"/>");
        TwiML { content: c }
    }

    /// Appends a `Pause` element of `length` seconds.
    pub fn pause(self, length: u32) -> (r: TwiML)
        ensures
            r@ == self@ + "<Pause length=\""@ + decimal(length as nat) + "\"/>"@,
    {
        let mut c = self.content;
        c.append("<Pause length=\"");
        let d = decimal_string(length);
        c.append(d.as_str());
        c.append("\"/>");
        TwiML { content: c }
    }

    /// Closes the response and gives its markup.
    pub fn build(self) -> (r: String)
        ensures
            r@ == self@ + "</Response>"@,
    {
        let mut c = self.content;
        c.append("</Response>");
        c
    }
}

/// The `Gather` options of a prompt that speaks `text` and listens for
/// speech, reporting final and partial transcripts to the webhook.
pub open spec fn prompt_gather(text: Seq<char>, c: TwilioConfig, timeout: u32, speech_timeout: Seq<
    char,
>) -> GatherView {
    GatherView {
        input: Some("speech"@),
        action: Some(c.webhook_url@ + "/transcription_callback"@),
        method: Some("POST"@),
        timeout: Some(timeout),
        speech_timeout: Some(speech_timeout),
        barge_in: Some(true),
        partial_result_callback: Some(c.webhook_url@ + "/partial_callback"@),
        speech_model: Some(c.speech_model@),
        language: opt_string_view(c.language),
        say_text: Some(text),
        voice: Some(c.voice@),
    }
}

/// A complete response that speaks `text` and listens.
pub open spec fn voice_response(text: Seq<char>, c: TwilioConfig, timeout: u32, speech_timeout: Seq<
    char,
>) -> Seq<char> {
    document_start() + gather_markup(prompt_gather(text, c, timeout, speech_timeout))
        + "</Response>"@
}

/// Plain text is spoken verbatim: in a prompt, the `Gather` element ends
/// with a `Say` element whose content is exactly `text`, in the configured
/// voice and language, and the response then closes without a hangup.
pub proof fn law_prompt_speaks_text(text: Seq<char>, c: TwilioConfig, timeout: u32, speech_timeout: Seq<
    char,
>)
    requires
        is_plain_text(text),
    ensures
        gather_say(prompt_gather(text, c, timeout, speech_timeout)) == "<Say"@ + attr(
            " voice=\""@,
            c.voice@,
        ) + opt_attr(" language=\""@, opt_string_view(c.language)) + ">"@ + text + "</Say>"@,
        voice_response(text, c, timeout, speech_timeout) == document_start() + gather_markup(
            prompt_gather(text, c, timeout, speech_timeout),
        ) + "</Response>"@,
{
    lemma_escaped_plain(text);
}

/// A complete response that speaks `text`, if any, and hangs up.
pub open spec fn hangup_response(text: Option<Seq<char>>, c: TwilioConfig) -> Seq<char> {
    document_start() + (match text {
        Some(m) => say_markup(m, c.voice@, opt_string_view(c.language)),
        None => Seq::empty(),
    }) + "<Hangup/>"@ + "</Response>"@
}

pub(crate) fn opt_str(o: &Option<String>) -> (r: Option<&str>)
    ensures
        opt_view(r) == opt_string_view(*o),
{
    match o {
        Some(s) => Some(s.as_str()),
        None => None,
    }
}

/// A response that speaks `text` and listens for the caller's reply.
pub fn create_voice_response(text: &str, config: &TwilioConfig, timeout: u32, speech_timeout: &str) -> (r:
    String)
    ensures
        r@ == voice_response(text@, *config, timeout, speech_timeout@),
{
    let mut action_url = config.webhook_url.clone();
    action_url.append("/transcription_callback");
    let mut partial_callback_url = config.webhook_url.clone();
    partial_callback_url.append("/partial_callback");
    let options = GatherOptions {
        input: Some("speech"),
        action: Some(action_url.as_str()),
        method: Some("POST"),
        timeout: Some(timeout),
        speech_timeout: Some(speech_timeout),
        barge_in: Some(true),
        partial_result_callback: Some(partial_callback_url.as_str()),
        speech_model: Some(config.speech_model.as_str()),
        language: opt_str(&config.language),
        say_text: Some(text),
        voice: Some(config.voice.as_str()),
    };
    proof {
        assert(options@ == prompt_gather(text@, *config, timeout, speech_timeout@));
    }
    TwiML::new().gather(options).build()
}

/// A response that speaks `text`, if given, and hangs up.
pub fn create_hangup_response(text: Option<&str>, config: &TwilioConfig) -> (r: String)
    ensures
        r@ == hangup_response(opt_view(text), *config),
{
    let mut twiml = TwiML::new();
    let ghost start = twiml@;
    match text {
        Some(message) => {
            twiml = twiml.say(message, config.voice.as_str(), opt_str(&config.language));
        },
        None => {
            proof {
                assert(start + Seq::<char>::empty() =~= start);
            }
        },
    }
    twiml.hangup().build()
}

} // verus!
