//! The speculative-generation state machine over the registry.

use vstd::prelude::*;

use crate::registry::{conv_index, has_conv, has_id, id_index, touched, SessionStore};
use crate::session::Session;
use crate::text::normalized;
use crate::twiml::sentence_final;

verus! {

/// What the registry decided on a partial transcript.
pub enum PartialOutcome {
    /// Partial processing is off, or the text is not a complete sentence.
    Ignored,
    /// No session is bound to the conversation.
    NotFound,
    /// The session has already ended.
    SessionEnded,
    /// The same transcript is already being generated.
    Duplicate,
    /// Issue a backend "start" call for this session; its outcome is
    /// reported with this generation number.
    Start { session_id: String, epoch: u64 },
}

/// What the registry decided on a final transcript.
pub enum FinalOutcome {
    /// No session is bound to the conversation.
    Expired,
    /// The session has already ended.
    Ended,
    /// A speculative generation of the same transcript is in flight: its
    /// streamed result is awaited instead of a second call.
    AwaitSpeculative,
    /// Issue a backend "run" call for this session and wait for it.
    Run { session_id: String, epoch: u64 },
}

/// The generation number that follows `e`.
pub open spec fn next_epoch(e: u64) -> u64 {
    if e < u64::MAX {
        (e + 1) as u64
    } else {
        0
    }
}

/// A generation of `text` is in flight in `s`.
pub open spec fn is_duplicate(s: Session, text: Seq<char>) -> bool {
    s.generation && s.unstable_speech_result is Some && normalized(
        s.unstable_speech_result->Some_0@,
    ) == normalized(text)
}

/// `after` is `before` once a generation of `text` has started.
pub open spec fn generation_begun(before: Session, after: Session, text: Seq<char>) -> bool {
    &&& after.unstable_speech_result is Some
    &&& after.unstable_speech_result->Some_0@ == text
    &&& after == Session {
        run_in_progress: true,
        speech_in_progress: false,
        unstable_speech_result: after.unstable_speech_result,
        generation: true,
        generation_epoch: next_epoch(before.generation_epoch),
        ..before
    }
}

/// `s` once the outcome of the generation numbered `epoch` is in: the flags
/// clear only if that generation is still the current one, and an ending
/// reported by the backend sticks.
pub open spec fn generation_settled(s: Session, epoch: u64, ends: bool) -> Session {
    let current = s.generation_epoch == epoch;
    Session {
        generation: if current {
            false
        } else {
            s.generation
        },
        run_in_progress: if current {
            false
        } else {
            s.run_in_progress
        },
        session_ends: s.session_ends || ends,
        ..s
    }
}

/// The session is the owner of the in-flight generation numbered `epoch`.
pub open spec fn owns_generation(s: Session, epoch: u64) -> bool {
    s.generation && s.generation_epoch == epoch
}

fn begin_generation(s: &mut Session, text: &str)
    ensures
        generation_begun(*old(s), *final(s), text@),
{
    s.run_in_progress = true;
    s.speech_in_progress = false;
    s.unstable_speech_result = Some(text.to_owned());
    s.generation = true;
    s.generation_epoch = if s.generation_epoch < u64::MAX {
        s.generation_epoch + 1
    } else {
        0
    };
}

impl SessionStore {
    /// Handles a partial transcript for conversation `conversation_id` at
    /// time `now`. A complete sentence that is not already being generated
    /// starts a speculative generation.
    pub fn on_partial_transcript(
        &mut self,
        conversation_id: &str,
        text: &str,
        partial_processing: bool,
        now: i64,
    ) -> (r: PartialOutcome)
        requires
            old(self).wf(),
        ensures
            final(self).wf(),
            !partial_processing || !sentence_final(text@) ==> r is Ignored && final(self)@ == old(
                self,
            )@,
            partial_processing && sentence_final(text@) && !has_conv(old(self)@, conversation_id@)
                ==> r is NotFound && final(self)@ == old(self)@,
            partial_processing && sentence_final(text@) && has_conv(old(self)@, conversation_id@)
                ==> {
                let i = conv_index(old(self)@, conversation_id@);
                let s = touched(old(self)@[i], now);
                if s.session_ends {
                    r is SessionEnded && final(self)@ == old(self)@.update(i, s)
                } else if is_duplicate(s, text@) {
                    r is Duplicate && final(self)@ == old(self)@.update(i, s)
                } else {
                    &&& final(self)@.len() == old(self)@.len()
                    &&& final(self)@ == old(self)@.update(i, final(self)@[i])
                    &&& generation_begun(s, final(self)@[i], text@)
                    &&& r matches PartialOutcome::Start { session_id, epoch }
                    &&& session_id@ == s.session_id@
                    &&& epoch == final(self)@[i].generation_epoch
                }
            },
    {
        if !partial_processing || !crate::twiml::ends_with_sentence_punctuation(text) {
            return PartialOutcome::Ignored;
        }
        let i = match self.find_conv(conversation_id) {
            Some(i) => i,
            None => {
                return PartialOutcome::NotFound;
            },
        };
        let ghost before = self@;
        let mut s = self.take_at(i);
        s.update_activity_time_at(now);
        let r = if s.session_ends {
            PartialOutcome::SessionEnded
        } else if s.generation && s.unstable_speech_result_is_the_same(text) {
            PartialOutcome::Duplicate
        } else {
            begin_generation(&mut s, text);
            PartialOutcome::Start {
                session_id: s.session_id.clone(),
                epoch: s.generation_epoch,
            }
        };
        self.put_at(i, s, Ghost(before));
        r
    }

    /// Handles a final transcript for conversation `conversation_id` at time
    /// `now`. Unless the session is gone or ended, or the same transcript is
    /// already being generated, a generation starts that the caller runs to
    /// completion.
    pub fn on_final_transcript(&mut self, conversation_id: &str, text: &str, now: i64) -> (r:
        FinalOutcome)
        requires
            old(self).wf(),
        ensures
            final(self).wf(),
            !has_conv(old(self)@, conversation_id@) ==> r is Expired && final(self)@ == old(
                self,
            )@,
            has_conv(old(self)@, conversation_id@) ==> {
                let i = conv_index(old(self)@, conversation_id@);
                let s = touched(old(self)@[i], now);
                if s.session_ends {
                    r is Ended && final(self)@ == old(self)@.update(i, s)
                } else if is_duplicate(s, text@) {
                    r is AwaitSpeculative && final(self)@ == old(self)@.update(i, s)
                } else {
                    &&& final(self)@.len() == old(self)@.len()
                    &&& final(self)@ == old(self)@.update(i, final(self)@[i])
                    &&& generation_begun(s, final(self)@[i], text@)
                    &&& r matches FinalOutcome::Run { session_id, epoch }
                    &&& session_id@ == s.session_id@
                    &&& epoch == final(self)@[i].generation_epoch
                }
            },
    {
        let i = match self.find_conv(conversation_id) {
            Some(i) => i,
            None => {
                return FinalOutcome::Expired;
            },
        };
        let ghost before = self@;
        let mut s = self.take_at(i);
        s.update_activity_time_at(now);
        let r = if s.session_ends {
            FinalOutcome::Ended
        } else if s.generation && s.unstable_speech_result_is_the_same(text) {
            FinalOutcome::AwaitSpeculative
        } else {
            begin_generation(&mut s, text);
            FinalOutcome::Run { session_id: s.session_id.clone(), epoch: s.generation_epoch }
        };
        self.put_at(i, s, Ghost(before));
        r
    }

    /// Records the outcome of the generation numbered `epoch` of session
    /// `session_id`: `ends` when the backend ended the conversation. Tells
    /// whether the session exists and is now ending.
    pub fn on_generation_result(&mut self, session_id: &str, epoch: u64, ends: bool, now: i64) -> (r:
        bool)
        requires
            old(self).wf(),
        ensures
            final(self).wf(),
            !has_id(old(self)@, session_id@) ==> !r && final(self)@ == old(self)@,
            has_id(old(self)@, session_id@) ==> {
                let i = id_index(old(self)@, session_id@);
                let s = generation_settled(touched(old(self)@[i], now), epoch, ends);
                &&& final(self)@ == old(self)@.update(i, s)
                &&& r == s.session_ends
            },
    {
        let i = match self.find_id(session_id) {
            Some(i) => i,
            None => {
                return false;
            },
        };
        let ghost before = self@;
        let mut s = self.take_at(i);
        s.update_activity_time_at(now);
        if s.generation_epoch == epoch {
            s.generation = false;
            s.run_in_progress = false;
        }
        if ends {
            s.session_ends = true;
        }
        let r = s.session_ends;
        self.put_at(i, s, Ghost(before));
        r
    }

    /// Records that the generation numbered `epoch` of session `session_id`
    /// failed; the flags clear only if it is still the current one.
    pub fn on_generation_failed(&mut self, session_id: &str, epoch: u64, now: i64)
        requires
            old(self).wf(),
        ensures
            final(self).wf(),
            !has_id(old(self)@, session_id@) ==> final(self)@ == old(self)@,
            has_id(old(self)@, session_id@) ==> {
                let i = id_index(old(self)@, session_id@);
                final(self)@ == old(self)@.update(
                    i,
                    generation_settled(touched(old(self)@[i], now), epoch, false),
                )
            },
    {
        self.on_generation_result(session_id, epoch, false, now);
    }
}

/// Duplicate suppression: once a generation of `first` has begun, a partial
/// or final transcript that normalizes to the same text is recognised as a
/// duplicate of it (whatever the clock says), so it issues no second call.
pub proof fn law_duplicate_suppressed(
    s0: Session,
    s1: Session,
    first: Seq<char>,
    second: Seq<char>,
    now: i64,
)
    requires
        generation_begun(s0, s1, first),
        normalized(first) == normalized(second),
    ensures
        is_duplicate(touched(s1, now), second),
        owns_generation(s1, s1.generation_epoch),
{
}

/// Single in-flight generation: a session owns at most one generation at a
/// time. Starting a generation makes the new one the owner and disowns the
/// one before it; the outcome of any other generation leaves the ownership
/// as it was.
pub proof fn law_single_generation(s0: Session, s1: Session, text: Seq<char>, e1: u64, e2: u64)
    requires
        generation_begun(s0, s1, text),
    ensures
        owns_generation(s0, e1) && owns_generation(s0, e2) ==> e1 == e2,
        owns_generation(s1, next_epoch(s0.generation_epoch)),
        !owns_generation(s1, s0.generation_epoch),
        e1 != s1.generation_epoch ==> generation_settled(s1, e1, false).generation,
        !generation_settled(s1, s1.generation_epoch, false).generation,
{
}

} // verus!
