//! One conversation's state and its bounded inbound queue.

use vstd::prelude::*;

use crate::clock::now_millis;

verus! {

/// Capacity of each session's inbound message queue.
pub const QUEUE_CAPACITY: usize = 100;

/// Messages that the streaming bridge hands to a session.
pub enum MessageType {
    /// A chunk of generated text.
    Text(String),
    /// The backend ended the conversation.
    EndOfConversation,
    /// The backend finished streaming the current reply.
    EndOfStream,
}

/// A session's inbound queue: FIFO and bounded, backed by a tokio mpsc
/// channel whose both ends the queue owns.
#[verifier::external_body]
pub struct MessageQueue {
    tx: tokio::sync::mpsc::Sender<MessageType>,
    rx: tokio::sync::mpsc::Receiver<MessageType>,
}

/// The messages waiting in a queue, oldest first.
pub uninterp spec fn queued(q: MessageQueue) -> Seq<MessageType>;

/// The bound that a queue was made with.
pub uninterp spec fn queue_bound(q: MessageQueue) -> nat;

impl MessageQueue {
    /// Relies on tokio::sync::mpsc::channel: a new channel holds no message
    /// and admits `bound` of them; it panics on 0 and above `usize::MAX >> 3`.
    #[verifier::external_body]
    pub(crate) fn with_bound(bound: usize) -> (r: MessageQueue)
        requires
            0 < bound <= usize::MAX / 8,
        ensures
            queued(r) == Seq::<MessageType>::empty(),
            queue_bound(r) == bound,
    {
        let (tx, rx) = tokio::sync::mpsc::channel(bound);
        MessageQueue { tx, rx }
    }

    /// Relies on tokio::sync::mpsc::Sender::try_send: while the receiver is
    /// alive it enqueues the message exactly when fewer than the bound wait.
    #[verifier::external_body]
    pub(crate) fn try_push(&mut self, m: MessageType) -> (r: bool)
        ensures
            queue_bound(*final(self)) == queue_bound(*old(self)),
            r == (queued(*old(self)).len() < queue_bound(*old(self))),
            r ==> queued(*final(self)) == queued(*old(self)).push(m),
            !r ==> queued(*final(self)) == queued(*old(self)),
    {
        self.tx.try_send(m).is_ok()
    }

    /// Relies on tokio::sync::mpsc::Receiver::try_recv: while a sender is
    /// alive it hands out the oldest message, and never reports an empty
    /// channel spuriously.
    #[verifier::external_body]
    pub(crate) fn try_pop(&mut self) -> (r: Option<MessageType>)
        ensures
            queue_bound(*final(self)) == queue_bound(*old(self)),
            queued(*old(self)).len() == 0 ==> r is None && queued(*final(self)) == queued(
                *old(self),
            ),
            queued(*old(self)).len() > 0 ==> r == Some(queued(*old(self))[0]) && queued(
                *final(self),
            ) == queued(*old(self)).drop_first(),
    {
        self.rx.try_recv().ok()
    }
}

/// Relies on uuid::Uuid::new_v4 and its hyphenated text form: 36 characters.
#[verifier::external_body]
fn new_session_id() -> (r: String)
    ensures
        r@.len() == 36,
{
    uuid::Uuid::new_v4().to_string()
}

/// The metadata key under which the backend's greeting is kept.
pub const GREETING_KEY: &'static str = "greeting";

/// The value last stored under `key` in a metadata list, if any.
pub open spec fn metadata_value(m: Seq<(String, String)>, key: Seq<char>) -> Option<Seq<char>>
    decreases m.len(),
{
    if m.len() == 0 {
        None
    } else if m.last().0@ == key {
        Some(m.last().1@)
    } else {
        metadata_value(m.drop_last(), key)
    }
}

/// One active conversation, bound to one call leg.
pub struct Session {
    /// Identifier, unique in the registry.
    pub session_id: String,
    pub user_id: String,
    /// Caller name or phone number.
    pub name: String,
    /// Kind of bot, such as "twilio".
    pub bot_type: String,
    /// The carrier's identifier of the call, once known.
    pub conversation_id: Option<String>,
    /// Inbound messages from the streaming bridge.
    pub queue: MessageQueue,
    /// Creation time, milliseconds since the epoch.
    pub creation_time: i64,
    /// Last access through the registry, milliseconds since the epoch.
    pub last_activity_time: i64,
    pub speech_in_progress: bool,
    pub run_in_progress: bool,
    /// The transcript of the generation in flight or last started.
    pub unstable_speech_result: Option<String>,
    /// Whether a backend generation is outstanding.
    pub generation: bool,
    /// Number of the latest generation started; a result that carries an
    /// older number belongs to a superseded call.
    pub generation_epoch: u64,
    /// Set once the backend has ended the conversation; never cleared.
    pub session_ends: bool,
    /// Free-form key-value data, such as the backend's greeting; a later
    /// entry for a key overrides earlier ones.
    pub metadata: Vec<(String, String)>,
}

impl Session {
    /// A fresh, idle session.
    pub open spec fn is_fresh(&self) -> bool {
        &&& queued(self.queue) == Seq::<MessageType>::empty()
        &&& queue_bound(self.queue) == QUEUE_CAPACITY
        &&& !self.speech_in_progress
        &&& !self.run_in_progress
        &&& self.unstable_speech_result is None
        &&& !self.generation
        &&& self.generation_epoch == 0
        &&& !self.session_ends
        &&& self.metadata@.len() == 0
    }

    /// Creates a session with a given identifier at time `now`.
    pub fn new_at(
        session_id: String,
        user_id: String,
        name: String,
        bot_type: String,
        conversation_id: Option<String>,
        now: i64,
    ) -> (r: Session)
        ensures
            r.session_id == session_id,
            r.user_id == user_id,
            r.name == name,
            r.bot_type == bot_type,
            r.conversation_id == conversation_id,
            r.creation_time == now,
            r.last_activity_time == now,
            r.is_fresh(),
    {
        Session {
            session_id,
            user_id,
            name,
            bot_type,
            conversation_id,
            queue: MessageQueue::with_bound(QUEUE_CAPACITY),
            creation_time: now,
            last_activity_time: now,
            speech_in_progress: false,
            run_in_progress: false,
            unstable_speech_result: None,
            generation: false,
            generation_epoch: 0,
            session_ends: false,
            metadata: Vec::new(),
        }
    }

    /// Creates a session with a fresh random identifier, stamped now.
    pub fn new(user_id: String, name: String, bot_type: String, conversation_id: Option<
        String,
    >) -> (r: Session)
        ensures
            r.session_id@.len() == 36,
            r.user_id == user_id,
            r.name == name,
            r.bot_type == bot_type,
            r.conversation_id == conversation_id,
            r.creation_time == r.last_activity_time,
            r.is_fresh(),
    {
        let id = new_session_id();
        let now = now_millis();
        Session::new_at(id, user_id, name, bot_type, conversation_id, now)
    }

    /// Stores `value` under `key` in the session's metadata.
    pub fn set_metadata(&mut self, key: String, value: String)
        ensures
            *final(self) == (Session { metadata: final(self).metadata, ..*old(self) }),
            forall|k: Seq<char>|
                #[trigger] metadata_value(final(self).metadata@, k) == if k == key@ {
                    Some(value@)
                } else {
                    metadata_value(old(self).metadata@, k)
                },
    {
        let ghost before = self.metadata@;
        let ghost key_view = key@;
        let ghost value_view = value@;
        self.metadata.push((key, value));
        proof {
            assert(self.metadata@.drop_last() =~= before);
            assert forall|k: Seq<char>|
                #[trigger] metadata_value(self.metadata@, k) == if k == key_view {
                    Some(value_view)
                } else {
                    metadata_value(before, k)
                } by {}
        }
    }

    /// The value stored under `key` in the session's metadata, if any.
    pub fn get_metadata(&self, key: &str) -> (r: Option<String>)
        ensures
            match r {
                Some(v) => metadata_value(self.metadata@, key@) == Some(v@),
                None => metadata_value(self.metadata@, key@) is None,
            },
    {
        let k = key.to_owned();
        let mut i: usize = self.metadata.len();
        proof {
            assert(self.metadata@.subrange(0, i as int) =~= self.metadata@);
        }
        while i > 0
            invariant
                0 <= i <= self.metadata@.len(),
                k@ == key@,
                metadata_value(self.metadata@, key@) == metadata_value(
                    self.metadata@.subrange(0, i as int),
                    key@,
                ),
            decreases i,
        {
            let ghost pre = self.metadata@.subrange(0, i as int);
            proof {
                assert(pre.drop_last() =~= self.metadata@.subrange(0, i - 1));
                assert(pre.last() == self.metadata@[i - 1]);
            }
            if self.metadata[i - 1].0 == k {
                return Some(self.metadata[i - 1].1.clone());
            }
            i = i - 1;
        }
        None
    }

    /// Whether the transcript in flight normalizes to the same text as
    /// `unstable_speech_result`; false when none is recorded.
    pub fn unstable_speech_result_is_the_same(&self, unstable_speech_result: &str) -> (r: bool)
        ensures
            r == (self.unstable_speech_result is Some && crate::text::normalized(
                self.unstable_speech_result->Some_0@,
            ) == crate::text::normalized(unstable_speech_result@)),
    {
        match &self.unstable_speech_result {
            Some(last) => crate::text::transcripts_match(last.as_str(), unstable_speech_result),
            None => false,
        }
    }

    /// Whether `text`, trimmed, ends with `.`, `!` or `?`.
    pub fn ends_with_sentence_punctuation(text: &str) -> (r: bool)
        ensures
            r == crate::twiml::sentence_final(text@),
    {
        crate::twiml::ends_with_sentence_punctuation(text)
    }

    /// Moves the activity time forward to `now`; it never moves back.
    pub fn update_activity_time_at(&mut self, now: i64)
        ensures
            *final(self) == (Session {
                last_activity_time: if now > old(self).last_activity_time {
                    now
                } else {
                    old(self).last_activity_time
                },
                ..*old(self)
            }),
    {
        if now > self.last_activity_time {
            self.last_activity_time = now;
        }
    }

    /// Moves the activity time forward to the current time.
    pub fn update_activity_time(&mut self)
        ensures
            final(self).last_activity_time >= old(self).last_activity_time,
            *final(self) == (Session {
                last_activity_time: final(self).last_activity_time,
                ..*old(self)
            }),
    {
        let now = now_millis();
        self.update_activity_time_at(now);
    }

    /// Whether more than `max_age` milliseconds separate the last activity
    /// from `now`.
    pub open spec fn expired_at(&self, max_age: i64, now: i64) -> bool {
        now - self.last_activity_time > max_age
    }

    pub fn is_expired_at(&self, max_age: i64, now: i64) -> (r: bool)
        ensures
            r == self.expired_at(max_age, now),
    {
        (now as i128) - (self.last_activity_time as i128) > max_age as i128
    }

    /// Whether the session has been idle for more than `max_age` milliseconds.
    pub fn is_expired(&self, max_age: i64) -> (r: bool)
        ensures
            exists|t: i64| r == self.expired_at(max_age, t),
    {
        let now = now_millis();
        self.is_expired_at(max_age, now)
    }
}

} // verus!
