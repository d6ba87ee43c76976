//! The streaming event bridge: backend events into session queues,
//! queue polls, and reconnection backoff of each streaming connection.

use vstd::prelude::*;

use crate::registry::{conv_index, has_conv, has_id, id_index, touched, SessionStore};
use crate::session::{queue_bound, queued, MessageType, Session};
use crate::text::join_words;

verus! {

/// An event pushed by the backend over the streaming connection.
pub struct WsMessage {
    /// Type tag: "message", "eos" or "timeout".
    pub kind: String,
    /// Text of a "message" event.
    pub message: String,
}

/// The queue message that an event of type `kind` carries, if any.
pub open spec fn event_message(kind: Seq<char>, message: String) -> Option<MessageType> {
    if kind == "message"@ {
        Some(MessageType::Text(message))
    } else if kind == "eos"@ {
        Some(MessageType::EndOfStream)
    } else if kind == "timeout"@ {
        Some(MessageType::EndOfConversation)
    } else {
        None
    }
}

impl WsMessage {
    /// The queue message for this event; unknown types give none.
    pub fn into_message(self) -> (r: Option<MessageType>)
        ensures
            r == event_message(self.kind@, self.message),
    {
        let message_tag = String::from_str("message");
        let eos_tag = String::from_str("eos");
        let timeout_tag = String::from_str("timeout");
        if self.kind == message_tag {
            Some(MessageType::Text(self.message))
        } else if self.kind == eos_tag {
            Some(MessageType::EndOfStream)
        } else if self.kind == timeout_tag {
            Some(MessageType::EndOfConversation)
        } else {
            None
        }
    }
}

/// Where an event ended up.
pub enum Delivery {
    /// The session no longer exists; the event is discarded.
    NoSession,
    /// The event is at the back of the session's queue.
    Queued,
    /// The session's queue is full; the event is dropped.
    Dropped,
}

/// What a poll of a session's queue found.
pub struct QueueSummary {
    /// The text chunks, joined by single spaces.
    pub text: String,
    /// An end-of-conversation signal was among the messages.
    pub end_of_conversation: bool,
    /// An end-of-stream signal was among the messages.
    pub end_of_stream: bool,
}

/// The text chunks among `ms`, in order.
pub open spec fn texts(ms: Seq<MessageType>) -> Seq<Seq<char>>
    decreases ms.len(),
{
    if ms.len() == 0 {
        Seq::empty()
    } else {
        match ms.last() {
            MessageType::Text(t) => texts(ms.drop_last()).push(t@),
            _ => texts(ms.drop_last()),
        }
    }
}

pub open spec fn has_end_of_conversation(ms: Seq<MessageType>) -> bool {
    exists|i: int| 0 <= i < ms.len() && ms[i] is EndOfConversation
}

pub open spec fn has_end_of_stream(ms: Seq<MessageType>) -> bool {
    exists|i: int| 0 <= i < ms.len() && ms[i] is EndOfStream
}

/// Summarizes the messages taken from a queue.
pub fn summarize_messages(ms: &Vec<MessageType>) -> (r: QueueSummary)
    ensures
        r.text@ == join_words(texts(ms@)),
        r.end_of_conversation == has_end_of_conversation(ms@),
        r.end_of_stream == has_end_of_stream(ms@),
{
    let mut text = String::new();
    let mut eoc = false;
    let mut eos = false;
    let mut any_text = false;
    let space = " ";
    proof {
        reveal_strlit(" ");
    }
    let mut i: usize = 0;
    while i < ms.len()
        invariant
            0 <= i <= ms@.len(),
            space@ == seq![' '],
            text@ == join_words(texts(ms@.subrange(0, i as int))),
            eoc == has_end_of_conversation(ms@.subrange(0, i as int)),
            eos == has_end_of_stream(ms@.subrange(0, i as int)),
            any_text == (texts(ms@.subrange(0, i as int)).len() > 0),
        decreases ms@.len() - i,
    {
        let ghost pre = ms@.subrange(0, i as int);
        let ghost next = ms@.subrange(0, i + 1);
        proof {
            assert(next.drop_last() =~= pre);
            assert(next.last() == ms@[i as int]);
        }
        match &ms[i] {
            MessageType::Text(t) => {
                proof {
                    let ws = texts(pre);
                    assert(texts(next) == ws.push(t@));
                    assert(ws.push(t@).drop_last() =~= ws);
                    if ws.len() > 0 {
                        assert(join_words(ws.push(t@)) == join_words(ws) + seq![' '] + t@);
                    } else {
                        assert(join_words(ws.push(t@)) == t@);
                    }
                }
                if any_text {
                    text.append(space);
                }
                text.append(t.as_str());
                any_text = true;
            },
            MessageType::EndOfConversation => {
                eoc = true;
            },
            MessageType::EndOfStream => {
                eos = true;
            },
        }
        proof {
            assert(has_end_of_conversation(next) == (has_end_of_conversation(pre) || next.last() is EndOfConversation)) by {
                if has_end_of_conversation(pre) {
                    let k = choose|k: int| 0 <= k < pre.len() && pre[k] is EndOfConversation;
                    assert(next[k] == pre[k]);
                }
                if has_end_of_conversation(next) {
                    let k = choose|k: int| 0 <= k < next.len() && next[k] is EndOfConversation;
                    if k < pre.len() {
                        assert(pre[k] == next[k]);
                    }
                }
            }
            assert(has_end_of_stream(next) == (has_end_of_stream(pre) || next.last() is EndOfStream)) by {
                if has_end_of_stream(pre) {
                    let k = choose|k: int| 0 <= k < pre.len() && pre[k] is EndOfStream;
                    assert(next[k] == pre[k]);
                }
                if has_end_of_stream(next) {
                    let k = choose|k: int| 0 <= k < next.len() && next[k] is EndOfStream;
                    if k < pre.len() {
                        assert(pre[k] == next[k]);
                    }
                }
            }
        }
        i = i + 1;
    }
    proof {
        assert(ms@.subrange(0, ms@.len() as int) =~= ms@);
    }
    QueueSummary { text, end_of_conversation: eoc, end_of_stream: eos }
}

impl SessionStore {
    /// Hands an event to the queue of session `session_id` without blocking,
    /// refreshing the session's activity time. A missing session discards
    /// it; a full queue drops it.
    pub fn deliver(&mut self, session_id: &str, m: MessageType, now: i64) -> (r: Delivery)
        requires
            old(self).wf(),
        ensures
            final(self).wf(),
            !has_id(old(self)@, session_id@) ==> r is NoSession && final(self)@ == old(self)@,
            has_id(old(self)@, session_id@) ==> {
                let i = id_index(old(self)@, session_id@);
                let s = touched(old(self)@[i], now);
                let room = queued(s.queue).len() < queue_bound(s.queue);
                &&& final(self)@.len() == old(self)@.len()
                &&& final(self)@ == old(self)@.update(i, final(self)@[i])
                &&& final(self)@[i] == Session { queue: final(self)@[i].queue, ..s }
                &&& queue_bound(final(self)@[i].queue) == queue_bound(s.queue)
                &&& (room ==> r is Queued && queued(final(self)@[i].queue) == queued(s.queue).push(m))
                &&& (!room ==> r is Dropped && queued(final(self)@[i].queue) == queued(s.queue))
            },
    {
        let i = match self.find_id(session_id) {
            Some(i) => i,
            None => {
                return Delivery::NoSession;
            },
        };
        let ghost before = self@;
        let mut s = self.take_at(i);
        s.update_activity_time_at(now);
        let ok = s.queue.try_push(m);
        self.put_at(i, s, Ghost(before));
        if ok {
            Delivery::Queued
        } else {
            Delivery::Dropped
        }
    }

    /// Takes every waiting message out of the queue of the session bound to
    /// conversation `conversation_id`, oldest first, refreshing its activity
    /// time.
    pub fn drain_queue(&mut self, conversation_id: &str, now: i64) -> (r: Option<Vec<MessageType>>)
        requires
            old(self).wf(),
        ensures
            final(self).wf(),
            !has_conv(old(self)@, conversation_id@) ==> r is None && final(self)@ == old(self)@,
            has_conv(old(self)@, conversation_id@) ==> {
                let i = conv_index(old(self)@, conversation_id@);
                let s = touched(old(self)@[i], now);
                &&& r is Some
                &&& r->Some_0@ == queued(s.queue)
                &&& final(self)@.len() == old(self)@.len()
                &&& final(self)@ == old(self)@.update(i, final(self)@[i])
                &&& final(self)@[i] == Session { queue: final(self)@[i].queue, ..s }
                &&& queued(final(self)@[i].queue) == Seq::<MessageType>::empty()
                &&& queue_bound(final(self)@[i].queue) == queue_bound(s.queue)
            },
    {
        let i = match self.find_conv(conversation_id) {
            Some(i) => i,
            None => {
                return None;
            },
        };
        let ghost before = self@;
        let mut s = self.take_at(i);
        s.update_activity_time_at(now);
        let ghost start = queued(s.queue);
        let mut out: Vec<MessageType> = Vec::new();
        loop
            invariant
                i < before.len(),
                start == out@ + queued(s.queue),
                queue_bound(s.queue) == queue_bound(before[i as int].queue),
                s == (Session { queue: s.queue, ..touched(before[i as int], now) }),
            ensures
                start == out@ + queued(s.queue),
                queued(s.queue).len() == 0,
                queue_bound(s.queue) == queue_bound(before[i as int].queue),
                s == (Session { queue: s.queue, ..touched(before[i as int], now) }),
            decreases queued(s.queue).len(),
        {
            let ghost q = queued(s.queue);
            match s.queue.try_pop() {
                Some(m) => {
                    out.push(m);
                    proof {
                        assert(start =~= out@ + queued(s.queue)) by {
                            assert(q =~= seq![m] + q.drop_first());
                        }
                    }
                },
                None => {
                    break;
                },
            }
        }
        proof {
            assert(out@ =~= start);
        }
        self.put_at(i, s, Ghost(before));
        Some(out)
    }
}

/// Exponential reconnect delay, in seconds, after `failures` consecutive
/// failed connection attempts: none before the first failure, then 5, 10,
/// 20, ... seconds, capped at 300.
pub open spec fn reconnect_backoff(failures: nat) -> nat {
    if failures == 0 {
        0
    } else {
        let d = crate::resilience::backoff(5, (failures - 1) as nat);
        if d < 300 {
            d
        } else {
            300
        }
    }
}

/// Computes the reconnect delay after `failures` consecutive failures.
pub fn reconnect_backoff_secs(failures: usize) -> (r: u64)
    ensures
        r == reconnect_backoff(failures as nat),
{
    if failures == 0 {
        return 0;
    }
    let mut d: u64 = 5;
    let mut k: usize = 1;
    while k < failures && d < 300
        invariant
            1 <= k <= failures,
            d == crate::resilience::backoff(5, (k - 1) as nat),
            d <= 600,
        decreases failures - k,
    {
        d = d * 2;
        k = k + 1;
    }
    proof {
        if d >= 300 {
            crate::resilience::lemma_backoff_mono_le(5, (k - 1) as nat, (failures - 1) as nat);
        }
    }
    if d < 300 {
        d
    } else {
        300
    }
}

/// State of the streaming connection of one session.
pub struct WebSocketClient {
    pub session_id: String,
    pub ws_url: String,
    pub connected: bool,
    /// Time of the last connection attempt, milliseconds since the epoch.
    pub last_reconnect_attempt: i64,
    pub consecutive_failures: usize,
}

impl WebSocketClient {
    /// A disconnected client, as of time `now`.
    pub fn new_at(session_id: String, ws_url: String, now: i64) -> (r: WebSocketClient)
        ensures
            r.session_id == session_id,
            r.ws_url == ws_url,
            !r.connected,
            r.last_reconnect_attempt == now,
            r.consecutive_failures == 0,
    {
        WebSocketClient {
            session_id,
            ws_url,
            connected: false,
            last_reconnect_attempt: now,
            consecutive_failures: 0,
        }
    }

    /// A disconnected client, as of now.
    pub fn new(session_id: String, ws_url: String) -> (r: WebSocketClient)
        ensures
            r.session_id == session_id,
            r.ws_url == ws_url,
            !r.connected,
            r.consecutive_failures == 0,
    {
        let now = crate::clock::now_millis();
        WebSocketClient::new_at(session_id, ws_url, now)
    }

    /// Whether a connection attempt is due at time `now`: the client is
    /// disconnected and the backoff since the last attempt has passed.
    pub open spec fn attempt_due(&self, now: i64) -> bool {
        let elapsed = if now > self.last_reconnect_attempt {
            now - self.last_reconnect_attempt
        } else {
            0
        };
        !self.connected && elapsed >= 1000 * reconnect_backoff(self.consecutive_failures as nat)
    }

    /// Decides whether to attempt a connection at time `now`; if so, records
    /// the attempt time.
    pub fn begin_reconnect_at(&mut self, now: i64) -> (r: bool)
        ensures
            r == old(self).attempt_due(now),
            r ==> *final(self) == (WebSocketClient { last_reconnect_attempt: now, ..*old(self) }),
            !r ==> *final(self) == *old(self),
    {
        if self.connected {
            return false;
        }
        let elapsed_ms: i128 = if now > self.last_reconnect_attempt {
            (now as i128) - (self.last_reconnect_attempt as i128)
        } else {
            0
        };
        let backoff = reconnect_backoff_secs(self.consecutive_failures);
        if elapsed_ms < 1000 * (backoff as i128) {
            return false;
        }
        self.last_reconnect_attempt = now;
        true
    }

    /// Records a successful connection: the failure count resets.
    pub fn record_connected(&mut self)
        ensures
            *final(self) == (WebSocketClient {
                connected: true,
                consecutive_failures: 0,
                ..*old(self)
            }),
    {
        self.connected = true;
        self.consecutive_failures = 0;
    }

    /// Records a failed connection attempt.
    pub fn record_connect_failure(&mut self)
        ensures
            *final(self) == (WebSocketClient {
                connected: false,
                consecutive_failures: if old(self).consecutive_failures < usize::MAX {
                    (old(self).consecutive_failures + 1) as usize
                } else {
                    old(self).consecutive_failures
                },
                ..*old(self)
            }),
    {
        self.connected = false;
        if self.consecutive_failures < usize::MAX {
            self.consecutive_failures = self.consecutive_failures + 1;
        }
    }

    /// Records that an established connection broke.
    pub fn record_disconnected(&mut self)
        ensures
            *final(self) == (WebSocketClient { connected: false, ..*old(self) }),
    {
        self.connected = false;
    }
}

} // verus!
