//! The session registry: sessions keyed by identifier, with a one-to-one
//! index from conversation identifier, and idle expiry.

use vstd::prelude::*;

use crate::session::Session;

verus! {

/// The conversation identifier of a session, as text.
pub open spec fn conv_of(s: Session) -> Option<Seq<char>> {
    match s.conversation_id {
        Some(c) => Some(c@),
        None => None,
    }
}

/// No two sessions share an identifier.
pub open spec fn ids_unique(ss: Seq<Session>) -> bool {
    forall|i: int, j: int|
        0 <= i < ss.len() && 0 <= j < ss.len() && i != j ==> #[trigger] ss[i].session_id@
            != #[trigger] ss[j].session_id@
}

/// No two sessions share a conversation identifier.
pub open spec fn convs_unique(ss: Seq<Session>) -> bool {
    forall|i: int, j: int|
        0 <= i < ss.len() && 0 <= j < ss.len() && i != j && (#[trigger] conv_of(ss[i])) is Some
            ==> conv_of(ss[i]) != #[trigger] conv_of(ss[j])
}

pub open spec fn has_id(ss: Seq<Session>, sid: Seq<char>) -> bool {
    exists|i: int| 0 <= i < ss.len() && #[trigger] ss[i].session_id@ == sid
}

/// The position of the session with identifier `sid`.
pub open spec fn id_index(ss: Seq<Session>, sid: Seq<char>) -> int {
    choose|i: int| 0 <= i < ss.len() && #[trigger] ss[i].session_id@ == sid
}

pub open spec fn has_conv(ss: Seq<Session>, c: Seq<char>) -> bool {
    exists|i: int| 0 <= i < ss.len() && #[trigger] conv_of(ss[i]) == Some(c)
}

/// The position of the session bound to conversation `c`.
pub open spec fn conv_index(ss: Seq<Session>, c: Seq<char>) -> int {
    choose|i: int| 0 <= i < ss.len() && #[trigger] conv_of(ss[i]) == Some(c)
}

/// `s` with its conversation identifier dropped if it is `c`.
pub open spec fn detach_conv(s: Session, c: Seq<char>) -> Session {
    if conv_of(s) == Some(c) {
        Session { conversation_id: None, ..s }
    } else {
        s
    }
}

/// The registry after adding `s`: any other session bound to the same
/// conversation loses that binding, and a session with the same identifier
/// is replaced in place.
pub open spec fn with_session(ss: Seq<Session>, s: Session) -> Seq<Session> {
    let base = match conv_of(s) {
        Some(c) => ss.map_values(|x: Session| detach_conv(x, c)),
        None => ss,
    };
    if has_id(ss, s.session_id@) {
        base.update(id_index(ss, s.session_id@), s)
    } else {
        base.push(s)
    }
}

/// Holds of every session but the one with identifier `sid`.
pub open spec fn other_than(sid: Seq<char>) -> spec_fn(Session) -> bool {
    |x: Session| x.session_id@ != sid
}

/// The registry without the session with identifier `sid`.
pub open spec fn without_id(ss: Seq<Session>, sid: Seq<char>) -> Seq<Session> {
    ss.filter(other_than(sid))
}

/// The registry after binding conversation `c` to the session with
/// identifier `sid`: the binding moves off any other session, and replaces
/// the session's own earlier binding.
pub open spec fn with_binding(ss: Seq<Session>, c: String, sid: Seq<char>) -> Seq<Session> {
    let base = ss.map_values(|x: Session| detach_conv(x, c@));
    let i = id_index(ss, sid);
    base.update(i, Session { conversation_id: Some(c), ..base[i] })
}

/// Holds of the sessions that have not been idle for more than `max_age`
/// milliseconds at time `now`.
pub open spec fn live_at(max_age: i64, now: i64) -> spec_fn(Session) -> bool {
    |x: Session| !x.expired_at(max_age, now)
}

/// `s` with its activity time moved forward to `now`.
pub open spec fn touched(s: Session, now: i64) -> Session {
    Session {
        last_activity_time: if now > s.last_activity_time {
            now
        } else {
            s.last_activity_time
        },
        ..s
    }
}

/// The registry of live sessions, with the index from conversation
/// identifier to session kept inside each session so that both directions
/// change together.
pub struct SessionStore {
    sessions: Vec<Session>,
}

impl View for SessionStore {
    type V = Seq<Session>;

    closed spec fn view(&self) -> Seq<Session> {
        self.sessions@
    }
}

proof fn lemma_id_index(ss: Seq<Session>, i: int)
    requires
        ids_unique(ss),
        0 <= i < ss.len(),
    ensures
        has_id(ss, ss[i].session_id@),
        id_index(ss, ss[i].session_id@) == i,
{
    let j = id_index(ss, ss[i].session_id@);
    assert(ss[i].session_id@ == ss[i].session_id@);
    assert(ss[j].session_id@ == ss[i].session_id@);
}

proof fn lemma_conv_index(ss: Seq<Session>, i: int, c: Seq<char>)
    requires
        convs_unique(ss),
        0 <= i < ss.len(),
        conv_of(ss[i]) == Some(c),
    ensures
        has_conv(ss, c),
        conv_index(ss, c) == i,
{
    let j = conv_index(ss, c);
    assert(conv_of(ss[j]) == Some(c));
}

proof fn lemma_filter_all(ss: Seq<Session>, sid: Seq<char>)
    requires
        forall|k: int| 0 <= k < ss.len() ==> #[trigger] ss[k].session_id@ != sid,
    ensures
        ss.filter(other_than(sid)) == ss,
    decreases ss.len(),
{
    reveal(Seq::filter);
    if ss.len() > 0 {
        let d = ss.drop_last();
        assert forall|k: int| 0 <= k < d.len() implies #[trigger] d[k].session_id@ != sid by {
            assert(d[k] == ss[k]);
        }
        lemma_filter_all(d, sid);
        assert(d.push(ss.last()) =~= ss);
    }
}

proof fn lemma_filter_one(ss: Seq<Session>, sid: Seq<char>, i: int)
    requires
        0 <= i < ss.len(),
        ss[i].session_id@ == sid,
        forall|k: int| 0 <= k < ss.len() && k != i ==> #[trigger] ss[k].session_id@ != sid,
    ensures
        ss.filter(other_than(sid)) == ss.remove(i),
    decreases ss.len(),
{
    reveal(Seq::filter);
    let d = ss.drop_last();
    if i == ss.len() - 1 {
        assert forall|k: int| 0 <= k < d.len() implies #[trigger] d[k].session_id@ != sid by {
            assert(d[k] == ss[k]);
        }
        lemma_filter_all(d, sid);
        assert(ss.remove(i) =~= d);
    } else {
        assert forall|k: int| 0 <= k < d.len() && k != i implies #[trigger] d[k].session_id@
            != sid by {
            assert(d[k] == ss[k]);
        }
        lemma_filter_one(d, sid, i);
        assert(d.remove(i).push(ss.last()) =~= ss.remove(i));
    }
}

proof fn lemma_remove_wf(ss: Seq<Session>, i: int)
    requires
        ids_unique(ss),
        convs_unique(ss),
        0 <= i < ss.len(),
    ensures
        ids_unique(ss.remove(i)),
        convs_unique(ss.remove(i)),
{
    let r = ss.remove(i);
    assert forall|a: int| 0 <= a < r.len() implies #[trigger] r[a] == ss[if a < i {
        a
    } else {
        a + 1
    }] by {}
    assert forall|a: int, b: int|
        0 <= a < r.len() && 0 <= b < r.len() && a != b implies #[trigger] r[a].session_id@
        != #[trigger] r[b].session_id@ by {
        let x = if a < i {
            a
        } else {
            a + 1
        };
        let y = if b < i {
            b
        } else {
            b + 1
        };
        assert(r[a] == ss[x]);
        assert(r[b] == ss[y]);
        assert(ss[x].session_id@ != ss[y].session_id@);
    }
    assert forall|a: int, b: int|
        0 <= a < r.len() && 0 <= b < r.len() && a != b && (#[trigger] conv_of(r[a])) is Some implies conv_of(
        r[a],
    ) != #[trigger] conv_of(r[b]) by {
        let x = if a < i {
            a
        } else {
            a + 1
        };
        let y = if b < i {
            b
        } else {
            b + 1
        };
        assert(r[a] == ss[x]);
        assert(r[b] == ss[y]);
        assert(conv_of(ss[x]) != conv_of(ss[y]));
    }
}

impl SessionStore {
    /// Identifiers and conversation identifiers are each unique.
    pub open spec fn wf(&self) -> bool {
        ids_unique(self@) && convs_unique(self@)
    }

    pub fn new() -> (r: SessionStore)
        ensures
            r@ == Seq::<Session>::empty(),
            r.wf(),
    {
        SessionStore { sessions: Vec::new() }
    }

    /// Number of live sessions.
    pub fn len(&self) -> (r: usize)
        ensures
            r == self@.len(),
    {
        self.sessions.len()
    }

    pub(crate) fn find_id(&self, sid: &str) -> (r: Option<usize>)
        requires
            self.wf(),
        ensures
            match r {
                Some(i) => i < self@.len() && self@[i as int].session_id@ == sid@ && id_index(
                    self@,
                    sid@,
                ) == i && has_id(self@, sid@),
                None => !has_id(self@, sid@),
            },
    {
        let key = sid.to_owned();
        let mut i: usize = 0;
        while i < self.sessions.len()
            invariant
                0 <= i <= self@.len(),
                self.wf(),
                key@ == sid@,
                forall|k: int| 0 <= k < i ==> #[trigger] self@[k].session_id@ != sid@,
            decreases self@.len() - i,
        {
            if self.sessions[i].session_id == key {
                proof {
                    lemma_id_index(self@, i as int);
                }
                return Some(i);
            }
            i = i + 1;
        }
        None
    }

    pub(crate) fn find_conv(&self, conv: &str) -> (r: Option<usize>)
        requires
            self.wf(),
        ensures
            match r {
                Some(i) => i < self@.len() && conv_of(self@[i as int]) == Some(conv@)
                    && conv_index(self@, conv@) == i && has_conv(self@, conv@),
                None => !has_conv(self@, conv@),
            },
    {
        let key = conv.to_owned();
        let mut i: usize = 0;
        while i < self.sessions.len()
            invariant
                0 <= i <= self@.len(),
                self.wf(),
                key@ == conv@,
                forall|k: int| 0 <= k < i ==> #[trigger] conv_of(self@[k]) != Some(conv@),
            decreases self@.len() - i,
        {
            match &self.sessions[i].conversation_id {
                Some(c) => {
                    if *c == key {
                        proof {
                            lemma_conv_index(self@, i as int, conv@);
                        }
                        return Some(i);
                    }
                },
                None => {},
            }
            i = i + 1;
        }
        None
    }

    /// The session identifier bound to conversation `conversation_id`.
    pub fn get_session_id_by_conversation(&self, conversation_id: &str) -> (r: Option<String>)
        requires
            self.wf(),
        ensures
            r is Some <==> has_conv(self@, conversation_id@),
            r is Some ==> r->Some_0@ == self@[conv_index(
                self@,
                conversation_id@,
            )].session_id@,
    {
        match self.find_conv(conversation_id) {
            Some(i) => Some(self.sessions[i].session_id.clone()),
            None => None,
        }
    }

    /// Read access to the session with identifier `session_id`.
    pub fn get_session(&self, session_id: &str) -> (r: Option<&Session>)
        requires
            self.wf(),
        ensures
            r is Some <==> has_id(self@, session_id@),
            r is Some ==> *r->Some_0 == self@[id_index(self@, session_id@)],
    {
        match self.find_id(session_id) {
            Some(i) => Some(&self.sessions[i]),
            None => None,
        }
    }

    /// Read access to the session bound to conversation `conversation_id`.
    pub fn get_session_by_conversation(&self, conversation_id: &str) -> (r: Option<&Session>)
        requires
            self.wf(),
        ensures
            r is Some <==> has_conv(self@, conversation_id@),
            r is Some ==> *r->Some_0 == self@[conv_index(self@, conversation_id@)],
    {
        match self.find_conv(conversation_id) {
            Some(i) => Some(&self.sessions[i]),
            None => None,
        }
    }

    /// Takes the session at position `i` out, to be put back by `put_at`.
    pub(crate) fn take_at(&mut self, i: usize) -> (r: Session)
        requires
            i < old(self)@.len(),
        ensures
            r == old(self)@[i as int],
            final(self)@ == old(self)@.remove(i as int),
            old(self).wf() ==> final(self).wf(),
    {
        proof {
            if self.wf() {
                lemma_remove_wf(self@, i as int);
            }
        }
        self.sessions.remove(i)
    }

    /// Puts back at position `i` a session taken out of `orig`, with its
    /// identifier and conversation binding unchanged.
    pub(crate) fn put_at(&mut self, i: usize, s: Session, Ghost(orig): Ghost<Seq<Session>>)
        requires
            ids_unique(orig),
            convs_unique(orig),
            i < orig.len(),
            old(self)@ == orig.remove(i as int),
            s.session_id@ == orig[i as int].session_id@,
            conv_of(s) == conv_of(orig[i as int]),
        ensures
            final(self)@ == orig.update(i as int, s),
            final(self).wf(),
    {
        self.sessions.insert(i, s);
        proof {
            let ss = self@;
            assert(ss =~= orig.update(i as int, s));
            assert forall|a: int, b: int|
                0 <= a < ss.len() && 0 <= b < ss.len() && a != b implies #[trigger] ss[a].session_id@
                != #[trigger] ss[b].session_id@ by {
                assert(orig[a].session_id@ != orig[b].session_id@);
            }
            assert forall|a: int, b: int|
                0 <= a < ss.len() && 0 <= b < ss.len() && a != b && (#[trigger] conv_of(
                    ss[a],
                )) is Some implies conv_of(ss[a]) != #[trigger] conv_of(ss[b]) by {
                assert(conv_of(orig[a]) != conv_of(orig[b]));
            }
        }
    }

    /// Refreshes the activity time of the session with identifier
    /// `session_id`; tells whether that session exists.
    pub fn get_session_mut(&mut self, session_id: &str, now: i64) -> (r: bool)
        requires
            old(self).wf(),
        ensures
            final(self).wf(),
            r == has_id(old(self)@, session_id@),
            r ==> final(self)@ == old(self)@.update(
                id_index(old(self)@, session_id@),
                touched(old(self)@[id_index(old(self)@, session_id@)], now),
            ),
            !r ==> final(self)@ == old(self)@,
    {
        match self.find_id(session_id) {
            Some(i) => {
                self.touch_at(i, now);
                true
            },
            None => false,
        }
    }

    fn touch_at(&mut self, i: usize, now: i64)
        requires
            old(self).wf(),
            i < old(self)@.len(),
        ensures
            final(self).wf(),
            final(self)@ == old(self)@.update(i as int, touched(old(self)@[i as int], now)),
    {
        let ghost before = self@;
        let mut s = self.take_at(i);
        s.update_activity_time_at(now);
        self.put_at(i, s, Ghost(before));
    }

    /// Refreshes the activity time of the session bound to conversation
    /// `conversation_id` and gives its identifier.
    pub fn get_session_by_conversation_mut(&mut self, conversation_id: &str, now: i64) -> (r:
        Option<String>)
        requires
            old(self).wf(),
        ensures
            final(self).wf(),
            r is Some <==> has_conv(old(self)@, conversation_id@),
            r is Some ==> {
                let i = conv_index(old(self)@, conversation_id@);
                &&& final(self)@ == old(self)@.update(i, touched(old(self)@[i], now))
                &&& r->Some_0@ == old(self)@[i].session_id@
            },
            r is None ==> final(self)@ == old(self)@,
    {
        match self.find_conv(conversation_id) {
            Some(i) => {
                self.touch_at(i, now);
                Some(self.sessions[i].session_id.clone())
            },
            None => None,
        }
    }

    /// Drops the binding of conversation `conv`, wherever it is.
    fn detach(&mut self, conv: &str)
        requires
            old(self).wf(),
        ensures
            final(self).wf(),
            final(self)@ == old(self)@.map_values(|x: Session| detach_conv(x, conv@)),
            !has_conv(final(self)@, conv@),
    {
        let ghost before = self@;
        let ghost target = before.map_values(|x: Session| detach_conv(x, conv@));
        match self.find_conv(conv) {
            Some(j) => {
                let mut s = self.take_at(j);
                s.conversation_id = None;
                self.sessions.insert(j, s);
                proof {
                    assert forall|k: int| 0 <= k < before.len() implies #[trigger] self@[k]
                        == target[k] by {
                        if k != j {
                            assert(conv_of(before[j as int]) != conv_of(before[k]));
                        }
                    }
                    assert(self@ =~= target);
                }
            },
            None => {
                proof {
                    assert forall|k: int| 0 <= k < before.len() implies #[trigger] self@[k]
                        == target[k] by {
                        assert(conv_of(before[k]) != Some(conv@));
                    }
                    assert(self@ =~= target);
                }
            },
        }
        proof {
            let ss = self@;
            assert forall|k: int| 0 <= k < ss.len() implies #[trigger] conv_of(ss[k]) != Some(
                conv@,
            ) by {
                assert(ss[k] == detach_conv(before[k], conv@));
            }
            assert forall|a: int, b: int|
                0 <= a < ss.len() && 0 <= b < ss.len() && a != b implies #[trigger] ss[a].session_id@
                != #[trigger] ss[b].session_id@ by {
                assert(ss[a] == detach_conv(before[a], conv@));
                assert(ss[b] == detach_conv(before[b], conv@));
                assert(before[a].session_id@ != before[b].session_id@);
            }
            assert forall|a: int, b: int|
                0 <= a < ss.len() && 0 <= b < ss.len() && a != b && (#[trigger] conv_of(
                    ss[a],
                )) is Some implies conv_of(ss[a]) != #[trigger] conv_of(ss[b]) by {
                assert(ss[a] == detach_conv(before[a], conv@));
                assert(ss[b] == detach_conv(before[b], conv@));
                assert(conv_of(before[a]) != conv_of(before[b]));
            }
        }
    }

    /// Adds a session and returns its identifier. A session with the same
    /// identifier is replaced; a session bound to the same conversation
    /// loses that binding, so the conversation index stays one-to-one.
    pub fn add_session(&mut self, session: Session) -> (r: String)
        requires
            old(self).wf(),
        ensures
            final(self).wf(),
            final(self)@ == with_session(old(self)@, session),
            r@ == session.session_id@,
    {
        let ghost before = self@;
        let sid = session.session_id.clone();
        match &session.conversation_id {
            Some(c) => {
                self.detach(c.as_str());
            },
            None => {},
        }
        let ghost base = self@;
        proof {
            assert forall|k: int| 0 <= k < base.len() implies #[trigger] base[k].session_id@
                == before[k].session_id@ by {
                if conv_of(session) is Some {
                    assert(base[k] == detach_conv(before[k], conv_of(session)->Some_0));
                }
            }
        }
        let ghost mut pos: int = 0;
        match self.find_id(sid.as_str()) {
            Some(i) => {
                proof {
                    lemma_id_index(before, i as int);
                    pos = i as int;
                }
                self.sessions.set(i, session);
            },
            None => {
                proof {
                    if has_id(before, sid@) {
                        let j = id_index(before, sid@);
                        assert(base[j].session_id@ == sid@);
                    }
                    pos = base.len() as int;
                }
                self.sessions.push(session);
            },
        }
        proof {
            let ss = self@;
            assert(ss[pos] == session);
            assert forall|k: int| 0 <= k < ss.len() && k != pos implies #[trigger] ss[k]
                == base[k] && base[k].session_id@ != session.session_id@ by {
                if base[k].session_id@ == session.session_id@ {
                    assert(has_id(base, sid@));
                }
            }
            assert forall|a: int, b: int|
                0 <= a < ss.len() && 0 <= b < ss.len() && a != b implies #[trigger] ss[a].session_id@
                != #[trigger] ss[b].session_id@ by {
                if a != pos && b != pos {
                    assert(ss[a] == base[a]);
                    assert(ss[b] == base[b]);
                    assert(base[a].session_id@ != base[b].session_id@);
                } else if a == pos {
                    assert(ss[b] == base[b]);
                } else {
                    assert(ss[a] == base[a]);
                }
            }
            assert forall|a: int, b: int|
                0 <= a < ss.len() && 0 <= b < ss.len() && a != b && (#[trigger] conv_of(
                    ss[a],
                )) is Some implies conv_of(ss[a]) != #[trigger] conv_of(ss[b]) by {
                if a != pos && b != pos {
                    assert(ss[a] == base[a]);
                    assert(ss[b] == base[b]);
                    assert(conv_of(base[a]) != conv_of(base[b]));
                } else if a == pos {
                    assert(ss[b] == base[b]);
                    assert(conv_of(base[b]) != conv_of(session));
                } else {
                    assert(ss[a] == base[a]);
                    if conv_of(session) is Some {
                        assert(conv_of(base[a]) != conv_of(session));
                    }
                }
            }
            assert(ss =~= with_session(before, session));
        }
        sid
    }

    /// Binds conversation `conversation_id` to the session with identifier
    /// `session_id`; tells whether that session exists (else nothing changes).
    pub fn set_conversation_mapping(&mut self, conversation_id: String, session_id: String) -> (r:
        bool)
        requires
            old(self).wf(),
        ensures
            final(self).wf(),
            r == has_id(old(self)@, session_id@),
            r ==> final(self)@ == with_binding(old(self)@, conversation_id, session_id@),
            !r ==> final(self)@ == old(self)@,
    {
        let ghost before = self@;
        let i = match self.find_id(session_id.as_str()) {
            Some(i) => i,
            None => {
                return false;
            },
        };
        self.detach(conversation_id.as_str());
        let ghost base = self@;
        proof {
            assert(base[i as int] == detach_conv(before[i as int], conversation_id@));
            assert forall|k: int| 0 <= k < base.len() implies #[trigger] base[k].session_id@
                == before[k].session_id@ by {
                assert(base[k] == detach_conv(before[k], conversation_id@));
            }
        }
        let mut s = self.take_at(i);
        s.conversation_id = Some(conversation_id);
        self.sessions.insert(i, s);
        proof {
            let ss = self@;
            assert(ss =~= with_binding(before, ss[i as int].conversation_id->Some_0, session_id@));
            assert forall|a: int, b: int|
                0 <= a < ss.len() && 0 <= b < ss.len() && a != b implies #[trigger] ss[a].session_id@
                != #[trigger] ss[b].session_id@ by {
                assert(base[a].session_id@ != base[b].session_id@);
            }
            assert forall|a: int, b: int|
                0 <= a < ss.len() && 0 <= b < ss.len() && a != b && (#[trigger] conv_of(
                    ss[a],
                )) is Some implies conv_of(ss[a]) != #[trigger] conv_of(ss[b]) by {
                if a != i && b != i {
                    assert(conv_of(base[a]) != conv_of(base[b]));
                } else if a == i {
                    assert(conv_of(base[b]) != Some(ss[a].conversation_id->Some_0@));
                } else {
                    assert(conv_of(base[a]) != Some(ss[b].conversation_id->Some_0@));
                }
            }
        }
        true
    }

    /// Removes the session with identifier `session_id`, together with its
    /// conversation binding, and hands it back. Removing an absent session
    /// changes nothing and gives `None`.
    pub fn remove_session(&mut self, session_id: &str) -> (r: Option<Session>)
        requires
            old(self).wf(),
        ensures
            final(self).wf(),
            final(self)@ == without_id(old(self)@, session_id@),
            r is Some <==> has_id(old(self)@, session_id@),
            r is Some ==> r->Some_0 == old(self)@[id_index(old(self)@, session_id@)],
            r is None ==> final(self)@ == old(self)@,
    {
        let ghost before = self@;
        match self.find_id(session_id) {
            Some(i) => {
                proof {
                    assert forall|k: int| 0 <= k < before.len() && k != i implies #[trigger] before[k].session_id@
                        != session_id@ by {
                        assert(before[k].session_id@ != before[i as int].session_id@);
                    }
                    lemma_filter_one(before, session_id@, i as int);
                    lemma_remove_wf(before, i as int);
                }
                let s = self.take_at(i);
                Some(s)
            },
            None => {
                proof {
                    assert forall|k: int| 0 <= k < before.len() implies #[trigger] before[k].session_id@
                        != session_id@ by {
                        if before[k].session_id@ == session_id@ {
                            assert(has_id(before, session_id@));
                        }
                    }
                    lemma_filter_all(before, session_id@);
                }
                None
            },
        }
    }

    /// Removes the session bound to conversation `conversation_id`, with
    /// both directions of its binding, and hands it back.
    pub fn remove_by_conversation(&mut self, conversation_id: &str) -> (r: Option<Session>)
        requires
            old(self).wf(),
        ensures
            final(self).wf(),
            r is Some <==> has_conv(old(self)@, conversation_id@),
            r is Some ==> {
                let i = conv_index(old(self)@, conversation_id@);
                &&& r->Some_0 == old(self)@[i]
                &&& final(self)@ == without_id(old(self)@, old(self)@[i].session_id@)
            },
            r is None ==> final(self)@ == old(self)@,
    {
        match self.find_conv(conversation_id) {
            Some(i) => {
                let sid = self.sessions[i].session_id.clone();
                proof {
                    lemma_id_index(self@, i as int);
                }
                self.remove_session(sid.as_str())
            },
            None => None,
        }
    }

    /// Removes every session idle for more than `max_age` milliseconds at
    /// time `now`; the others stay, in their order.
    pub fn cleanup_expired_sessions_at(&mut self, max_age: i64, now: i64)
        requires
            old(self).wf(),
        ensures
            final(self).wf(),
            final(self)@ == old(self)@.filter(live_at(max_age, now)),
    {
        let ghost before = self@;
        let ghost n = before.len();
        proof {
            reveal(Seq::filter);
            assert(before.subrange(0, 0) =~= Seq::<Session>::empty());
            assert(before.subrange(0, n as int) =~= before);
        }
        let total = self.sessions.len();
        let mut i: usize = 0;
        let mut j: usize = 0;
        while i < self.sessions.len()
            invariant
                self.wf(),
                n == total,
                0 <= j <= n,
                i == before.subrange(0, j as int).filter(live_at(max_age, now)).len(),
                self@ == before.subrange(0, j as int).filter(live_at(max_age, now))
                    + before.subrange(j as int, n as int),
                n == before.len(),
                self@.len() == i + (n - j),
            decreases n - j,
        {
            let ghost kept = before.subrange(0, j as int).filter(live_at(max_age, now));
            let ghost step = before.subrange(0, j + 1);
            proof {
                reveal(Seq::filter);
                assert(step.drop_last() =~= before.subrange(0, j as int));
                assert(self@[i as int] == before[j as int]);
            }
            if self.sessions[i].is_expired_at(max_age, now) {
                proof {
                    lemma_remove_wf(self@, i as int);
                }
                let _ = self.take_at(i);
                proof {
                    assert(self@ =~= kept + before.subrange(j + 1, n as int));
                }
            } else {
                i = i + 1;
                proof {
                    assert(self@ =~= kept.push(before[j as int]) + before.subrange(
                        j + 1,
                        n as int,
                    ));
                }
            }
            j = j + 1;
        }
        proof {
            assert(before.subrange(0, n as int) =~= before);
            assert(before.subrange(n as int, n as int) =~= Seq::<Session>::empty());
            assert(self@ =~= before.filter(live_at(max_age, now)));
        }
    }

    /// Removes every session idle for more than `max_age` milliseconds now.
    pub fn cleanup_expired_sessions(&mut self, max_age: i64)
        requires
            old(self).wf(),
        ensures
            final(self).wf(),
            exists|t: i64| final(self)@ == old(self)@.filter(live_at(max_age, t)),
    {
        let now = crate::clock::now_millis();
        self.cleanup_expired_sessions_at(max_age, now);
    }
}

/// Bijection law: in a well-formed registry, the conversation bound to a
/// session leads back to that session and the session's identifier to its
/// place; once the session is removed, neither its identifier nor its
/// conversation is found any more.
pub proof fn law_conversation_bijection(ss: Seq<Session>, i: int)
    requires
        ids_unique(ss),
        convs_unique(ss),
        0 <= i < ss.len(),
        conv_of(ss[i]) is Some,
    ensures
        has_conv(ss, conv_of(ss[i])->Some_0),
        conv_index(ss, conv_of(ss[i])->Some_0) == i,
        id_index(ss, ss[i].session_id@) == i,
        !has_id(without_id(ss, ss[i].session_id@), ss[i].session_id@),
        !has_conv(without_id(ss, ss[i].session_id@), conv_of(ss[i])->Some_0),
{
    let sid = ss[i].session_id@;
    let c = conv_of(ss[i])->Some_0;
    lemma_conv_index(ss, i, c);
    lemma_id_index(ss, i);
    assert forall|k: int| 0 <= k < ss.len() && k != i implies #[trigger] ss[k].session_id@
        != sid by {}
    lemma_filter_one(ss, sid, i);
    let r = ss.remove(i);
    assert forall|a: int| 0 <= a < r.len() implies #[trigger] r[a].session_id@ != sid && conv_of(
        r[a],
    ) != Some(c) by {
        let x = if a < i {
            a
        } else {
            a + 1
        };
        assert(r[a] == ss[x]);
        assert(conv_of(ss[i]) != conv_of(ss[x]));
    }
}

/// Binding law: after conversation `c` is bound to the registered session
/// `sid`, the conversation leads to that session, that session carries `c`,
/// and no other session carries `c`.
pub proof fn law_binding_bijective(ss: Seq<Session>, c: String, sid: Seq<char>)
    requires
        ids_unique(ss),
        has_id(ss, sid),
    ensures
        has_conv(with_binding(ss, c, sid), c@),
        with_binding(ss, c, sid)[conv_index(with_binding(ss, c, sid), c@)].session_id@ == sid,
        conv_of(with_binding(ss, c, sid)[id_index(ss, sid)]) == Some(c@),
        forall|k: int|
            0 <= k < ss.len() && k != id_index(ss, sid) ==> conv_of(
                #[trigger] with_binding(ss, c, sid)[k],
            ) != Some(c@),
{
    let w = with_binding(ss, c, sid);
    let i = id_index(ss, sid);
    assert(conv_of(w[i]) == Some(c@));
    assert forall|k: int| 0 <= k < ss.len() && k != i implies conv_of(
        #[trigger] w[k],
    ) != Some(c@) by {
        assert(w[k] == detach_conv(ss[k], c@));
    }
    let j = conv_index(w, c@);
    assert(conv_of(w[j]) == Some(c@));
    assert(j == i);
}

/// Removal is idempotent: after removing `sid` no session has that
/// identifier, and removing it again changes nothing.
pub proof fn law_remove_idempotent(ss: Seq<Session>, sid: Seq<char>)
    ensures
        !has_id(without_id(ss, sid), sid),
        without_id(without_id(ss, sid), sid) == without_id(ss, sid),
{
    let w = without_id(ss, sid);
    assert forall|k: int| 0 <= k < w.len() implies #[trigger] w[k].session_id@ != sid by {
        ss.lemma_filter_pred(other_than(sid), k);
    }
    lemma_filter_all(w, sid);
}

} // verus!
