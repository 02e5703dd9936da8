//! HTTP session state: event-id allocation, the bounded replay buffer, and
//! the store that maps session ids to sessions and sweeps out the expired
//! ones.

use vstd::prelude::*;
use crate::text::str_eq;

verus! {

/// One event kept for replay: its id, an optional SSE event type, and the
/// data line.
pub struct BufferedMessage {
    pub event_id: u64,
    pub event_type: Option<String>,
    pub data: String,
}

impl Clone for BufferedMessage {
    fn clone(&self) -> (res: Self)
        ensures
            res == *self,
    {
        BufferedMessage {
            event_id: self.event_id,
            event_type: match &self.event_type {
                Some(t) => Some(t.clone()),
                None => None,
            },
            data: self.data.clone(),
        }
    }
}

/// The replay buffer keeps at most this many events.
pub const MAX_BUFFER_SIZE: usize = 100;

/// Whether a session counts as expired at `now_ms`.
pub open spec fn expired_spec(last_activity_ms: u64, timeout_ms: u64, now_ms: u64) -> bool {
    now_ms - last_activity_ms > timeout_ms
}

/// One HTTP session: its opaque id, its clock marks, the child it last
/// spoke to, the monotonic event-id counter, the replay buffer, and the
/// generation of its current outbound event sink. The ghost `history`
/// records every event ever buffered on the session; the buffer is always
/// a suffix of it.
pub struct HttpSession {
    pub id: String,
    pub created_at_ms: u64,
    pub last_activity_ms: u64,
    pub server_name: Option<String>,
    pub last_event_id: u64,
    pub message_buffer: Vec<BufferedMessage>,
    pub sink_generation: u64,
    pub history: Ghost<Seq<BufferedMessage>>,
}

/// How the sink generation moves when a fresh outbound channel claims the
/// session: up by one, staying put only at the top of its range.
pub open spec fn bumped_generation(g: u64) -> u64 {
    if g < u64::MAX {
        (g + 1) as u64
    } else {
        g
    }
}

impl HttpSession {
    /// The session invariant: event ids in the history grow strictly, never
    /// beyond the counter, and the buffer is a suffix of the history of at
    /// most `MAX_BUFFER_SIZE` events.
    pub open spec fn wf(&self) -> bool {
        &&& forall|i: int, j: int|
            #![trigger self.history@[i].event_id, self.history@[j].event_id]
            0 <= i < j < self.history@.len() ==> self.history@[i].event_id
                < self.history@[j].event_id
        &&& forall|i: int|
            0 <= i < self.history@.len() ==> #[trigger] self.history@[i].event_id
                <= self.last_event_id
        &&& self.message_buffer@.len() <= MAX_BUFFER_SIZE
        &&& self.message_buffer@.len() <= self.history@.len()
        &&& self.message_buffer@ == self.history@.subrange(
            self.history@.len() - self.message_buffer@.len(),
            self.history@.len() as int,
        )
    }

    /// A fresh session at `now_ms`: counter at zero, nothing buffered, no
    /// sink bound yet.
    pub open spec fn is_fresh(&self, id: Seq<char>, now_ms: u64) -> bool {
        &&& self.id@ == id
        &&& self.created_at_ms == now_ms
        &&& self.last_activity_ms == now_ms
        &&& self.server_name is None
        &&& self.last_event_id == 0
        &&& self.message_buffer@.len() == 0
        &&& self.sink_generation == 0
        &&& self.history@.len() == 0
    }

    /// Builds a fresh session under the given id.
    pub fn new(id: String, now_ms: u64) -> (r: Self)
        ensures
            r.wf(),
            r.is_fresh(id@, now_ms),
            r.id == id,
    {
        let r = HttpSession {
            id,
            created_at_ms: now_ms,
            last_activity_ms: now_ms,
            server_name: None,
            last_event_id: 0,
            message_buffer: Vec::new(),
            sink_generation: 0,
            history: Ghost(Seq::empty()),
        };
        proof {
            assert(r.message_buffer@ =~= r.history@.subrange(0, 0));
        }
        r
    }

    /// Whether the session has been idle longer than the timeout.
    pub fn is_expired(&self, timeout_ms: u64, now_ms: u64) -> (r: bool)
        ensures
            r == expired_spec(self.last_activity_ms, timeout_ms, now_ms),
    {
        now_ms > self.last_activity_ms && now_ms - self.last_activity_ms > timeout_ms
    }

    /// Marks the session active at `now_ms`.
    pub fn touch(&mut self, now_ms: u64)
        ensures
            *final(self) == (HttpSession { last_activity_ms: now_ms, ..*old(self) }),
    {
        self.last_activity_ms = now_ms;
    }

    /// Binds a fresh outbound event sink to the session, replacing any
    /// prior one: the generation moves up, and the caller's channel is the
    /// session's current sink from here on.
    pub fn bind_sink(&mut self) -> (r: u64)
        ensures
            r == bumped_generation(old(self).sink_generation),
            *final(self) == (HttpSession { sink_generation: r, ..*old(self) }),
    {
        if self.sink_generation < u64::MAX {
            self.sink_generation = self.sink_generation + 1;
        }
        self.sink_generation
    }

    /// Hands out the next event id: the counter moves up by one and the new
    /// value is returned. Ids are dense and never reused.
    pub fn next_event_id(&mut self) -> (r: u64)
        requires
            old(self).last_event_id < u64::MAX,
        ensures
            r == old(self).last_event_id + 1,
            *final(self) == (HttpSession { last_event_id: r, ..*old(self) }),
            old(self).wf() ==> final(self).wf(),
    {
        self.last_event_id = self.last_event_id + 1;
        self.last_event_id
    }

    /// Appends one event to the replay buffer, dropping the oldest entry
    /// once the buffer is full. The event id must be fresh: above every id
    /// already buffered, and not above the counter.
    pub fn buffer_message(&mut self, event_id: u64, event_type: Option<String>, data: String)
        requires
            old(self).wf(),
            event_id <= old(self).last_event_id,
            old(self).history@.len() > 0 ==> event_id > old(self).history@.last().event_id,
        ensures
            final(self).wf(),
            final(self).history@ == old(self).history@.push(
                BufferedMessage { event_id, event_type, data },
            ),
            final(self).message_buffer@ == ({
                let grown = old(self).message_buffer@.push(
                    BufferedMessage { event_id, event_type, data },
                );
                if grown.len() > MAX_BUFFER_SIZE {
                    grown.drop_first()
                } else {
                    grown
                }
            }),
            final(self).id == old(self).id,
            final(self).created_at_ms == old(self).created_at_ms,
            final(self).last_activity_ms == old(self).last_activity_ms,
            final(self).server_name == old(self).server_name,
            final(self).last_event_id == old(self).last_event_id,
            final(self).sink_generation == old(self).sink_generation,
    {
        let ghost msg_g = BufferedMessage { event_id, event_type, data };
        self.message_buffer.push(BufferedMessage { event_id, event_type, data });
        self.history = Ghost(self.history@.push(msg_g));
        if self.message_buffer.len() > MAX_BUFFER_SIZE {
            self.message_buffer.remove(0);
        }
        proof {
            let h = self.history@;
            let b = self.message_buffer@;
            assert(b =~= h.subrange(h.len() - b.len(), h.len() as int));
        }
    }

    /// Every buffered event with an id above `last_event_id`, oldest first.
    pub fn get_messages_after(&self, last_event_id: u64) -> (r: Vec<BufferedMessage>)
        ensures
            r@ == messages_after_spec(self.message_buffer@, last_event_id),
    {
        let mut out: Vec<BufferedMessage> = Vec::new();
        let mut i: usize = 0;
        while i < self.message_buffer.len()
            invariant
                i <= self.message_buffer@.len(),
                out@ == messages_after_spec(
                    self.message_buffer@.subrange(0, i as int),
                    last_event_id,
                ),
            decreases self.message_buffer@.len() - i,
        {
            let m = &self.message_buffer[i];
            if m.event_id > last_event_id {
                out.push(m.clone());
            }
            proof {
                reveal(Seq::filter);
                let pred = |msg: BufferedMessage| msg.event_id > last_event_id;
                let pre = self.message_buffer@.subrange(0, i as int);
                let next = self.message_buffer@.subrange(0, i + 1);
                assert(next.drop_last() =~= pre);
                assert(next.last() == self.message_buffer@[i as int]);
                assert(out@ =~= next.filter(pred));
            }
            i += 1;
        }
        proof {
            assert(self.message_buffer@.subrange(0, self.message_buffer@.len() as int)
                =~= self.message_buffer@);
        }
        out
    }
}

/// The replay suffix: the buffered events whose id lies above `last`, in
/// buffer order.
pub open spec fn messages_after_spec(buf: Seq<BufferedMessage>, last: u64) -> Seq<
    BufferedMessage,
> {
    buf.filter(|msg: BufferedMessage| msg.event_id > last)
}

/// Event ids on one session grow strictly: a later event always carries a
/// larger id than an earlier one, so no id is ever emitted twice.
pub proof fn lemma_event_ids_strictly_increasing(s: HttpSession, i: int, j: int)
    requires
        s.wf(),
        0 <= i < j < s.history@.len(),
    ensures
        s.history@[i].event_id < s.history@[j].event_id,
{
}

/// The replay buffer always holds a contiguous suffix of the events emitted
/// on the session, and never more than `MAX_BUFFER_SIZE` of them.
pub proof fn lemma_replay_buffer_contiguous_suffix(s: HttpSession)
    requires
        s.wf(),
    ensures
        s.message_buffer@.len() <= MAX_BUFFER_SIZE,
        s.message_buffer@ == s.history@.subrange(
            s.history@.len() - s.message_buffer@.len(),
            s.history@.len() as int,
        ),
{
}

/// Replay is idempotent: two reads with the same `last-event-id` from a
/// buffer that has not advanced in between yield the same sequence.
pub proof fn lemma_replay_idempotent(s1: HttpSession, s2: HttpSession, last: u64)
    requires
        s1.message_buffer@ == s2.message_buffer@,
    ensures
        messages_after_spec(s1.message_buffer@, last) == messages_after_spec(
            s2.message_buffer@,
            last,
        ),
{
}

/// Relies on `uuid::Uuid::new_v4` and its display form: a fresh random
/// session id in the 36-character hyphenated shape. Nothing more is assumed
/// of the value: it is random, and the store handles a collision by
/// replacing the colliding session.
#[verifier::external_body]
fn fresh_session_id() -> (r: String)
    ensures
        r@.len() == 36,
{
    uuid::Uuid::new_v4().to_string()
}

/// The session store: every live session, each under its unique id.
pub struct SessionStore {
    pub sessions: Vec<HttpSession>,
}

impl SessionStore {
    /// The store invariant: all sessions well-formed, ids unique.
    pub open spec fn wf(&self) -> bool {
        &&& forall|i: int| 0 <= i < self.sessions@.len() ==> (#[trigger] self.sessions@[i]).wf()
        &&& forall|i: int, j: int|
            #![trigger self.sessions@[i].id, self.sessions@[j].id]
            0 <= i < j < self.sessions@.len() ==> self.sessions@[i].id@ != self.sessions@[j].id@
    }

    /// Whether some session carries this id.
    pub open spec fn contains_id(&self, id: Seq<char>) -> bool {
        exists|i: int| 0 <= i < self.sessions@.len() && (#[trigger] self.sessions@[i]).id@ == id
    }

    /// An empty store.
    pub fn new() -> (r: Self)
        ensures
            r.wf(),
            r.sessions@.len() == 0,
    {
        SessionStore { sessions: Vec::new() }
    }

    /// How many sessions are live.
    pub fn len(&self) -> (r: usize)
        ensures
            r == self.sessions@.len(),
    {
        self.sessions.len()
    }

    /// The position of the session with this id, when it exists.
    pub fn find(&self, id: &str) -> (r: Option<usize>)
        ensures
            r matches Some(i) ==> i < self.sessions@.len() && self.sessions@[i as int].id@ == id@,
            r is None ==> !self.contains_id(id@),
    {
        let mut i: usize = 0;
        while i < self.sessions.len()
            invariant
                i <= self.sessions@.len(),
                forall|j: int| 0 <= j < i ==> (#[trigger] self.sessions@[j]).id@ != id@,
            decreases self.sessions@.len() - i,
        {
            if str_eq(self.sessions[i].id.as_str(), id) {
                return Some(i);
            }
            i += 1;
        }
        None
    }

    /// Creates a session under a fresh random id and returns the id. A
    /// session already sitting under the same id is replaced.
    pub fn create(&mut self, now_ms: u64) -> (sid: String)
        requires
            old(self).wf(),
        ensures
            final(self).wf(),
            sid@.len() == 36,
            final(self).sessions@.len() >= 1,
            final(self).sessions@.last().wf(),
            final(self).sessions@.last().is_fresh(sid@, now_ms),
            !old(self).contains_id(sid@) ==> final(self).sessions@ == old(self).sessions@.push(
                final(self).sessions@.last(),
            ),
            old(self).contains_id(sid@) ==> exists|i: int|
                0 <= i < old(self).sessions@.len() && (#[trigger] old(self).sessions@[i]).id@
                    == sid@ && final(self).sessions@ == old(self).sessions@.remove(i).push(
                    final(self).sessions@.last(),
                ),
    {
        let sid = fresh_session_id();
        let id_copy = sid.clone();
        match self.find(sid.as_str()) {
            Some(i) => {
                self.sessions.remove(i);
            },
            None => {},
        }
        let fresh = HttpSession::new(id_copy, now_ms);
        self.sessions.push(fresh);
        proof {
            if old(self).contains_id(sid@) {
                let i = choose|i: int|
                    0 <= i < old(self).sessions@.len() && (#[trigger] old(
                        self,
                    ).sessions@[i]).id@ == sid@;
                old(self).sessions@.remove_ensures(i);
            }
        }
        sid
    }

    /// Drops the session with this id; says whether one was there.
    pub fn remove(&mut self, id: &str) -> (removed: bool)
        requires
            old(self).wf(),
        ensures
            final(self).wf(),
            removed == old(self).contains_id(id@),
            !removed ==> final(self).sessions@ == old(self).sessions@,
            removed ==> exists|i: int|
                0 <= i < old(self).sessions@.len() && (#[trigger] old(self).sessions@[i]).id@
                    == id@ && final(self).sessions@ == old(self).sessions@.remove(i),
    {
        match self.find(id) {
            Some(i) => {
                self.sessions.remove(i);
                true
            },
            None => false,
        }
    }

    /// Removes every session whose last activity lies further back than the
    /// timeout. The survivors keep their order.
    pub fn sweep(&mut self, timeout_ms: u64, now_ms: u64)
        requires
            old(self).wf(),
        ensures
            final(self).wf(),
            final(self).sessions@ == old(self).sessions@.filter(
                |s: HttpSession| !expired_spec(s.last_activity_ms, timeout_ms, now_ms),
            ),
    {
        let ghost pred = |s: HttpSession| !expired_spec(s.last_activity_ms, timeout_ms, now_ms);
        let ghost orig = old(self).sessions@;
        let ghost mut k: int = 0;
        let mut i: usize = 0;
        while i < self.sessions.len()
            invariant
                old(self).wf(),
                orig == old(self).sessions@,
                pred == (|s: HttpSession| !expired_spec(
                    s.last_activity_ms,
                    timeout_ms,
                    now_ms,
                )),
                0 <= k <= orig.len(),
                i == orig.subrange(0, k).filter(pred).len(),
                self.sessions@ == orig.subrange(0, k).filter(pred) + orig.subrange(
                    k,
                    orig.len() as int,
                ),
                self.wf(),
            decreases orig.len() - k,
        {
            proof {
                assert(self.sessions@[i as int] == orig[k]);
            }
            let expired = (&self.sessions[i]).is_expired(timeout_ms, now_ms);
            proof {
                reveal(Seq::filter);
                let pre = orig.subrange(0, k);
                let next = orig.subrange(0, k + 1);
                assert(next.drop_last() =~= pre);
                assert(next.last() == orig[k]);
            }
            if expired {
                let ghost before = self.sessions@;
                self.sessions.remove(i);
                proof {
                    before.remove_ensures(i as int);
                    assert(self.sessions@ =~= orig.subrange(0, k + 1).filter(pred)
                        + orig.subrange(k + 1, orig.len() as int));
                    assert forall|a: int, b: int|
                        #![trigger self.sessions@[a].id, self.sessions@[b].id]
                        0 <= a < b < self.sessions@.len() implies self.sessions@[a].id@
                        != self.sessions@[b].id@ by {
                        assert(self.sessions@[a] == if a < i { before[a] } else { before[a + 1] });
                        assert(self.sessions@[b] == if b < i { before[b] } else { before[b + 1] });
                    }
                    assert(self.wf());
                }
            } else {
                i += 1;
                proof {
                    assert(orig.subrange(0, k + 1).filter(pred) =~= orig.subrange(0, k).filter(
                        pred,
                    ).push(orig[k]));
                    assert(self.sessions@ =~= orig.subrange(0, k + 1).filter(pred)
                        + orig.subrange(k + 1, orig.len() as int));
                }
            }
            proof {
                k = k + 1;
            }
        }
        proof {
            assert(orig.subrange(k, orig.len() as int).len() == 0);
            assert(k == orig.len());
            assert(orig.subrange(0, k) =~= orig);
            assert(self.sessions@ =~= orig.filter(pred));
        }
    }
}

} // verus!
