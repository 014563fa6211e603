use vstd::prelude::*;
use std::collections::HashMap;
use crate::state::StreamState;
use crate::stream::{PartContent, Stream, StreamPart, is_flush_of, flushed_state};
use crate::state::closed_local;

verus! {

/// Stream ids are `u32`, as on the wire.
pub type StreamId = u32;

/// Ids in a sequence of streams strictly increase.
pub open spec fn ids_increasing(s: Seq<Stream>) -> bool {
    forall|i: int, j: int| 0 <= i < j < s.len() ==> s[i].id < s[j].id
}

/// The table that a sequence of streams stands for, keyed by id.
pub open spec fn seq_model(s: Seq<Stream>) -> Map<StreamId, Stream>
    decreases s.len(),
{
    if s.len() == 0 {
        Map::empty()
    } else {
        seq_model(s.drop_last()).insert(s.last().id, s.last())
    }
}

/// The lifecycle states of a table.
pub open spec fn states_of(m: Map<StreamId, Stream>) -> Map<StreamId, StreamState> {
    m.map_values(|st: Stream| st.state)
}

pub(crate) proof fn lemma_model_dom(s: Seq<Stream>, id: StreamId)
    ensures
        seq_model(s).contains_key(id) <==> exists|i: int| 0 <= i < s.len() && s[i].id == id,
    decreases s.len(),
{
    if s.len() > 0 {
        let t = s.drop_last();
        lemma_model_dom(t, id);
        if exists|i: int| 0 <= i < t.len() && t[i].id == id {
            let i = choose|i: int| 0 <= i < t.len() && t[i].id == id;
            assert(s[i].id == id);
        }
        if exists|i: int| 0 <= i < s.len() && s[i].id == id {
            let i = choose|i: int| 0 <= i < s.len() && s[i].id == id;
            if i < t.len() {
                assert(t[i].id == id);
            }
        }
    }
}

pub(crate) proof fn lemma_model_at(s: Seq<Stream>, i: int)
    requires
        ids_increasing(s),
        0 <= i < s.len(),
    ensures
        seq_model(s).contains_key(s[i].id),
        seq_model(s)[s[i].id] == s[i],
    decreases s.len(),
{
    let t = s.drop_last();
    if i < t.len() {
        assert(t[i] == s[i]);
        lemma_model_at(t, i);
        assert(s[i].id < s.last().id);
    }
}

pub(crate) proof fn lemma_model_update(s: Seq<Stream>, i: int, x: Stream)
    requires
        ids_increasing(s),
        0 <= i < s.len(),
        x.id == s[i].id,
    ensures
        seq_model(s.update(i, x)) == seq_model(s).insert(x.id, x),
    decreases s.len(),
{
    let u = s.update(i, x);
    let t = s.drop_last();
    if i == s.len() - 1 {
        assert(u.drop_last() =~= t);
        if seq_model(t).contains_key(x.id) {
            lemma_model_dom(t, x.id);
            let j = choose|j: int| 0 <= j < t.len() && t[j].id == x.id;
            assert(s[j].id < s[i].id);
        }
        assert(seq_model(u) =~= seq_model(s).insert(x.id, x));
    } else {
        assert(u.drop_last() =~= t.update(i, x));
        lemma_model_update(t, i, x);
        assert(s[i].id < s.last().id);
        assert(seq_model(u) =~= seq_model(s).insert(x.id, x));
    }
}

pub(crate) proof fn lemma_model_push(s: Seq<Stream>, x: Stream)
    ensures
        seq_model(s.push(x)) == seq_model(s).insert(x.id, x),
{
    assert(s.push(x).drop_last() =~= s);
}

/// A snapshot of the lifecycle state of every stream in the table.
pub struct ConnectionState {
    pub streams: HashMap<StreamId, StreamState>,
}

/// The stream table of one connection and its id allocator.
pub struct ClientInner {
    pub streams: Vec<Stream>,
    pub next_stream_id: StreamId,
}

impl ClientInner {
    /// The table keyed by stream id.
    pub open spec fn model(&self) -> Map<StreamId, Stream> {
        seq_model(self.streams@)
    }

    /// The ids are odd, increase in insertion order, and stay below the
    /// next id to allocate, which is odd too.
    pub open spec fn wf(&self) -> bool {
        &&& self.next_stream_id % 2 == 1
        &&& ids_increasing(self.streams@)
        &&& forall|i: int|
            0 <= i < self.streams@.len() ==> #[trigger] self.streams@[i].id % 2 == 1
                && self.streams@[i].id < self.next_stream_id
    }

    /// Whether one more stream id can be allocated.
    pub open spec fn can_allocate(&self) -> bool {
        self.next_stream_id <= u32::MAX - 2
    }

    pub fn new() -> (r: ClientInner)
        ensures
            r.wf(),
            r.next_stream_id == 1,
            r.model() == Map::<StreamId, Stream>::empty(),
    {
        ClientInner { streams: Vec::new(), next_stream_id: 1 }
    }

    pub fn has_id_space(&self) -> (r: bool)
        ensures
            r == self.can_allocate(),
    {
        self.next_stream_id <= u32::MAX - 2
    }

    /// Inserts a stream under the next id, which it returns; the next id
    /// to allocate grows by 2.
    pub fn insert_stream(&mut self, stream: Stream) -> (r: StreamId)
        requires
            old(self).wf(),
            old(self).can_allocate(),
        ensures
            final(self).wf(),
            r == old(self).next_stream_id,
            r % 2 == 1,
            final(self).next_stream_id == r + 2,
            !old(self).model().contains_key(r),
            final(self).model() == old(self).model().insert(r, Stream { id: r, ..stream }),
    {
        let id = self.next_stream_id;
        let mut stream = stream;
        stream.id = id;
        proof {
            lemma_model_push(self.streams@, stream);
            lemma_model_dom(self.streams@, id);
        }
        self.streams.push(stream);
        self.next_stream_id = id + 2;
        id
    }

    /// The index of the stream with the given id, if it is in the table.
    pub fn find(&self, id: StreamId) -> (r: Option<usize>)
        requires
            self.wf(),
        ensures
            r is None <==> !self.model().contains_key(id),
            r matches Some(i) ==> i < self.streams@.len() && self.streams@[i as int].id == id
                && self.model()[id] == self.streams@[i as int],
    {
        let mut i: usize = 0;
        while i < self.streams.len()
            invariant
                self.wf(),
                0 <= i <= self.streams@.len(),
                forall|j: int| 0 <= j < i ==> self.streams@[j].id != id,
            decreases self.streams@.len() - i,
        {
            if self.streams[i].id == id {
                proof {
                    lemma_model_at(self.streams@, i as int);
                }
                return Some(i);
            }
            i = i + 1;
        }
        proof {
            lemma_model_dom(self.streams@, id);
        }
        None
    }

    /// The stream with the given id, if it is in the table.
    pub fn get_stream(&self, id: StreamId) -> (r: Option<&Stream>)
        requires
            self.wf(),
        ensures
            r is None <==> !self.model().contains_key(id),
            r matches Some(s) ==> *s == self.model()[id],
    {
        match self.find(id) {
            Some(i) => Some(&self.streams[i]),
            None => None,
        }
    }

    /// Whether the table holds a stream with the given id.
    pub fn contains_stream(&self, id: StreamId) -> (r: bool)
        requires
            self.wf(),
        ensures
            r == self.model().contains_key(id),
    {
        self.find(id).is_some()
    }

    /// The state of every stream in the table, read without changing it.
    pub fn dump_state(&self) -> (r: ConnectionState)
        requires
            self.wf(),
        ensures
            r.streams@ == states_of(self.model()),
    {
        let mut streams: HashMap<StreamId, StreamState> = HashMap::new();
        let mut i: usize = 0;
        while i < self.streams.len()
            invariant
                0 <= i <= self.streams@.len(),
                streams@ == states_of(seq_model(self.streams@.take(i as int))),
            decreases self.streams@.len() - i,
        {
            let s = &self.streams[i];
            proof {
                let t = self.streams@.take(i as int);
                assert(self.streams@.take(i + 1) =~= t.push(*s));
                lemma_model_push(t, *s);
                assert(states_of(seq_model(t).insert(s.id, *s)) =~= states_of(seq_model(t)).insert(s.id, s.state));
            }
            streams.insert(s.id, s.state);
            i = i + 1;
        }
        assert(self.streams@.take(i as int) =~= self.streams@);
        ConnectionState { streams }
    }

    /// Sends what the stream with the given id can send now (see
    /// `Stream::flush`).
    pub fn send_outg_stream(&mut self, id: StreamId) -> (r: Vec<StreamPart>)
        requires
            old(self).wf(),
            old(self).model().contains_key(id),
        ensures
            final(self).wf(),
            final(self).next_stream_id == old(self).next_stream_id,
            ({
                let before = old(self).model()[id];
                let after = final(self).model()[id];
                &&& is_flush_of(r@, before.outgoing@, before.outgoing_end, before.state)
                &&& after.state == flushed_state(before.outgoing_end, before.state)
                &&& after.outgoing@.len() == 0
                &&& after.id == id
                &&& after.outgoing_end == before.outgoing_end
                &&& after.has_sink == before.has_sink
                &&& final(self).model() == old(self).model().insert(id, after)
            }),
    {
        let i = self.find(id).unwrap();
        let r = self.streams[i].flush();
        proof {
            lemma_model_update(old(self).streams@, i as int, self.streams@[i as int]);
            assert(self.streams@ == old(self).streams@.update(i as int, self.streams@[i as int]));
            lemma_model_at(self.streams@, i as int);
        }
        r
    }

    /// Queues a body chunk behind the stream's pending output. A stream
    /// whose output has ended, or whose local side is closed, takes no
    /// more content: the chunk is refused and nothing changes.
    pub fn push_body_chunk(&mut self, id: StreamId, chunk: Vec<u8>) -> (accepted: bool)
        requires
            old(self).wf(),
            old(self).model().contains_key(id),
        ensures
            final(self).wf(),
            final(self).next_stream_id == old(self).next_stream_id,
            ({
                let before = old(self).model()[id];
                let after = final(self).model()[id];
                &&& accepted == (!before.outgoing_end && !closed_local(before.state))
                &&& !accepted ==> final(self).model() == old(self).model()
                &&& accepted ==> {
                    &&& after.outgoing@ == before.outgoing@.push(PartContent::Data(chunk))
                    &&& after.id == id
                    &&& after.state == before.state
                    &&& after.outgoing_end == before.outgoing_end
                    &&& after.has_sink == before.has_sink
                    &&& final(self).model() == old(self).model().insert(id, after)
                }
            }),
    {
        let i = self.find(id).unwrap();
        if self.streams[i].outgoing_end || self.streams[i].is_closed_local() {
            return false;
        }
        self.streams[i].outgoing.push_back(PartContent::Data(chunk));
        proof {
            lemma_model_update(old(self).streams@, i as int, self.streams@[i as int]);
            assert(self.streams@ == old(self).streams@.update(i as int, self.streams@[i as int]));
            lemma_model_at(self.streams@, i as int);
        }
        true
    }

    /// Marks the end of the stream's output.
    pub fn end_outgoing(&mut self, id: StreamId)
        requires
            old(self).wf(),
            old(self).model().contains_key(id),
        ensures
            final(self).wf(),
            final(self).next_stream_id == old(self).next_stream_id,
            ({
                let before = old(self).model()[id];
                let after = final(self).model()[id];
                &&& after.outgoing_end
                &&& after.outgoing@ == before.outgoing@
                &&& after.id == id
                &&& after.state == before.state
                &&& after.has_sink == before.has_sink
                &&& final(self).model() == old(self).model().insert(id, after)
            }),
    {
        let i = self.find(id).unwrap();
        self.streams[i].outgoing_end = true;
        proof {
            lemma_model_update(old(self).streams@, i as int, self.streams@[i as int]);
            assert(self.streams@ == old(self).streams@.update(i as int, self.streams@[i as int]));
            lemma_model_at(self.streams@, i as int);
        }
    }
}

} // verus!
