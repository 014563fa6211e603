use vstd::prelude::*;
use crate::connection::{ClientInner, ConnectionState, StreamId, states_of};
use crate::state::{StreamState, closed_local};
use crate::stream::{Header, PartContent, Stream, StreamPart, flushed_state, is_flush_of};

verus! {

/// A message to the write side of a connection.
pub enum WriteMessage {
    /// Start a request with the given header block; a response consumer
    /// is attached.
    Start(Vec<Header>),
    /// A body chunk for a started request.
    BodyChunk(StreamId, Vec<u8>),
    /// The end of a started request's body.
    End(StreamId),
    /// An already serialized connection-level control frame.
    Common(Vec<u8>),
    /// A request for a snapshot of the stream states.
    DumpState,
}

/// What the write side does in answer to one message.
pub enum WriteOutcome {
    /// A stream was allocated; its parts to send follow.
    Started(StreamId, Vec<StreamPart>),
    /// Parts of the given stream to send, in order.
    Parts(StreamId, Vec<StreamPart>),
    /// A body chunk that the stream no longer takes.
    Refused(StreamId),
    /// Bytes to write as they are.
    Raw(Vec<u8>),
    /// A snapshot to hand back to the requester.
    Snapshot(ConnectionState),
}

/// What a message needs of the table: the streams it names are there,
/// and a new stream can get an id.
pub open spec fn message_ok(inner: ClientInner, msg: WriteMessage) -> bool {
    match msg {
        WriteMessage::Start(_) => inner.can_allocate(),
        WriteMessage::BodyChunk(id, _) => inner.model().contains_key(id),
        WriteMessage::End(id) => inner.model().contains_key(id),
        _ => true,
    }
}

/// What starting a stream does to the table: it takes the next id, which
/// was free, and the next id to allocate grows by 2.
pub open spec fn started(before: ClientInner, after: ClientInner, id: StreamId) -> bool {
    &&& id == before.next_stream_id
    &&& after.next_stream_id == id + 2
    &&& !before.model().contains_key(id)
    &&& after.model() == before.model().insert(id, after.model()[id])
    &&& after.model()[id].id == id
    &&& after.model()[id].state == StreamState::Open
}

/// On a fresh connection, the k-th stream started gets id 2k + 1: the ids
/// are odd, strictly increasing, and spaced by 2.
pub proof fn lemma_successive_ids(tables: Seq<ClientInner>, ids: Seq<StreamId>)
    requires
        tables.len() == ids.len() + 1,
        tables[0].next_stream_id == 1,
        forall|k: int| 0 <= k < ids.len() ==> started(#[trigger] tables[k], tables[k + 1], ids[k]),
    ensures
        forall|k: int| 0 <= k < ids.len() ==> #[trigger] ids[k] == 2 * k + 1,
        forall|j: int, k: int| 0 <= j < k < ids.len() ==> ids[j] < ids[k],
    decreases ids.len(),
{
    if ids.len() > 0 {
        let n = ids.len() - 1;
        lemma_successive_ids(tables.take(n + 1), ids.take(n));
        assert(started(tables[n], tables[n + 1], ids[n]));
        assert forall|k: int| 0 <= k < ids.len() implies #[trigger] ids[k] == 2 * k + 1 by {
            if k < n {
                assert(ids.take(n)[k] == ids[k]);
            } else if n > 0 {
                assert(started(tables[n - 1], tables[n], ids[n - 1]));
                assert(ids.take(n)[n - 1] == ids[n - 1]);
            }
        }
    }
}

impl ClientInner {
    /// Allocates a stream for a new request, queues its header block and
    /// sends it.
    pub fn process_start(&mut self, headers: Vec<Header>) -> (r: (StreamId, Vec<StreamPart>))
        requires
            old(self).wf(),
            old(self).can_allocate(),
        ensures
            final(self).wf(),
            started(*old(self), *final(self), r.0),
            r.1@ == seq![StreamPart { content: PartContent::Headers(headers), last: false }],
            final(self).model()[r.0].outgoing@.len() == 0,
            !final(self).model()[r.0].outgoing_end,
            final(self).model()[r.0].has_sink,
    {
        let stream = Stream::new(0, headers, true);
        let id = self.insert_stream(stream);
        let parts = self.send_outg_stream(id);
        proof {
            assert(parts@ =~= seq![StreamPart { content: PartContent::Headers(headers), last: false }]);
            assert(self.model() =~= old(self).model().insert(id, self.model()[id]));
        }
        (id, parts)
    }

    /// Handles one message. Messages are handled one at a time, and the
    /// parts of a stream come out in the order in which they were queued.
    pub fn process_message(&mut self, msg: WriteMessage) -> (r: WriteOutcome)
        requires
            old(self).wf(),
            message_ok(*old(self), msg),
        ensures
            final(self).wf(),
            match msg {
                WriteMessage::Start(headers) => {
                    let id = old(self).next_stream_id;
                    &&& started(*old(self), *final(self), id)
                    &&& final(self).model()[id].has_sink
                    &&& r matches WriteOutcome::Started(rid, parts) && rid == id
                        && parts@ == seq![StreamPart { content: PartContent::Headers(headers), last: false }]
                },
                WriteMessage::BodyChunk(id, chunk) => {
                    let before = old(self).model()[id];
                    let after = final(self).model()[id];
                    &&& final(self).next_stream_id == old(self).next_stream_id
                    &&& if before.outgoing_end || closed_local(before.state) {
                        &&& r == WriteOutcome::Refused(id)
                        &&& final(self).model() == old(self).model()
                    } else {
                        &&& final(self).model() == old(self).model().insert(id, after)
                        &&& r matches WriteOutcome::Parts(rid, parts) && rid == id
                            && is_flush_of(parts@, before.outgoing@.push(PartContent::Data(chunk)), before.outgoing_end, before.state)
                        &&& after.state == before.state
                        &&& after.outgoing@.len() == 0
                        &&& after.id == id
                        &&& after.outgoing_end == before.outgoing_end
                        &&& after.has_sink == before.has_sink
                    }
                },
                WriteMessage::End(id) => {
                    let before = old(self).model()[id];
                    let after = final(self).model()[id];
                    &&& final(self).next_stream_id == old(self).next_stream_id
                    &&& final(self).model() == old(self).model().insert(id, after)
                    &&& r matches WriteOutcome::Parts(rid, parts) && rid == id
                        && is_flush_of(parts@, before.outgoing@, true, before.state)
                    &&& after.state == flushed_state(true, before.state)
                    &&& after.outgoing@.len() == 0
                    &&& after.outgoing_end
                    &&& after.id == id
                    &&& after.has_sink == before.has_sink
                },
                WriteMessage::Common(bytes) => {
                    &&& *final(self) == *old(self)
                    &&& r == WriteOutcome::Raw(bytes)
                },
                WriteMessage::DumpState => {
                    &&& *final(self) == *old(self)
                    &&& r matches WriteOutcome::Snapshot(s) && s.streams@ == states_of(old(self).model())
                },
            },
    {
        match msg {
            WriteMessage::Start(headers) => {
                let (id, parts) = self.process_start(headers);
                WriteOutcome::Started(id, parts)
            },
            WriteMessage::BodyChunk(id, chunk) => {
                if self.push_body_chunk(id, chunk) {
                    WriteOutcome::Parts(id, self.send_outg_stream(id))
                } else {
                    WriteOutcome::Refused(id)
                }
            },
            WriteMessage::End(id) => {
                self.end_outgoing(id);
                WriteOutcome::Parts(id, self.send_outg_stream(id))
            },
            WriteMessage::Common(bytes) => WriteOutcome::Raw(bytes),
            WriteMessage::DumpState => WriteOutcome::Snapshot(self.dump_state()),
        }
    }
}

} // verus!
