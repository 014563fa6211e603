use vstd::prelude::*;
use crate::connection::{ClientInner, StreamId, lemma_model_at, lemma_model_update};
use crate::state::after_close_remote;
use crate::stream::{Delivery, Header, PartContent, Stream, StreamPart};

verus! {

/// What an inbound unit hands to the consumer, before any end-of-stream
/// marker: the unit itself where it is offered and a consumer is attached.
pub open spec fn unit_delivery(before: Stream, content: PartContent, offered: bool, end_of_stream: bool) -> Seq<Delivery> {
    if offered && before.has_sink {
        seq![Delivery::Part(StreamPart { content, last: end_of_stream })]
    } else {
        Seq::empty()
    }
}

/// The effect of an inbound unit on a tracked stream: the unit goes to
/// the consumer, and where it ends the stream, the remote side closes and
/// the consumer gets the end-of-stream marker and is detached.
pub open spec fn inbound_effect(
    r: Seq<Delivery>,
    before: Stream,
    after: Stream,
    content: PartContent,
    offered: bool,
    end_of_stream: bool,
) -> bool {
    let unit = unit_delivery(before, content, offered, end_of_stream);
    &&& after.id == before.id
    &&& after.outgoing@ == before.outgoing@
    &&& after.outgoing_end == before.outgoing_end
    &&& if end_of_stream {
        &&& after.state == after_close_remote(before.state)
        &&& !after.has_sink
        &&& r == if before.has_sink { unit.push(Delivery::Eof) } else { unit }
    } else {
        &&& after.state == before.state
        &&& after.has_sink == before.has_sink
        &&& r == unit
    }
}

impl ClientInner {
    /// Handles an inbound unit for stream `id`. A stream that the table
    /// does not hold is ignored.
    fn receive(&mut self, id: StreamId, content: PartContent, offered: bool, end_of_stream: bool) -> (r: Vec<Delivery>)
        requires
            old(self).wf(),
        ensures
            final(self).wf(),
            final(self).next_stream_id == old(self).next_stream_id,
            !old(self).model().contains_key(id) ==> final(self).model() == old(self).model() && r@.len() == 0,
            old(self).model().contains_key(id) ==> {
                &&& final(self).model() == old(self).model().insert(id, final(self).model()[id])
                &&& inbound_effect(r@, old(self).model()[id], final(self).model()[id], content, offered, end_of_stream)
            },
    {
        let mut out: Vec<Delivery> = Vec::new();
        let i = match self.find(id) {
            Some(i) => i,
            None => {
                return out;
            },
        };
        if offered && self.streams[i].has_sink {
            out.push(Delivery::Part(StreamPart { content, last: end_of_stream }));
        }
        if end_of_stream {
            match self.streams[i].close_remote() {
                Some(d) => {
                    out.push(d);
                },
                None => {},
            }
        }
        proof {
            lemma_model_update(old(self).streams@, i as int, self.streams@[i as int]);
            assert(self.streams@ == old(self).streams@.update(i as int, self.streams@[i as int]));
            lemma_model_at(self.streams@, i as int);
            let before = old(self).model()[id];
            let unit = unit_delivery(before, content, offered, end_of_stream);
            if end_of_stream && before.has_sink {
                assert(out@ =~= unit.push(Delivery::Eof));
            } else {
                assert(out@ =~= unit);
            }
        }
        out
    }

    /// Handles a decoded inbound header block for stream `id`: a non-empty
    /// list goes to the consumer, tagged with whether it ends the stream.
    /// A block for a stream that the table does not hold is discarded and
    /// nothing changes.
    pub fn process_headers(&mut self, id: StreamId, headers: Vec<Header>, end_of_stream: bool) -> (r: Vec<Delivery>)
        requires
            old(self).wf(),
        ensures
            final(self).wf(),
            final(self).next_stream_id == old(self).next_stream_id,
            !old(self).model().contains_key(id) ==> final(self).model() == old(self).model() && r@.len() == 0,
            old(self).model().contains_key(id) ==> {
                &&& final(self).model() == old(self).model().insert(id, final(self).model()[id])
                &&& inbound_effect(
                    r@,
                    old(self).model()[id],
                    final(self).model()[id],
                    PartContent::Headers(headers),
                    headers@.len() > 0,
                    end_of_stream,
                )
            },
    {
        let offered = headers.len() > 0;
        self.receive(id, PartContent::Headers(headers), offered, end_of_stream)
    }

    /// Handles an inbound data unit for stream `id`: it goes to the
    /// consumer, tagged with whether it ends the stream. Data for a stream
    /// that the table does not hold is discarded and nothing changes.
    pub fn process_data(&mut self, id: StreamId, data: Vec<u8>, end_of_stream: bool) -> (r: Vec<Delivery>)
        requires
            old(self).wf(),
        ensures
            final(self).wf(),
            final(self).next_stream_id == old(self).next_stream_id,
            !old(self).model().contains_key(id) ==> final(self).model() == old(self).model() && r@.len() == 0,
            old(self).model().contains_key(id) ==> {
                &&& final(self).model() == old(self).model().insert(id, final(self).model()[id])
                &&& inbound_effect(
                    r@,
                    old(self).model()[id],
                    final(self).model()[id],
                    PartContent::Data(data),
                    true,
                    end_of_stream,
                )
            },
    {
        self.receive(id, PartContent::Data(data), true, end_of_stream)
    }
}

} // verus!
