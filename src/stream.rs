use vstd::prelude::*;
use std::collections::VecDeque;
use crate::state::{StreamState, after_close_local, after_close_remote, closed_local};

verus! {

/// A header as a (name, value) pair of byte strings.
pub type Header = (Vec<u8>, Vec<u8>);

/// One unit of content travelling in either direction on a stream.
pub enum PartContent {
    Headers(Vec<Header>),
    Data(Vec<u8>),
}

/// A content unit and whether it is the last one of its direction.
pub struct StreamPart {
    pub content: PartContent,
    pub last: bool,
}

/// What is handed to a request's response consumer.
pub enum Delivery {
    Part(StreamPart),
    Eof,
}

/// The marker that ends the outbound direction: an empty final data unit.
pub open spec fn is_end_marker(p: StreamPart) -> bool {
    &&& p.last
    &&& p.content matches PartContent::Data(d)
    &&& d@.len() == 0
}

/// A queued unit as it is sent: never the last one, since the end of the
/// direction is marked by a frame of its own.
pub open spec fn unit_part(u: PartContent) -> StreamPart {
    StreamPart { content: u, last: false }
}

/// Whether `parts` is what flushing sends for the given outbound queue and
/// flags: each queued unit in order, then the end marker where the output
/// has ended and has not been closed already.
pub open spec fn is_flush_of(parts: Seq<StreamPart>, units: Seq<PartContent>, end: bool, state: StreamState) -> bool {
    let body = units.map_values(|u: PartContent| unit_part(u));
    if end && !closed_local(state) {
        &&& parts.len() == units.len() + 1
        &&& parts.take(units.len() as int) == body
        &&& is_end_marker(parts.last())
    } else {
        parts == body
    }
}

/// The state after flushing.
pub open spec fn flushed_state(end: bool, state: StreamState) -> StreamState {
    if end && !closed_local(state) {
        after_close_local(state)
    } else {
        state
    }
}

/// One logical request/response exchange.
pub struct Stream {
    pub id: u32,
    pub state: StreamState,
    /// Outbound units not yet sent, in sending order.
    pub outgoing: VecDeque<PartContent>,
    /// Set once no further outbound content will be queued.
    pub outgoing_end: bool,
    /// Whether a response consumer is attached.
    pub has_sink: bool,
}

impl Stream {
    /// A stream whose initiating header block is queued: it is `Open`.
    pub fn new(id: u32, headers: Vec<Header>, has_sink: bool) -> (r: Stream)
        ensures
            r.id == id,
            r.state == StreamState::Open,
            r.outgoing@ == seq![PartContent::Headers(headers)],
            !r.outgoing_end,
            r.has_sink == has_sink,
    {
        let mut outgoing: VecDeque<PartContent> = VecDeque::new();
        outgoing.push_back(PartContent::Headers(headers));
        Stream { id, state: StreamState::Open, outgoing, outgoing_end: false, has_sink }
    }

    pub fn is_closed(&self) -> (r: bool)
        ensures
            r == (self.state == StreamState::Closed),
    {
        self.state.is_closed()
    }

    pub fn is_closed_local(&self) -> (r: bool)
        ensures
            r == closed_local(self.state),
    {
        self.state.is_closed_local()
    }

    pub fn is_closed_remote(&self) -> (r: bool)
        ensures
            r == crate::state::closed_remote(self.state),
    {
        self.state.is_closed_remote()
    }

    /// The local half-close transition.
    pub fn close_local(&mut self)
        ensures
            final(self).state == after_close_local(old(self).state),
            final(self).id == old(self).id,
            final(self).outgoing@ == old(self).outgoing@,
            final(self).outgoing_end == old(self).outgoing_end,
            final(self).has_sink == old(self).has_sink,
    {
        self.state = self.state.close_local();
    }

    /// The remote half-close transition. An attached consumer is handed the
    /// end-of-stream marker and detached.
    pub fn close_remote(&mut self) -> (r: Option<Delivery>)
        ensures
            final(self).state == after_close_remote(old(self).state),
            !final(self).has_sink,
            r matches Some(Delivery::Eof) <==> old(self).has_sink,
            r is None <==> !old(self).has_sink,
            final(self).id == old(self).id,
            final(self).outgoing@ == old(self).outgoing@,
            final(self).outgoing_end == old(self).outgoing_end,
    {
        self.state = self.state.close_remote();
        if self.has_sink {
            self.has_sink = false;
            Some(Delivery::Eof)
        } else {
            None
        }
    }

    /// An inbound data unit for the consumer, if one is attached.
    pub fn new_data_chunk(&self, data: Vec<u8>, last: bool) -> (r: Option<Delivery>)
        ensures
            self.has_sink ==> r == Some(Delivery::Part(StreamPart { content: PartContent::Data(data), last })),
            !self.has_sink ==> r is None,
    {
        if self.has_sink {
            Some(Delivery::Part(StreamPart { content: PartContent::Data(data), last }))
        } else {
            None
        }
    }

    /// Takes the next outbound part: the first queued unit, or, once the
    /// queue is empty and the output has ended, the end marker together
    /// with the local half-close.
    pub fn pop_outg(&mut self) -> (r: Option<StreamPart>)
        ensures
            final(self).id == old(self).id,
            final(self).has_sink == old(self).has_sink,
            final(self).outgoing_end == old(self).outgoing_end,
            old(self).outgoing@.len() > 0 ==> {
                &&& r == Some(unit_part(old(self).outgoing@[0]))
                &&& final(self).outgoing@ == old(self).outgoing@.drop_first()
                &&& final(self).state == old(self).state
            },
            old(self).outgoing@.len() == 0 ==> {
                &&& final(self).outgoing@.len() == 0
                &&& final(self).state == flushed_state(old(self).outgoing_end, old(self).state)
                &&& (r is Some <==> old(self).outgoing_end && !closed_local(old(self).state))
                &&& (r matches Some(p) ==> is_end_marker(p))
            },
    {
        match self.outgoing.pop_front() {
            Some(u) => Some(StreamPart { content: u, last: false }),
            None => {
                if self.outgoing_end && !self.state.is_closed_local() {
                    self.close_local();
                    Some(StreamPart { content: PartContent::Data(Vec::new()), last: true })
                } else {
                    None
                }
            },
        }
    }

    /// Sends everything that can be sent now: each queued unit in order,
    /// then, where the output has ended, the end marker, after which the
    /// local half-close has happened.
    pub fn flush(&mut self) -> (r: Vec<StreamPart>)
        ensures
            is_flush_of(r@, old(self).outgoing@, old(self).outgoing_end, old(self).state),
            final(self).state == flushed_state(old(self).outgoing_end, old(self).state),
            final(self).outgoing@.len() == 0,
            final(self).id == old(self).id,
            final(self).has_sink == old(self).has_sink,
            final(self).outgoing_end == old(self).outgoing_end,
    {
        let ghost units = self.outgoing@;
        let ghost body = units.map_values(|u: PartContent| unit_part(u));
        let mut out: Vec<StreamPart> = Vec::new();
        let n = self.outgoing.len();
        let mut k: usize = 0;
        while k < n
            invariant
                n == units.len(),
                units == old(self).outgoing@,
                body == units.map_values(|u: PartContent| unit_part(u)),
                0 <= k <= n,
                self.outgoing@ == units.subrange(k as int, n as int),
                out@ == body.take(k as int),
                self.state == old(self).state,
                self.id == old(self).id,
                self.has_sink == old(self).has_sink,
                self.outgoing_end == old(self).outgoing_end,
            decreases n - k,
        {
            assert(self.outgoing@[0] == units[k as int]);
            let p = self.pop_outg();
            match p {
                Some(p) => {
                    out.push(p);
                },
                None => {},
            }
            assert(self.outgoing@ =~= units.subrange(k + 1, n as int));
            assert(body[k as int] == unit_part(units[k as int]));
            assert(out@ =~= body.take(k + 1));
            k = k + 1;
        }
        assert(out@ =~= body);
        let last = self.pop_outg();
        match last {
            Some(p) => {
                out.push(p);
            },
            None => {},
        }
        assert(out@.take(n as int) =~= body);
        out
    }
}

} // verus!
