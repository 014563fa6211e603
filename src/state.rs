use vstd::prelude::*;

verus! {

/// Lifecycle of one logical stream.
#[derive(Clone, Copy, Debug, PartialEq, Eq, Structural)]
pub enum StreamState {
    Idle,
    Open,
    HalfClosedLocal,
    HalfClosedRemote,
    Closed,
}

/// The state after this side has sent its last frame.
pub open spec fn after_close_local(s: StreamState) -> StreamState {
    match s {
        StreamState::HalfClosedRemote | StreamState::Closed => StreamState::Closed,
        _ => StreamState::HalfClosedLocal,
    }
}

/// The state after the peer has sent its last frame.
pub open spec fn after_close_remote(s: StreamState) -> StreamState {
    match s {
        StreamState::HalfClosedLocal | StreamState::Closed => StreamState::Closed,
        _ => StreamState::HalfClosedRemote,
    }
}

pub open spec fn closed_local(s: StreamState) -> bool {
    s == StreamState::HalfClosedLocal || s == StreamState::Closed
}

pub open spec fn closed_remote(s: StreamState) -> bool {
    s == StreamState::HalfClosedRemote || s == StreamState::Closed
}

/// The state reached from `s` by a sequence of half-close events, where
/// `true` stands for a local half-close and `false` for a remote one.
pub open spec fn apply_events(s: StreamState, events: Seq<bool>) -> StreamState
    decreases events.len(),
{
    if events.len() == 0 {
        s
    } else {
        let t = if events[0] {
            after_close_local(s)
        } else {
            after_close_remote(s)
        };
        apply_events(t, events.drop_first())
    }
}

impl StreamState {
    pub fn close_local(self) -> (r: StreamState)
        ensures
            r == after_close_local(self),
    {
        match self {
            StreamState::HalfClosedRemote | StreamState::Closed => StreamState::Closed,
            _ => StreamState::HalfClosedLocal,
        }
    }

    pub fn close_remote(self) -> (r: StreamState)
        ensures
            r == after_close_remote(self),
    {
        match self {
            StreamState::HalfClosedLocal | StreamState::Closed => StreamState::Closed,
            _ => StreamState::HalfClosedRemote,
        }
    }

    pub fn is_closed(self) -> (r: bool)
        ensures
            r == (self == StreamState::Closed),
    {
        match self {
            StreamState::Closed => true,
            _ => false,
        }
    }

    pub fn is_closed_local(self) -> (r: bool)
        ensures
            r == closed_local(self),
    {
        match self {
            StreamState::HalfClosedLocal | StreamState::Closed => true,
            _ => false,
        }
    }

    pub fn is_closed_remote(self) -> (r: bool)
        ensures
            r == closed_remote(self),
    {
        match self {
            StreamState::HalfClosedRemote | StreamState::Closed => true,
            _ => false,
        }
    }
}

/// Half-closing both directions, in either order, ends in `Closed`, and
/// once `Closed` no half-close changes the state.
pub proof fn lemma_half_close_commutes(s: StreamState)
    ensures
        after_close_remote(after_close_local(s)) == StreamState::Closed,
        after_close_local(after_close_remote(s)) == StreamState::Closed,
        after_close_remote(after_close_local(s)) == after_close_local(after_close_remote(s)),
        after_close_local(StreamState::Closed) == StreamState::Closed,
        after_close_remote(StreamState::Closed) == StreamState::Closed,
{
}

/// From `Open`, any sequence of half-close events follows one of the two
/// paths Open -> HalfClosedLocal -> Closed or Open -> HalfClosedRemote ->
/// Closed: the state is determined by which directions have been closed,
/// so it is `Open` until the first event, `Closed` once both directions
/// have been closed, and never goes back.
pub proof fn lemma_reachable_paths(events: Seq<bool>)
    ensures
        ({
            let r = apply_events(StreamState::Open, events);
            let has_local = exists|i: int| 0 <= i < events.len() && events[i];
            let has_remote = exists|i: int| 0 <= i < events.len() && !events[i];
            &&& r != StreamState::Idle
            &&& (r == StreamState::Open <==> events.len() == 0)
            &&& (r == StreamState::HalfClosedLocal <==> has_local && !has_remote)
            &&& (r == StreamState::HalfClosedRemote <==> has_remote && !has_local)
            &&& (r == StreamState::Closed <==> has_local && has_remote)
        }),
{
    lemma_events_from(StreamState::Open, events);
}

proof fn lemma_events_from(s: StreamState, events: Seq<bool>)
    requires
        s != StreamState::Idle,
    ensures
        ({
            let r = apply_events(s, events);
            let has_local = exists|i: int| 0 <= i < events.len() && events[i];
            let has_remote = exists|i: int| 0 <= i < events.len() && !events[i];
            &&& r != StreamState::Idle
            &&& (r == StreamState::Open <==> s == StreamState::Open && events.len() == 0)
            &&& (closed_local(r) <==> closed_local(s) || has_local)
            &&& (closed_remote(r) <==> closed_remote(s) || has_remote)
        }),
    decreases events.len(),
{
    if events.len() > 0 {
        let t = if events[0] {
            after_close_local(s)
        } else {
            after_close_remote(s)
        };
        let rest = events.drop_first();
        lemma_events_from(t, rest);
        let has_local = exists|i: int| 0 <= i < events.len() && events[i];
        let has_remote = exists|i: int| 0 <= i < events.len() && !events[i];
        let rest_local = exists|i: int| 0 <= i < rest.len() && rest[i];
        let rest_remote = exists|i: int| 0 <= i < rest.len() && !rest[i];
        if rest_local {
            let i = choose|i: int| 0 <= i < rest.len() && rest[i];
            assert(events[i + 1]);
        }
        if rest_remote {
            let i = choose|i: int| 0 <= i < rest.len() && !rest[i];
            assert(!events[i + 1]);
        }
        if has_local && !events[0] {
            let i = choose|i: int| 0 <= i < events.len() && events[i];
            assert(rest[i - 1]);
        }
        if has_remote && events[0] {
            let i = choose|i: int| 0 <= i < events.len() && !events[i];
            assert(!rest[i - 1]);
        }
    }
}

} // verus!
