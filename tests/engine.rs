use h2client::connection::{ClientInner, ConnectionState};
use h2client::state::StreamState;
use h2client::stream::{Delivery, PartContent, Stream, StreamPart};
use h2client::write::{WriteMessage, WriteOutcome};

fn hdr(name: &str, value: &str) -> (Vec<u8>, Vec<u8>) {
    (name.as_bytes().to_vec(), value.as_bytes().to_vec())
}

fn start(c: &mut ClientInner, headers: Vec<(Vec<u8>, Vec<u8>)>) -> (u32, Vec<StreamPart>) {
    match c.process_message(WriteMessage::Start(headers)) {
        WriteOutcome::Started(id, parts) => (id, parts),
        _ => panic!("expected a started stream"),
    }
}

fn parts_of(o: WriteOutcome) -> (u32, Vec<StreamPart>) {
    match o {
        WriteOutcome::Parts(id, parts) => (id, parts),
        _ => panic!("expected parts"),
    }
}

fn is_data(p: &StreamPart, bytes: &[u8], last: bool) -> bool {
    match &p.content {
        PartContent::Data(d) => d.as_slice() == bytes && p.last == last,
        _ => false,
    }
}

fn snapshot(c: &mut ClientInner) -> ConnectionState {
    match c.process_message(WriteMessage::DumpState) {
        WriteOutcome::Snapshot(s) => s,
        _ => panic!("expected a snapshot"),
    }
}

#[test]
fn ids_are_odd_and_spaced_by_two() {
    let mut c = ClientInner::new();
    let ids: Vec<u32> = (0..4).map(|_| start(&mut c, vec![hdr(":method", "GET")]).0).collect();
    assert_eq!(ids, vec![1, 3, 5, 7]);
    assert_eq!(c.next_stream_id, 9);
}

#[test]
fn half_close_paths() {
    assert_eq!(StreamState::Open.close_local(), StreamState::HalfClosedLocal);
    assert_eq!(StreamState::HalfClosedLocal.close_remote(), StreamState::Closed);
    assert_eq!(StreamState::Open.close_remote(), StreamState::HalfClosedRemote);
    assert_eq!(StreamState::HalfClosedRemote.close_local(), StreamState::Closed);
    assert_eq!(StreamState::Closed.close_local(), StreamState::Closed);
    assert_eq!(StreamState::Closed.close_remote(), StreamState::Closed);
    assert_eq!(StreamState::HalfClosedLocal.close_local(), StreamState::HalfClosedLocal);
    assert!(StreamState::Closed.is_closed());
    assert!(StreamState::Closed.is_closed_local());
    assert!(StreamState::Closed.is_closed_remote());
    assert!(!StreamState::HalfClosedLocal.is_closed_remote());
    assert!(!StreamState::Open.is_closed());
}

#[test]
fn half_close_in_either_order_closes() {
    for s in [StreamState::Idle, StreamState::Open, StreamState::HalfClosedLocal, StreamState::HalfClosedRemote, StreamState::Closed] {
        assert_eq!(s.close_local().close_remote(), StreamState::Closed);
        assert_eq!(s.close_remote().close_local(), StreamState::Closed);
    }
}

#[test]
fn flush_sends_units_then_end_marker() {
    let mut s = Stream::new(1, vec![hdr(":method", "POST")], true);
    s.outgoing.push_back(PartContent::Data(b"d1".to_vec()));
    s.outgoing.push_back(PartContent::Data(b"d2".to_vec()));
    s.outgoing_end = true;
    let first = s.pop_outg().unwrap();
    assert!(matches!(first.content, PartContent::Headers(ref h) if h.len() == 1) && !first.last);
    assert_eq!(s.state, StreamState::Open);
    let rest = s.flush();
    assert_eq!(rest.len(), 3);
    assert!(is_data(&rest[0], b"d1", false));
    assert!(is_data(&rest[1], b"d2", false));
    assert!(is_data(&rest[2], b"", true));
    assert_eq!(s.state, StreamState::HalfClosedLocal);
    assert!(s.outgoing.is_empty());
    assert!(s.flush().is_empty());
}

#[test]
fn flush_of_whole_queue() {
    let mut s = Stream::new(1, vec![hdr(":method", "POST")], true);
    s.outgoing.push_back(PartContent::Data(b"d1".to_vec()));
    s.outgoing.push_back(PartContent::Data(b"d2".to_vec()));
    s.outgoing_end = true;
    let parts = s.flush();
    assert_eq!(parts.len(), 4);
    assert!(matches!(parts[0].content, PartContent::Headers(_)));
    assert!(is_data(&parts[3], b"", true));
    assert_eq!(s.state, StreamState::HalfClosedLocal);
}

#[test]
fn flush_without_end_keeps_state() {
    let mut s = Stream::new(5, Vec::new(), false);
    let parts = s.flush();
    assert_eq!(parts.len(), 1);
    assert_eq!(s.state, StreamState::Open);
}

#[test]
fn dump_state_reflects_inserted_streams() {
    let mut c = ClientInner::new();
    assert!(snapshot(&mut c).streams.is_empty());
    let (a, _) = start(&mut c, vec![hdr(":method", "GET")]);
    let (b, _) = start(&mut c, vec![hdr(":method", "GET")]);
    parts_of(c.process_message(WriteMessage::End(a)));
    let s = snapshot(&mut c);
    assert_eq!(s.streams.len(), 2);
    assert_eq!(s.streams.get(&a), Some(&StreamState::HalfClosedLocal));
    assert_eq!(s.streams.get(&b), Some(&StreamState::Open));
    assert_eq!(c.dump_state().streams, s.streams);
}

#[test]
fn post_request_round_trip() {
    let mut c = ClientInner::new();
    let (id, parts) = start(&mut c, vec![hdr(":method", "POST")]);
    assert_eq!(id, 1);
    assert_eq!(parts.len(), 1);
    match &parts[0].content {
        PartContent::Headers(h) => assert_eq!(h, &vec![hdr(":method", "POST")]),
        _ => panic!("expected headers"),
    }
    let (cid, chunk) = parts_of(c.process_message(WriteMessage::BodyChunk(1, b"abc".to_vec())));
    assert_eq!(cid, 1);
    assert_eq!(chunk.len(), 1);
    assert!(is_data(&chunk[0], b"abc", false));
    let (_, end) = parts_of(c.process_message(WriteMessage::End(1)));
    assert_eq!(end.len(), 1);
    assert!(is_data(&end[0], b"", true));

    let d = c.process_headers(1, vec![hdr(":status", "200")], false);
    assert_eq!(d.len(), 1);
    match &d[0] {
        Delivery::Part(StreamPart { content: PartContent::Headers(h), last: false }) => {
            assert_eq!(h, &vec![hdr(":status", "200")])
        }
        _ => panic!("expected headers"),
    }
    let d = c.process_data(1, b"resp".to_vec(), true);
    assert_eq!(d.len(), 2);
    match &d[0] {
        Delivery::Part(p) => assert!(is_data(p, b"resp", true)),
        _ => panic!("expected data"),
    }
    assert!(matches!(d[1], Delivery::Eof));
    assert_eq!(c.dump_state().streams.get(&1), Some(&StreamState::Closed));
    assert!(c.process_data(1, b"late".to_vec(), false).is_empty());
}

#[test]
fn headers_for_unknown_stream_are_discarded() {
    let mut c = ClientInner::new();
    start(&mut c, vec![hdr(":method", "GET")]);
    let before = c.dump_state().streams;
    let d = c.process_headers(99, vec![hdr(":status", "200")], true);
    assert!(d.is_empty());
    assert_eq!(c.dump_state().streams, before);
    assert!(c.process_data(99, b"x".to_vec(), true).is_empty());
    assert_eq!(c.dump_state().streams, before);
    assert!(!c.contains_stream(99));
}

#[test]
fn two_requests_get_ids_one_and_three() {
    let mut c = ClientInner::new();
    let (a, pa) = start(&mut c, vec![hdr(":method", "GET")]);
    let (b, pb) = start(&mut c, vec![hdr(":method", "GET")]);
    assert_eq!((a, b), (1, 3));
    let mut enc = hpack::Encoder::new();
    let mut wire: Vec<u8> = Vec::new();
    for (id, parts) in [(a, pa), (b, pb)] {
        for p in parts {
            let f = h2client::frame::encode_part(&mut enc, id, p).unwrap();
            wire.extend(f);
        }
    }
    let mut at = 0usize;
    let mut seen = Vec::new();
    while at < wire.len() {
        let len = ((wire[at] as usize) << 16) | ((wire[at + 1] as usize) << 8) | wire[at + 2] as usize;
        let sid = u32::from_be_bytes([wire[at + 5], wire[at + 6], wire[at + 7], wire[at + 8]]);
        assert_eq!(wire[at + 3], 0x1);
        seen.push(sid);
        at += 9 + len;
    }
    assert_eq!(at, wire.len());
    assert_eq!(seen, vec![1, 3]);
}

#[test]
fn empty_header_block_is_not_delivered() {
    let mut c = ClientInner::new();
    start(&mut c, vec![hdr(":method", "GET")]);
    assert!(c.process_headers(1, Vec::new(), false).is_empty());
    let d = c.process_headers(1, Vec::new(), true);
    assert_eq!(d.len(), 1);
    assert!(matches!(d[0], Delivery::Eof));
    assert_eq!(c.dump_state().streams.get(&1), Some(&StreamState::HalfClosedRemote));
}

#[test]
fn body_chunk_after_end_is_refused() {
    let mut c = ClientInner::new();
    let (id, _) = start(&mut c, vec![hdr(":method", "POST")]);
    parts_of(c.process_message(WriteMessage::End(id)));
    match c.process_message(WriteMessage::BodyChunk(id, b"x".to_vec())) {
        WriteOutcome::Refused(r) => assert_eq!(r, id),
        _ => panic!("expected a refusal"),
    }
    assert_eq!(c.dump_state().streams.get(&id), Some(&StreamState::HalfClosedLocal));
}

#[test]
fn common_bytes_pass_through() {
    let mut c = ClientInner::new();
    match c.process_message(WriteMessage::Common(vec![1, 2, 3])) {
        WriteOutcome::Raw(b) => assert_eq!(b, vec![1, 2, 3]),
        _ => panic!("expected raw bytes"),
    }
}

#[test]
fn remote_close_detaches_consumer_once() {
    let mut s = Stream::new(1, Vec::new(), true);
    assert!(matches!(s.close_remote(), Some(Delivery::Eof)));
    assert!(!s.has_sink);
    assert!(s.close_remote().is_none());
    assert!(s.new_data_chunk(b"x".to_vec(), false).is_none());
    assert_eq!(s.state, StreamState::HalfClosedRemote);
}

#[test]
fn table_lookup() {
    let mut c = ClientInner::new();
    assert!(c.has_id_space());
    let id = c.insert_stream(Stream::new(77, Vec::new(), false));
    assert_eq!(id, 1);
    assert_eq!(c.get_stream(1).unwrap().id, 1);
    assert!(c.get_stream(3).is_none());
    assert_eq!(c.find(1), Some(0));
    c.next_stream_id = u32::MAX - 2;
    assert!(c.has_id_space());
    c.next_stream_id = u32::MAX;
    assert!(!c.has_id_space());
}
