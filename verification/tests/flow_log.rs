use content_filter::flow::{AddressFamily, TransportProtocol};
use content_filter::flow_log::{
    record_payload, stream_predicate, tail_error, FlowBuffer, FlowRecord, TailFailure, Verdict,
    CAPACITY,
};

fn rec(port: u16) -> FlowRecord {
    FlowRecord {
        ts_ms: 0,
        family: AddressFamily::V4,
        protocol: TransportProtocol::Tcp,
        remote_host: Some("192.0.2.1".into()),
        remote_port: Some(port),
        hostname: None,
        url_host: None,
        source_app: None,
        verdict: Verdict::Allow,
    }
}

#[test]
fn recent_returns_newest_first() {
    let mut b = FlowBuffer::default();
    b.push(rec(1));
    b.push(rec(2));
    b.push(rec(3));
    let got: Vec<_> = b.recent(2).iter().map(|r| r.remote_port.unwrap()).collect();
    assert_eq!(got, vec![3, 2]);
}

#[test]
fn buffer_is_bounded_but_the_total_keeps_counting() {
    let mut b = FlowBuffer::default();
    for i in 0..(CAPACITY + 50) {
        b.push(rec(i as u16));
    }
    assert_eq!(b.recent(usize::MAX).len(), CAPACITY, "ring must not grow past capacity");
    assert_eq!(b.total(), CAPACITY + 50, "total counts everything ever seen");
}

#[test]
fn oldest_records_are_the_ones_dropped() {
    let mut b = FlowBuffer::default();
    for i in 0..(CAPACITY + 1) {
        b.push(rec(i as u16));
    }
    let oldest_kept = b.recent(usize::MAX).last().unwrap().remote_port.unwrap();
    assert_eq!(oldest_kept, 1, "record 0 should have been evicted");
}

#[test]
fn recent_handles_a_limit_larger_than_the_buffer() {
    let mut b = FlowBuffer::default();
    b.push(rec(7));
    assert_eq!(b.recent(100).len(), 1);
}

#[test]
fn a_line_without_a_record_changes_nothing() {
    let mut b = FlowBuffer::default();
    b.take_line(None);
    assert_eq!(b.total(), 0);
    b.take_line(Some(rec(9)));
    b.take_line(None);
    assert_eq!(b.total(), 1);
    assert_eq!(b.recent(5), vec![rec(9)]);
    assert_eq!(b.recent(0), vec![]);
}

#[test]
fn a_record_is_what_stands_behind_the_first_marker() {
    let line = "2025-01-01 12:00:00 Df content-filter[99] FLOW1 {\"ts_ms\":0}";
    assert_eq!(record_payload(line), Some("{\"ts_ms\":0}"));
    assert_eq!(record_payload("FLOW1 a FLOW1 b"), Some("a FLOW1 b"));
    assert_eq!(record_payload("\u{e9}\u{e9}FLOW1 x"), Some("x"));
    assert_eq!(record_payload("FLOWFLOW1 x"), Some("x"));
    assert_eq!(record_payload("FLOW1 "), Some(""));
    assert_eq!(record_payload("FLOW1"), None);
    assert_eq!(record_payload("FLOW2 {}"), None);
    assert_eq!(record_payload(""), None);
}

#[test]
fn the_predicate_selects_the_subsystem() {
    assert_eq!(stream_predicate(), "subsystem == \"com.digiexam.macos.NetworkExtensions\"");
}

#[test]
fn a_tail_that_cannot_start_says_why() {
    assert_eq!(
        tail_error(TailFailure::NotStarted("no such file".into())),
        "could not start `log stream`: no such file"
    );
    assert_eq!(tail_error(TailFailure::NoOutput), "log stream produced no stdout");
    assert_eq!(
        tail_error(TailFailure::NoReader("limit".into())),
        "could not spawn the log-tail thread: limit"
    );
}
