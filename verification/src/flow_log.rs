//! Flow records read back from the log, kept in a bounded buffer.
//!
//! A record stands on one log line, behind a marker that tells it from everything else that is
//! logged. The buffer keeps the newest records and counts all of them.

use vstd::prelude::*;
use crate::flow::{AddressFamily, TransportProtocol};
use crate::logging::LOG_SUBSYSTEM;
use crate::text::chars_of;

verus! {

/// How many records to retain.
pub const CAPACITY: usize = 500;

/// What stands in front of a record on its log line.
pub const RECORD_MARKER: &'static str = "FLOW1 ";

/// What was done with a recorded flow.
#[derive(Debug, Clone, Copy, PartialEq, Eq, Structural)]
pub enum Verdict {
    Allow,
    Drop,
}

/// One flow as the log tells of it.
#[derive(Debug, PartialEq, Eq)]
pub struct FlowRecord {
    pub ts_ms: u64,
    pub family: AddressFamily,
    pub protocol: TransportProtocol,
    pub remote_host: Option<String>,
    pub remote_port: Option<u16>,
    pub hostname: Option<String>,
    pub url_host: Option<String>,
    pub source_app: Option<String>,
    pub verdict: Verdict,
}

impl Clone for FlowRecord {
    fn clone(&self) -> (res: Self)
        ensures
            res == *self,
    {
        FlowRecord {
            ts_ms: self.ts_ms,
            family: self.family,
            protocol: self.protocol,
            remote_host: self.remote_host.clone(),
            remote_port: self.remote_port,
            hostname: self.hostname.clone(),
            url_host: self.url_host.clone(),
            source_app: self.source_app.clone(),
            verdict: self.verdict,
        }
    }
}

/// Buffer of the flows observed last, plus a lifetime counter.
pub struct FlowBuffer {
    records: Vec<FlowRecord>,
    /// Total ever seen, not just those still buffered.
    total: usize,
}

/// The mathematical content of a [`FlowBuffer`].
#[verifier::ext_equal]
pub struct Buffered {
    /// Oldest first.
    pub records: Seq<FlowRecord>,
    pub total: usize,
}

impl View for FlowBuffer {
    type V = Buffered;

    closed spec fn view(&self) -> Buffered {
        Buffered { records: self.records@, total: self.total }
    }
}

impl Buffered {
    pub open spec fn empty() -> Buffered {
        Buffered { records: Seq::empty(), total: 0 }
    }

    /// The buffer never holds more than its capacity, nor more than it has seen.
    pub open spec fn wf(self) -> bool {
        &&& self.records.len() <= CAPACITY
        &&& self.records.len() <= self.total
    }

    /// A full buffer drops its oldest record to take a new one. The counter stops at its maximum.
    pub open spec fn pushed(self, record: FlowRecord) -> Buffered {
        Buffered {
            records: if self.records.len() == CAPACITY {
                self.records.drop_first().push(record)
            } else {
                self.records.push(record)
            },
            total: if self.total < usize::MAX {
                (self.total + 1) as usize
            } else {
                self.total
            },
        }
    }

    /// The newest `limit` records, newest first.
    pub open spec fn recent(self, limit: nat) -> Seq<FlowRecord> {
        let n = if limit < self.records.len() {
            limit
        } else {
            self.records.len()
        };
        Seq::new(n, |i: int| self.records[self.records.len() - 1 - i])
    }
}

impl Default for FlowBuffer {
    fn default() -> (buffer: Self)
        ensures
            buffer@ == Buffered::empty(),
            buffer@.wf(),
    {
        let buffer = FlowBuffer { records: Vec::new(), total: 0 };
        assert(buffer@.records =~= Seq::empty());
        buffer
    }
}

impl FlowBuffer {
    /// Take one more record, dropping the oldest when the buffer is full.
    pub fn push(&mut self, record: FlowRecord)
        ensures
            final(self)@ == old(self)@.pushed(record),
            old(self)@.wf() ==> final(self)@.wf(),
    {
        self.total = self.total.saturating_add(1);
        if self.records.len() == CAPACITY {
            let dropped = self.records.remove(0);
            assert(self.records@ =~= old(self).records@.drop_first());
        }
        self.records.push(record);
    }

    /// The most recent `limit` records, newest first.
    pub fn recent(&self, limit: usize) -> (newest: Vec<FlowRecord>)
        ensures
            newest@ == self@.recent(limit as nat),
    {
        let mut newest: Vec<FlowRecord> = Vec::new();
        let len: usize = self.records.len();
        let n: usize = if limit < len {
            limit
        } else {
            len
        };
        let mut i: usize = 0;
        while i < n
            invariant
                i <= n <= len,
                len == self.records@.len(),
                newest@.len() == i,
                forall|j: int| 0 <= j < i ==> newest@[j] == self.records@[len - 1 - j],
            decreases n - i,
        {
            newest.push(self.records[len - 1 - i].clone());
            i = i + 1;
        }
        assert(newest@ =~= self@.recent(limit as nat));
        newest
    }

    /// How many records were ever taken.
    pub fn total(&self) -> (total: usize)
        ensures
            total == self@.total,
    {
        self.total
    }

    /// Take what one log line decoded to: a line that holds no record changes nothing.
    pub fn take_line(&mut self, decoded: Option<FlowRecord>)
        ensures
            final(self)@ == match decoded {
                Some(record) => old(self)@.pushed(record),
                None => old(self)@,
            },
            old(self)@.wf() ==> final(self)@.wf(),
    {
        if let Some(record) = decoded {
            self.push(record);
        }
    }
}

/// The predicate that selects this project's own lines from the log.
pub fn stream_predicate() -> (predicate: String)
    ensures
        predicate@ == "subsystem == \""@ + LOG_SUBSYSTEM@ + "\""@,
{
    let mut predicate = "subsystem == \"".to_owned();
    predicate.append(LOG_SUBSYSTEM);
    predicate.append("\"");
    predicate
}

/// Why tailing the log could not start.
pub enum TailFailure {
    /// The program that streams the log did not start.
    NotStarted(String),
    /// It started without an output to read.
    NoOutput,
    /// The thread that reads its output did not start.
    NoReader(String),
}

/// What the text of a tail that could not start says.
pub open spec fn tail_error_spec(failure: TailFailure) -> Seq<char> {
    match failure {
        TailFailure::NotStarted(e) => "could not start `log stream`: "@ + e@,
        TailFailure::NoOutput => "log stream produced no stdout"@,
        TailFailure::NoReader(e) => "could not spawn the log-tail thread: "@ + e@,
    }
}

/// The error text of a tail that could not start.
pub fn tail_error(failure: TailFailure) -> (text: String)
    ensures
        text@ == tail_error_spec(failure),
{
    match failure {
        TailFailure::NotStarted(e) => {
            let mut text = "could not start `log stream`: ".to_owned();
            text.append(&e);
            text
        },
        TailFailure::NoOutput => "log stream produced no stdout".to_owned(),
        TailFailure::NoReader(e) => {
            let mut text = "could not spawn the log-tail thread: ".to_owned();
            text.append(&e);
            text
        },
    }
}

/// The marker starts at position `i` of `line`.
pub open spec fn marker_at(line: Seq<char>, i: int) -> bool {
    &&& 0 <= i
    &&& i + RECORD_MARKER@.len() <= line.len()
    &&& line.subrange(i, i + RECORD_MARKER@.len()) == RECORD_MARKER@
}

/// `payload` is what stands behind the first marker of `line`.
pub open spec fn is_payload(line: Seq<char>, payload: Seq<char>) -> bool {
    exists|i: int|
        {
            &&& #[trigger] marker_at(line, i)
            &&& forall|j: int| 0 <= j < i ==> !#[trigger] marker_at(line, j)
            &&& payload == line.skip(i + RECORD_MARKER@.len())
        }
}

/// The encoded record on a log line: what stands behind the first marker. `None` for a line
/// without one.
pub fn record_payload(line: &str) -> (payload: Option<&str>)
    ensures
        match payload {
            Some(text) => is_payload(line@, text@),
            None => forall|i: int| !#[trigger] marker_at(line@, i),
        },
{
    let chars = chars_of(line);
    let marker = chars_of(RECORD_MARKER);
    let len: usize = chars.len();
    let width: usize = marker.len();
    let mut i: usize = 0;
    while i < len && width <= len - i
        invariant
            i <= len,
            len == line@.len(),
            chars@ == line@,
            marker@ == RECORD_MARKER@,
            width == marker@.len(),
            forall|j: int| 0 <= j < i ==> !#[trigger] marker_at(line@, j),
        decreases len - i,
    {
        let mut k: usize = 0;
        while k < width && chars[i + k] == marker[k]
            invariant
                k <= width,
                i < len,
                width <= len - i,
                len == chars@.len(),
                width == marker@.len(),
                forall|j: int| 0 <= j < k ==> chars@[i + j] == marker@[j],
            decreases width - k,
        {
            k = k + 1;
        }
        if k == width {
            assert(line@.subrange(i as int, i + width) =~= RECORD_MARKER@);
            assert(marker_at(line@, i as int));
            let payload = line.substring_char(i + width, len);
            assert(payload@ =~= line@.skip(i + width));
            return Some(payload);
        }
        assert(line@.subrange(i as int, i + width)[k as int] != RECORD_MARKER@[k as int]);
        i = i + 1;
    }
    assert forall|j: int| !#[trigger] marker_at(line@, j) by {
        reveal_strlit("FLOW1 ");
    }
    None
}

} // verus!
