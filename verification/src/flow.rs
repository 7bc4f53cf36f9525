//! Turning what is observed of a flow into a [`FlowInfo`], and that into a readable log line.
//!
//! A [`FlowInfo`] is the input to [`crate::rules::RuleSet::decide`]. Almost all of its fields are
//! optional: the framework may not know the remote endpoint yet when a flow is first seen, and only
//! some networking stacks hand over a name.

use vstd::prelude::*;
use crate::attribution::{identify, pid_for, AppId, AppName, FlowSource, PathLookup};
use crate::rules::Action;
use crate::text::{chars_of, push_decimal, push_padded, push_signed_decimal, same_text};

verus! {

/// IP address family.
#[derive(Debug, Clone, Copy, PartialEq, Eq, Structural)]
pub enum AddressFamily {
    V4,
    V6,
    /// Anything else, carrying the raw value so that an unexpected family is visible in the log.
    Other(i32),
}

impl AddressFamily {
    pub const AF_INET: i32 = 2;

    pub const AF_INET6: i32 = 30;

    pub open spec fn from_raw_spec(v: int) -> Self {
        if v == Self::AF_INET {
            AddressFamily::V4
        } else if v == Self::AF_INET6 {
            AddressFamily::V6
        } else {
            AddressFamily::Other(v as i32)
        }
    }

    pub open spec fn label_spec(self) -> Seq<char> {
        match self {
            AddressFamily::V4 => "IPv4"@,
            AddressFamily::V6 => "IPv6"@,
            AddressFamily::Other(v) => "AF("@ + crate::text::signed_decimal(v as int) + ")"@,
        }
    }

    /// The family that a raw socket family number stands for.
    pub fn from_raw(v: i32) -> (family: Self)
        ensures
            family == Self::from_raw_spec(v as int),
    {
        if v == Self::AF_INET {
            AddressFamily::V4
        } else if v == Self::AF_INET6 {
            AddressFamily::V6
        } else {
            AddressFamily::Other(v)
        }
    }

    /// `IPv4`, `IPv6`, or `AF(n)` for any other family.
    pub fn label(&self) -> (label: String)
        ensures
            label@ == self.label_spec(),
    {
        match self {
            AddressFamily::V4 => "IPv4".to_owned(),
            AddressFamily::V6 => "IPv6".to_owned(),
            AddressFamily::Other(v) => {
                let mut label = "AF(".to_owned();
                push_signed_decimal(&mut label, *v as i64);
                label.append(")");
                label
            },
        }
    }
}

/// Transport protocol.
#[derive(Debug, Clone, Copy, PartialEq, Eq, Structural)]
pub enum TransportProtocol {
    Tcp,
    Udp,
    Other(i32),
}

impl TransportProtocol {
    pub const IPPROTO_TCP: i32 = 6;

    pub const IPPROTO_UDP: i32 = 17;

    pub open spec fn from_raw_spec(v: int) -> Self {
        if v == Self::IPPROTO_TCP {
            TransportProtocol::Tcp
        } else if v == Self::IPPROTO_UDP {
            TransportProtocol::Udp
        } else {
            TransportProtocol::Other(v as i32)
        }
    }

    pub open spec fn label_spec(self) -> Seq<char> {
        match self {
            TransportProtocol::Tcp => "TCP"@,
            TransportProtocol::Udp => "UDP"@,
            TransportProtocol::Other(v) => "proto("@ + crate::text::signed_decimal(v as int)
                + ")"@,
        }
    }

    /// The protocol that a raw protocol number stands for.
    pub fn from_raw(v: i32) -> (protocol: Self)
        ensures
            protocol == Self::from_raw_spec(v as int),
    {
        if v == Self::IPPROTO_TCP {
            TransportProtocol::Tcp
        } else if v == Self::IPPROTO_UDP {
            TransportProtocol::Udp
        } else {
            TransportProtocol::Other(v)
        }
    }

    /// `TCP`, `UDP`, or `proto(n)` for any other protocol.
    pub fn label(&self) -> (label: String)
        ensures
            label@ == self.label_spec(),
    {
        match self {
            TransportProtocol::Tcp => "TCP".to_owned(),
            TransportProtocol::Udp => "UDP".to_owned(),
            TransportProtocol::Other(v) => {
                let mut label = "proto(".to_owned();
                push_signed_decimal(&mut label, *v as i64);
                label.append(")");
                label
            },
        }
    }
}

/// One network flow, as observed when it was opened.
#[derive(Debug, PartialEq, Eq)]
pub struct FlowInfo {
    /// Milliseconds since the Unix epoch, taken when the flow was observed.
    pub ts_ms: u64,
    pub family: AddressFamily,
    pub protocol: TransportProtocol,
    /// Remote hostname or IP literal. `None` is normal: the endpoint may not be known yet.
    pub remote_host: Option<String>,
    /// Remote port. `None` for the same reason as `remote_host`.
    pub remote_port: Option<u16>,
    /// A real hostname, which only some networking stacks hand over.
    pub hostname: Option<String>,
    /// The host of the request URL, for flows that carry one.
    pub url_host: Option<String>,
    /// The app that opened this flow; `None` when it could not be named.
    pub app: Option<AppId>,
    /// Process id of the originating process, for the log only.
    pub pid: Option<i32>,
}

/// The width of the endpoint column of a flow whose endpoint is not known yet: that of an IPv4
/// address with its port and a short host name, so that the columns behind it line up.
pub const PENDING_WIDTH: usize = 34;

/// The mathematical content of a [`FlowInfo`].
#[verifier::ext_equal]
pub struct Flow {
    pub ts_ms: u64,
    pub family: AddressFamily,
    pub protocol: TransportProtocol,
    pub remote_host: Option<Seq<char>>,
    pub remote_port: Option<u16>,
    pub hostname: Option<Seq<char>>,
    pub url_host: Option<Seq<char>>,
    pub app: Option<AppName>,
    pub pid: Option<i32>,
}

impl View for FlowInfo {
    type V = Flow;

    open spec fn view(&self) -> Flow {
        Flow {
            ts_ms: self.ts_ms,
            family: self.family,
            protocol: self.protocol,
            remote_host: crate::text::opt_text(self.remote_host),
            remote_port: self.remote_port,
            hostname: crate::text::opt_text(self.hostname),
            url_host: crate::text::opt_text(self.url_host),
            app: match self.app {
                Some(app) => Some(app@),
                None => None,
            },
            pid: self.pid,
        }
    }
}

impl Flow {
    /// The best name for the destination: the URL's host, else the hostname, else the address.
    pub open spec fn best_destination(self) -> Option<Seq<char>> {
        match (self.url_host, self.hostname) {
            (Some(host), _) => Some(host),
            (None, Some(host)) => Some(host),
            (None, None) => self.remote_host,
        }
    }

    /// The endpoint column: `host:port`, followed by the best name where it differs. While the
    /// endpoint is not known the column says so, and is filled up to [`PENDING_WIDTH`].
    pub open spec fn endpoint(self) -> Seq<char> {
        match (self.remote_host, self.remote_port) {
            (Some(host), Some(port)) => {
                let address = host + ":"@ + crate::text::decimal(port as nat);
                match self.best_destination() {
                    Some(dest) => if dest != host {
                        address + " host="@ + dest
                    } else {
                        address
                    },
                    None => address,
                }
            },
            _ => crate::text::pad_right_spec("(endpoint not yet known)"@, PENDING_WIDTH as nat),
        }
    }

    /// The `app=` column.
    pub open spec fn app_label(self) -> Seq<char> {
        match self.app {
            Some(app) => app.log_label(),
            None => "<none>"@,
        }
    }

    /// The `pid=` column.
    pub open spec fn pid_label(self) -> Seq<char> {
        match self.pid {
            Some(pid) => crate::text::signed_decimal(pid as int),
            None => "-"@,
        }
    }

    /// The whole log line, in fixed column order.
    pub open spec fn log_line(self, action: Action) -> Seq<char> {
        crate::text::pad_right_spec(action.label_spec(), 5) + " "@ + crate::text::pad_right_spec(
            self.protocol.label_spec(),
            4,
        ) + " "@ + crate::text::pad_right_spec(self.family.label_spec(), 4) + " "@
            + self.endpoint() + "  app="@ + self.app_label() + " pid="@ + self.pid_label()
    }
}

impl Clone for FlowInfo {
    fn clone(&self) -> (res: Self)
        ensures
            res@ == self@,
    {
        FlowInfo {
            ts_ms: self.ts_ms,
            family: self.family,
            protocol: self.protocol,
            remote_host: self.remote_host.clone(),
            remote_port: self.remote_port,
            hostname: self.hostname.clone(),
            url_host: self.url_host.clone(),
            app: self.app.clone(),
            pid: self.pid,
        }
    }
}

impl FlowInfo {
    /// The best available name for the destination, preferring real hostnames over IP literals.
    /// This is what host rules compare against.
    pub fn best_destination(&self) -> (dest: Option<&str>)
        ensures
            match dest {
                Some(name) => self@.best_destination() == Some(name@),
                None => self@.best_destination() is None,
            },
    {
        match (&self.url_host, &self.hostname, &self.remote_host) {
            (Some(host), _, _) => Some(host.as_str()),
            (None, Some(host), _) => Some(host.as_str()),
            (None, None, Some(host)) => Some(host.as_str()),
            (None, None, None) => None,
        }
    }

    /// One human-readable line, in fixed column order:
    ///
    /// ```text
    /// allow TCP  IPv4 93.184.216.34:443 host=example.com  app=com.example.App(id) pid=3312
    /// drop  TCP  IPv4 93.184.216.34:443 host=example.com  app=/usr/bin/curl(path) pid=4711
    /// drop  UDP  IPv6 (endpoint not yet known)            app=<none> pid=-
    /// ```
    pub fn log_line(&self, action: Action) -> (line: String)
        ensures
            line@ == self@.log_line(action),
    {
        let mut line = String::new();
        push_padded(&mut line, action.label(), 5);
        line.append(" ");
        let protocol = self.protocol.label();
        push_padded(&mut line, &protocol, 4);
        line.append(" ");
        let family = self.family.label();
        push_padded(&mut line, &family, 4);
        line.append(" ");
        let endpoint = self.endpoint();
        line.append(&endpoint);
        line.append("  app=");
        let app = self.app_label();
        line.append(&app);
        line.append(" pid=");
        match self.pid {
            Some(pid) => push_signed_decimal(&mut line, pid as i64),
            None => line.append("-"),
        }
        assert(line@ =~= self@.log_line(action));
        line
    }

    /// The endpoint column of the log line.
    fn endpoint(&self) -> (column: String)
        ensures
            column@ == self@.endpoint(),
    {
        match (&self.remote_host, self.remote_port) {
            (Some(host), Some(port)) => {
                let mut column = host.clone();
                column.append(":");
                push_decimal(&mut column, port as u64);
                if let Some(dest) = self.best_destination() {
                    if !same_text(dest, host) {
                        column.append(" host=");
                        column.append(dest);
                    }
                }
                column
            },
            _ => {
                let mut column = String::new();
                push_padded(&mut column, "(endpoint not yet known)", PENDING_WIDTH);
                assert(column@ =~= self@.endpoint());
                column
            },
        }
    }

    /// The value of the `app=` column; `<none>` when the process could not be named.
    fn app_label(&self) -> (label: String)
        ensures
            label@ == self@.app_label(),
    {
        match &self.app {
            Some(app) => app.log_label(),
            None => "<none>".to_owned(),
        }
    }
}

/// A remote endpoint given by host and port, both as the text that the framework hands over.
pub struct HostEndpoint {
    pub hostname: String,
    pub port: String,
}

/// What a socket flow tells of itself.
pub struct SocketFlow {
    /// Raw socket family number.
    pub family: i32,
    /// Raw protocol number.
    pub protocol: i32,
    /// `None` while the endpoint is not known, and for an endpoint that is no host and port.
    pub remote_endpoint: Option<HostEndpoint>,
    pub remote_hostname: Option<String>,
}

/// What is read off a flow when it is first seen.
pub struct ObservedFlow {
    /// `None` for a flow that is not a socket flow.
    pub socket: Option<SocketFlow>,
    /// The host of the flow's URL.
    pub url_host: Option<String>,
    /// Who opened the flow.
    pub source: FlowSource,
}

/// An optional string where the empty string counts as absent.
pub open spec fn non_empty(s: Option<Seq<char>>) -> Option<Seq<char>> {
    match s {
        Some(text) => if text.len() > 0 {
            Some(text)
        } else {
            None
        },
        None => None,
    }
}

/// The digits of a port: an optional `+` in front of them is dropped.
pub open spec fn port_digits(s: Seq<char>) -> Seq<char> {
    if s.len() > 1 && s[0] == '+' {
        s.drop_first()
    } else {
        s
    }
}

/// The port that `s` spells out in decimal, when it is a number of at most 16 bits.
pub open spec fn port_spec(s: Seq<char>) -> Option<u16> {
    let digits = port_digits(s);
    if digits.len() > 0 && (forall|i: int|
        0 <= i < digits.len() ==> crate::text::is_ascii_digit(#[trigger] digits[i]))
        && crate::text::decimal_value(digits) <= u16::MAX {
        Some(crate::text::decimal_value(digits) as u16)
    } else {
        None
    }
}

impl ObservedFlow {
    pub open spec fn family(self) -> AddressFamily {
        match self.socket {
            Some(socket) => AddressFamily::from_raw_spec(socket.family as int),
            None => AddressFamily::Other(0),
        }
    }

    pub open spec fn protocol(self) -> TransportProtocol {
        match self.socket {
            Some(socket) => TransportProtocol::from_raw_spec(socket.protocol as int),
            None => TransportProtocol::Other(0),
        }
    }

    pub open spec fn remote_host(self) -> Option<Seq<char>> {
        match self.socket {
            Some(socket) => match socket.remote_endpoint {
                Some(endpoint) => non_empty(Some(endpoint.hostname@)),
                None => None,
            },
            None => None,
        }
    }

    pub open spec fn remote_port(self) -> Option<u16> {
        match self.socket {
            Some(socket) => match socket.remote_endpoint {
                Some(endpoint) => port_spec(endpoint.port@),
                None => None,
            },
            None => None,
        }
    }

    pub open spec fn hostname(self) -> Option<Seq<char>> {
        match self.socket {
            Some(socket) => non_empty(crate::text::opt_text(socket.remote_hostname)),
            None => None,
        }
    }

    /// The flow that an observation describes.
    pub open spec fn info(self, lookup: Option<PathLookup>, elapsed_ms: Option<u128>) -> Flow {
        Flow {
            ts_ms: now_ms_spec(elapsed_ms),
            family: self.family(),
            protocol: self.protocol(),
            remote_host: self.remote_host(),
            remote_port: self.remote_port(),
            hostname: self.hostname(),
            url_host: non_empty(crate::text::opt_text(self.url_host)),
            app: self.source.app(lookup),
            pid: self.source.pid(),
        }
    }
}

/// A copy of `s`, with the empty string made `None`.
fn keep_non_empty(s: &Option<String>) -> (kept: Option<String>)
    ensures
        crate::text::opt_text(kept) == non_empty(crate::text::opt_text(*s)),
{
    match s {
        Some(text) => if text.as_str().is_empty() {
            None
        } else {
            Some(text.clone())
        },
        None => None,
    }
}

/// Build a [`FlowInfo`] from what was observed. A missing field becomes `None`, not an error; a
/// flow that is no socket flow has family and protocol `Other(0)`.
///
/// `lookup` is the reply to [`crate::attribution::path_query`] for the flow's source, and
/// `elapsed_ms` the time since the Unix epoch, `None` when the clock stands before it.
pub fn info_for(
    flow: &ObservedFlow,
    lookup: Option<PathLookup>,
    elapsed_ms: Option<u128>,
) -> (info: FlowInfo)
    ensures
        info@ == flow.info(lookup, elapsed_ms),
{
    let (family, protocol) = match &flow.socket {
        Some(socket) => (
            AddressFamily::from_raw(socket.family),
            TransportProtocol::from_raw(socket.protocol),
        ),
        None => (AddressFamily::Other(0), TransportProtocol::Other(0)),
    };
    let (remote_host, remote_port) = match &flow.socket {
        Some(socket) => remote_endpoint_parts(socket),
        None => (None, None),
    };
    let hostname = match &flow.socket {
        Some(socket) => keep_non_empty(&socket.remote_hostname),
        None => None,
    };
    FlowInfo {
        ts_ms: now_ms(elapsed_ms),
        family,
        protocol,
        remote_host,
        remote_port,
        hostname,
        url_host: keep_non_empty(&flow.url_host),
        app: identify(&flow.source, lookup),
        pid: pid_for(&flow.source),
    }
}

/// Split the remote endpoint into host and port: `(None, None)` when it is not known, which is
/// normal when a flow is first seen.
pub fn remote_endpoint_parts(socket: &SocketFlow) -> (parts: (Option<String>, Option<u16>))
    ensures
        match socket.remote_endpoint {
            Some(endpoint) => {
                &&& crate::text::opt_text(parts.0) == non_empty(Some(endpoint.hostname@))
                &&& parts.1 == port_spec(endpoint.port@)
            },
            None => parts.0 is None && parts.1 is None,
        },
{
    match &socket.remote_endpoint {
        Some(endpoint) => {
            let host = if endpoint.hostname.as_str().is_empty() {
                None
            } else {
                Some(endpoint.hostname.clone())
            };
            (host, parse_port(&endpoint.port))
        },
        None => (None, None),
    }
}

/// A run of digits never stands for less than the digits it starts with.
proof fn lemma_decimal_value_grows(s: Seq<char>, n: int)
    requires
        0 <= n <= s.len(),
        forall|i: int| 0 <= i < s.len() ==> crate::text::is_ascii_digit(#[trigger] s[i]),
    ensures
        crate::text::decimal_value(s.take(n)) <= crate::text::decimal_value(s),
    decreases s.len() - n,
{
    if n < s.len() {
        assert(s.take(n + 1).drop_last() =~= s.take(n));
        assert(crate::text::is_ascii_digit(s[n]));
        lemma_decimal_value_grows(s, n + 1);
    } else {
        assert(s.take(n) =~= s);
    }
}

/// Read a port: an optional `+` followed by decimal digits, at most 65535.
pub fn parse_port(s: &str) -> (port: Option<u16>)
    ensures
        port == port_spec(s@),
{
    let chars = chars_of(s);
    let len: usize = chars.len();
    let start: usize = if len > 1 && chars[0] == '+' {
        1
    } else {
        0
    };
    if len == 0 {
        return None;
    }
    let ghost digits = port_digits(s@);
    assert(digits =~= s@.skip(start as int));
    let mut value: u32 = 0;
    let mut i: usize = start;
    assert(digits.take(0) =~= Seq::<char>::empty());
    while i < len
        invariant
            start <= i <= len,
            len == s@.len(),
            chars@ == s@,
            digits == port_digits(s@),
            digits == s@.skip(start as int),
            value <= 65535,
            value == crate::text::decimal_value(digits.take(i - start)),
            forall|j: int| 0 <= j < i - start ==> crate::text::is_ascii_digit(#[trigger] digits[j]),
        decreases len - i,
    {
        let c = chars[i];
        assert(c == digits[i - start]);
        if !('0' <= c && c <= '9') {
            assert(!crate::text::is_ascii_digit(digits[i - start]));
            return None;
        }
        assert(digits.take(i - start + 1).drop_last() =~= digits.take(i - start));
        value = value * 10 + (c as u32 - 48);
        if value > 65535 {
            proof {
                if forall|j: int|
                    0 <= j < digits.len() ==> crate::text::is_ascii_digit(#[trigger] digits[j]) {
                    lemma_decimal_value_grows(digits, i - start + 1);
                }
            }
            return None;
        }
        i = i + 1;
    }
    assert(digits.take(digits.len() as int) =~= digits);
    Some(value as u16)
}

pub open spec fn now_ms_spec(elapsed_ms: Option<u128>) -> u64 {
    match elapsed_ms {
        Some(ms) => (ms % 0x1_0000_0000_0000_0000) as u64,
        None => 0,
    }
}

/// A timestamp from the milliseconds that have passed since the Unix epoch: the low 64 bits, and 0
/// for a clock that stands before the epoch.
pub fn now_ms(elapsed_ms: Option<u128>) -> (ms: u64)
    ensures
        ms == now_ms_spec(elapsed_ms),
{
    match elapsed_ms {
        Some(ms) => (ms % 0x1_0000_0000_0000_0000) as u64,
        None => 0,
    }
}

} // verus!
