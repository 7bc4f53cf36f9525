//! Laws of flows and of their log lines.

use vstd::prelude::*;
use crate::attribution::{AppId, PathLookup};
use crate::flow::{
    AddressFamily, Flow, FlowInfo, HostEndpoint, ObservedFlow, SocketFlow, TransportProtocol,
};
use crate::rules::Action;

verus! {

/// Two numbers with the same signed decimal text are the same number.
proof fn lemma_signed_decimal_is_injective(a: int, b: int)
    requires
        crate::text::signed_decimal(a) == crate::text::signed_decimal(b),
    ensures
        a == b,
{
    let m = if a < 0 {
        (-a) as nat
    } else {
        a as nat
    };
    let n = if b < 0 {
        (-b) as nat
    } else {
        b as nat
    };
    law_decimal_reads_back(m);
    law_decimal_reads_back(n);
    let x = crate::text::decimal(m);
    let y = crate::text::decimal(n);
    assert(crate::text::is_ascii_digit(x[0]));
    assert(crate::text::is_ascii_digit(y[0]));
    if a < 0 {
        assert(crate::text::signed_decimal(a)[0] == '-');
        assert(crate::text::signed_decimal(a).skip(1) =~= x);
    }
    if b < 0 {
        assert(crate::text::signed_decimal(b)[0] == '-');
        assert(crate::text::signed_decimal(b).skip(1) =~= y);
    }
}

/// What stands between one opening and one closing text is told by the whole.
proof fn lemma_between_is_injective(open: Seq<char>, x: Seq<char>, y: Seq<char>, close: Seq<char>)
    requires
        open + x + close == open + y + close,
    ensures
        x == y,
{
    let whole = open + x + close;
    let other = open + y + close;
    assert(whole.len() == open.len() + x.len() + close.len());
    assert(other.len() == open.len() + y.len() + close.len());
    assert(whole.subrange(open.len() as int, open.len() as int + x.len()) =~= x);
    assert(other.subrange(open.len() as int, open.len() as int + y.len()) =~= y);
}

/// No raw family or protocol number is lost: two numbers that the log shows as the same family, or
/// as the same protocol, are the same number.
pub proof fn law_raw_numbers_stay_visible(a: i32, b: i32)
    ensures
        AddressFamily::from_raw_spec(a as int).label_spec() == AddressFamily::from_raw_spec(
            b as int,
        ).label_spec() ==> a == b,
        TransportProtocol::from_raw_spec(a as int).label_spec()
            == TransportProtocol::from_raw_spec(b as int).label_spec() ==> a == b,
{
    reveal_strlit("IPv4");
    reveal_strlit("IPv6");
    reveal_strlit("AF(");
    reveal_strlit("TCP");
    reveal_strlit("UDP");
    reveal_strlit("proto(");
    reveal_strlit(")");
    let x = crate::text::signed_decimal(a as int);
    let y = crate::text::signed_decimal(b as int);
    assert("IPv4"@[3] == '4' && "IPv6"@[3] == '6');
    assert("IPv4"@[0] == 'I' && "IPv6"@[0] == 'I');
    assert(("AF("@ + x + ")"@)[0] == 'A' && ("AF("@ + y + ")"@)[0] == 'A');
    assert("TCP"@[0] == 'T' && "UDP"@[0] == 'U');
    assert(("proto("@ + x + ")"@)[0] == 'p' && ("proto("@ + y + ")"@)[0] == 'p');
    if "AF("@ + x + ")"@ == "AF("@ + y + ")"@ {
        lemma_between_is_injective("AF("@, x, y, ")"@);
        lemma_signed_decimal_is_injective(a as int, b as int);
    }
    if "proto("@ + x + ")"@ == "proto("@ + y + ")"@ {
        lemma_between_is_injective("proto("@, x, y, ")"@);
        lemma_signed_decimal_is_injective(a as int, b as int);
    }
}

/// A destination is known exactly when the flow carries a URL host, a hostname or an address; a
/// name is preferred over the address.
pub proof fn law_names_are_preferred_over_addresses(flow: Flow)
    ensures
        flow.best_destination() is None <==> flow.url_host is None && flow.hostname is None
            && flow.remote_host is None,
        flow.url_host is Some ==> flow.best_destination() == flow.url_host,
        flow.url_host is None && flow.hostname is Some ==> flow.best_destination()
            == flow.hostname,
{
}

/// A flow that was observed never carries an empty name or address: what is empty counts as not
/// known.
pub proof fn law_observed_texts_are_not_empty(
    observed: ObservedFlow,
    lookup: Option<PathLookup>,
    elapsed_ms: Option<u128>,
)
    ensures
        ({
            let flow = observed.info(lookup, elapsed_ms);
            &&& flow.remote_host matches Some(text) ==> text.len() > 0
            &&& flow.hostname matches Some(text) ==> text.len() > 0
            &&& flow.url_host matches Some(text) ==> text.len() > 0
            &&& flow.app matches Some(app) ==> app.name.len() > 0
        }),
{
    crate::laws::attribution::law_an_identified_app_has_a_name(observed.source, lookup);
}

/// A flow that is no socket flow is reported with family and protocol 0 and without an endpoint,
/// not guessed at.
pub proof fn law_a_flow_without_a_socket_is_not_guessed_at(
    observed: ObservedFlow,
    lookup: Option<PathLookup>,
    elapsed_ms: Option<u128>,
)
    requires
        observed.socket is None,
    ensures
        ({
            let flow = observed.info(lookup, elapsed_ms);
            &&& flow.family == AddressFamily::Other(0)
            &&& flow.protocol == TransportProtocol::Other(0)
            &&& flow.remote_host is None
            &&& flow.remote_port is None
            &&& flow.hostname is None
        }),
{
}

/// A number written in decimal is digits only, and reads back as itself.
pub proof fn law_decimal_reads_back(n: nat)
    ensures
        crate::text::decimal(n).len() > 0,
        forall|i: int|
            0 <= i < crate::text::decimal(n).len() ==> crate::text::is_ascii_digit(
                #[trigger] crate::text::decimal(n)[i],
            ),
        crate::text::decimal_value(crate::text::decimal(n)) == n,
    decreases n,
{
    let text = crate::text::decimal(n);
    if n < 10 {
        assert(text.drop_last() =~= Seq::empty());
        assert(crate::text::decimal_value(text.drop_last()) == 0);
    } else {
        law_decimal_reads_back(n / 10);
        assert(text.drop_last() =~= crate::text::decimal(n / 10));
        assert forall|i: int| 0 <= i < text.len() implies crate::text::is_ascii_digit(
            #[trigger] text[i],
        ) by {
            if i < text.len() - 1 {
                assert(text[i] == crate::text::decimal(n / 10)[i]);
            }
        }
    }
}

/// Every port reads back from its decimal text.
pub proof fn law_ports_read_back(port: u16)
    ensures
        crate::flow::port_spec(crate::text::decimal(port as nat)) == Some(port),
{
    law_decimal_reads_back(port as nat);
    let text = crate::text::decimal(port as nat);
    assert(crate::text::is_ascii_digit(text[0]));
    assert(crate::flow::port_digits(text) == text);
}

/// A log line starts with the action, in a column of five characters: the lines of one flow under
/// the two actions differ.
pub proof fn law_the_log_line_shows_the_action(flow: Flow, action: Action)
    ensures
        flow.log_line(action).take(5) == crate::text::pad_right_spec(action.label_spec(), 5),
        flow.log_line(Action::Allow) != flow.log_line(Action::Drop),
{
    reveal_strlit("allow");
    reveal_strlit("drop");
    let allow = crate::text::pad_right_spec(Action::Allow.label_spec(), 5);
    let drop = crate::text::pad_right_spec(Action::Drop.label_spec(), 5);
    assert(allow.len() == 5 && drop.len() == 5);
    assert(allow[0] == 'a' && drop[0] == 'd');
    assert(flow.log_line(Action::Allow).take(5) =~= allow);
    assert(flow.log_line(Action::Drop).take(5) =~= drop);
}

/// A log line ends with the `app=` and `pid=` columns; what stands before them does not depend on
/// who opened the flow.
pub proof fn law_the_log_line_ends_with_the_source(a: Flow, b: Flow, action: Action)
    requires
        b == (Flow { app: b.app, pid: b.pid, ..a }),
    ensures
        exists|head: Seq<char>|
            {
                &&& a.log_line(action) == #[trigger] (head + "  app="@ + a.app_label() + " pid="@
                    + a.pid_label())
                &&& b.log_line(action) == head + "  app="@ + b.app_label() + " pid="@
                    + b.pid_label()
            },
{
    let head = crate::text::pad_right_spec(action.label_spec(), 5) + " "@
        + crate::text::pad_right_spec(a.protocol.label_spec(), 4) + " "@
        + crate::text::pad_right_spec(a.family.label_spec(), 4) + " "@ + a.endpoint();
    assert(b.endpoint() == a.endpoint());
    assert(a.log_line(action) == head + "  app="@ + a.app_label() + " pid="@ + a.pid_label());
    assert(b.log_line(action) == head + "  app="@ + b.app_label() + " pid="@ + b.pid_label());
}

/// Family 2 is IPv4 and family 30 IPv6; protocol 6 is TCP and protocol 17 UDP. Every other number is
/// kept as it is, and no number is taken for another.
pub proof fn law_numbers_are_read_as_the_system_defines_them(
    v: i32,
    family: AddressFamily,
    protocol: TransportProtocol,
)
    requires
        call_ensures(AddressFamily::from_raw, (v,), family),
        call_ensures(TransportProtocol::from_raw, (v,), protocol),
    ensures
        family == AddressFamily::V4 <==> v == 2,
        family == AddressFamily::V6 <==> v == 30,
        family == AddressFamily::Other(v) <==> v != 2 && v != 30,
        protocol == TransportProtocol::Tcp <==> v == 6,
        protocol == TransportProtocol::Udp <==> v == 17,
        protocol == TransportProtocol::Other(v) <==> v != 6 && v != 17,
{
}

/// A family is shown by its usual name, and a family without one by its number.
pub proof fn law_family_labels(family: AddressFamily, v: i32, label: String)
    requires
        call_ensures(AddressFamily::label, (&family,), label),
    ensures
        family == AddressFamily::V4 ==> label@ == "IPv4"@,
        family == AddressFamily::V6 ==> label@ == "IPv6"@,
        family == AddressFamily::Other(v) ==> {
            &&& label@.take(3) == "AF("@
            &&& label@.subrange(3, label@.len() - 1) == crate::text::signed_decimal(v as int)
            &&& label@.last() == ')'
        },
{
    reveal_strlit("AF(");
    reveal_strlit(")");
    if family == AddressFamily::Other(v) {
        let number = crate::text::signed_decimal(v as int);
        assert(label@ == "AF("@ + number + ")"@);
        assert(label@.take(3) =~= "AF("@);
        assert(label@.subrange(3, label@.len() - 1) =~= number);
    }
}

/// A protocol is shown by its usual name, and a protocol without one by its number.
pub proof fn law_protocol_labels(protocol: TransportProtocol, v: i32, label: String)
    requires
        call_ensures(TransportProtocol::label, (&protocol,), label),
    ensures
        protocol == TransportProtocol::Tcp ==> label@ == "TCP"@,
        protocol == TransportProtocol::Udp ==> label@ == "UDP"@,
        protocol == TransportProtocol::Other(v) ==> {
            &&& label@.take(6) == "proto("@
            &&& label@.subrange(6, label@.len() - 1) == crate::text::signed_decimal(v as int)
            &&& label@.last() == ')'
        },
{
    reveal_strlit("proto(");
    reveal_strlit(")");
    if protocol == TransportProtocol::Other(v) {
        let number = crate::text::signed_decimal(v as int);
        assert(label@ == "proto("@ + number + ")"@);
        assert(label@.take(6) =~= "proto("@);
        assert(label@.subrange(6, label@.len() - 1) =~= number);
    }
}

/// The best name of a destination, by what the flow carries: the URL's host whenever there is one,
/// else the hostname whenever there is one, else the address.
pub proof fn law_the_best_destination_is_the_first_name_known(info: &FlowInfo, dest: Option<&str>)
    requires
        call_ensures(FlowInfo::best_destination, (info,), dest),
    ensures
        info.url_host matches Some(host) ==> dest is Some && dest->0@ == host@,
        info.url_host is None && info.hostname is Some ==> dest is Some && dest->0@
            == info.hostname->0@,
        info.url_host is None && info.hostname is None && info.remote_host is Some ==> dest is Some
            && dest->0@ == info.remote_host->0@,
        info.url_host is None && info.hostname is None && info.remote_host is None ==> dest is None,
{
}

/// The endpoint column of a flow whose address and port are known starts with them, whatever names
/// the flow carries, and goes on with the best name exactly when that is not the address itself.
/// The column says that the endpoint is not known exactly when the address or the port is not.
pub proof fn law_a_known_endpoint_is_shown(flow: Flow)
    ensures
        (flow.remote_host is Some && flow.remote_port is Some) ==> ({
            let host = flow.remote_host->0;
            let address = host + seq![':'] + crate::text::decimal(flow.remote_port->0 as nat);
            let best = if flow.url_host is Some {
                flow.url_host->0
            } else if flow.hostname is Some {
                flow.hostname->0
            } else {
                host
            };
            &&& flow.endpoint().take(address.len() as int) == address
            &&& best == host ==> flow.endpoint() == address
            &&& best != host ==> flow.endpoint().skip(address.len() as int) == " host="@ + best
        }),
        (flow.remote_host is None || flow.remote_port is None) ==> {
            &&& flow.endpoint().take(24) == "(endpoint not yet known)"@
            &&& flow.endpoint().len() == 34
            &&& forall|i: int| 24 <= i < 34 ==> #[trigger] flow.endpoint()[i] == ' '
        },
{
    reveal_strlit(":");
    reveal_strlit("(endpoint not yet known)");
    if flow.remote_host is Some && flow.remote_port is Some {
        let host = flow.remote_host->0;
        let number = crate::text::decimal(flow.remote_port->0 as nat);
        let address = host + seq![':'] + number;
        assert(host + ":"@ + number =~= address);
        let dest = flow.best_destination()->0;
        if dest != host {
            assert(flow.endpoint() =~= address + (" host="@ + dest));
            assert(flow.endpoint().skip(address.len() as int) =~= " host="@ + dest);
        }
        assert(flow.endpoint().take(address.len() as int) =~= address);
    } else {
        let text = "(endpoint not yet known)"@;
        crate::laws::text::law_padding_only_adds_spaces(text, 34);
        assert(flow.endpoint() == crate::text::pad_right_spec(text, 34));
    }
}

/// One line tells all there is to tell of a flow: the action, the protocol and the family, each in
/// a column of its own; then the endpoint; then who opened the flow, and under which process id.
pub proof fn law_the_log_line_tells_the_flow(info: &FlowInfo, action: Action, line: String)
    requires
        call_ensures(FlowInfo::log_line, (info, action), line),
    ensures
        ({
            let action_column = match action {
                Action::Allow => "allow "@,
                Action::Drop => "drop  "@,
            };
            let protocol_column = match info.protocol {
                TransportProtocol::Tcp => "TCP  "@,
                TransportProtocol::Udp => "UDP  "@,
                TransportProtocol::Other(v) => "proto("@ + crate::text::signed_decimal(v as int)
                    + ") "@,
            };
            let family_column = match info.family {
                AddressFamily::V4 => "IPv4 "@,
                AddressFamily::V6 => "IPv6 "@,
                AddressFamily::Other(v) => "AF("@ + crate::text::signed_decimal(v as int) + ") "@,
            };
            let app = match info.app {
                Some(app) => app.name@ + "("@ + app.source@ + ")"@,
                None => "<none>"@,
            };
            let pid = match info.pid {
                Some(pid) => crate::text::signed_decimal(pid as int),
                None => "-"@,
            };
            line@ == action_column + protocol_column + family_column + info@.endpoint()
                + "  app="@ + app + " pid="@ + pid
        }),
        info@.remote_host is Some <==> info.remote_host is Some,
        info.remote_host matches Some(host) ==> info@.remote_host == Some(host@),
        info@.remote_port == info.remote_port,
        info@.url_host is Some <==> info.url_host is Some,
        info.url_host matches Some(host) ==> info@.url_host == Some(host@),
        info@.hostname is Some <==> info.hostname is Some,
        info.hostname matches Some(host) ==> info@.hostname == Some(host@),
{
    reveal_strlit("allow");
    reveal_strlit("allow ");
    reveal_strlit("drop");
    reveal_strlit("drop  ");
    reveal_strlit("TCP");
    reveal_strlit("TCP  ");
    reveal_strlit("UDP");
    reveal_strlit("UDP  ");
    reveal_strlit("IPv4");
    reveal_strlit("IPv4 ");
    reveal_strlit("IPv6");
    reveal_strlit("IPv6 ");
    reveal_strlit("proto(");
    reveal_strlit("AF(");
    reveal_strlit(")");
    reveal_strlit(") ");
    reveal_strlit(" ");
    let flow = info@;
    let first = crate::text::pad_right_spec(action.label_spec(), 5) + " "@;
    let action_column = match action {
        Action::Allow => "allow "@,
        Action::Drop => "drop  "@,
    };
    assert(first =~= action_column);
    let second = crate::text::pad_right_spec(flow.protocol.label_spec(), 4) + " "@;
    let protocol_column = match info.protocol {
        TransportProtocol::Tcp => "TCP  "@,
        TransportProtocol::Udp => "UDP  "@,
        TransportProtocol::Other(v) => "proto("@ + crate::text::signed_decimal(v as int) + ") "@,
    };
    assert(second =~= protocol_column);
    let third = crate::text::pad_right_spec(flow.family.label_spec(), 4) + " "@;
    let family_column = match info.family {
        AddressFamily::V4 => "IPv4 "@,
        AddressFamily::V6 => "IPv6 "@,
        AddressFamily::Other(v) => "AF("@ + crate::text::signed_decimal(v as int) + ") "@,
    };
    assert(third =~= family_column) by {
        if let AddressFamily::Other(v) = info.family {
            let m = if v < 0 {
                (-v) as nat
            } else {
                v as nat
            };
            law_decimal_reads_back(m);
        }
    }
    assert(line@ =~= first + second + third + flow.endpoint() + "  app="@ + flow.app_label()
        + " pid="@ + flow.pid_label());
}

/// `n` zeros, as digits.
pub open spec fn zero_digits(n: nat) -> Seq<char> {
    Seq::new(n, |i: int| '0')
}

proof fn lemma_leading_zeros_are_worth_nothing(n: nat, text: Seq<char>)
    ensures
        crate::text::decimal_value(zero_digits(n) + text) == crate::text::decimal_value(text),
    decreases n + text.len(),
{
    let whole = zero_digits(n) + text;
    if text.len() > 0 {
        assert(whole.drop_last() =~= zero_digits(n) + text.drop_last());
        lemma_leading_zeros_are_worth_nothing(n, text.drop_last());
    } else if n > 0 {
        assert(whole.drop_last() =~= zero_digits((n - 1) as nat) + text);
        lemma_leading_zeros_are_worth_nothing((n - 1) as nat, text);
    } else {
        assert(whole =~= text);
    }
}

proof fn lemma_digits_are_zeros_and_a_decimal(digits: Seq<char>) -> (n: nat)
    requires
        digits.len() > 0,
        forall|i: int| 0 <= i < digits.len() ==> crate::text::is_ascii_digit(#[trigger] digits[i]),
    ensures
        digits == zero_digits(n) + crate::text::decimal(crate::text::decimal_value(digits)),
    decreases digits.len(),
{
    let init = digits.drop_last();
    let last = digits.last();
    let d = (last as int - 48) as nat;
    assert(crate::text::is_ascii_digit(digits[digits.len() - 1]));
    assert(d < 10);
    assert(crate::text::digit(d) == last);
    assert(digits =~= init.push(last));
    let value = crate::text::decimal_value(init);
    assert(crate::text::decimal_value(digits) == value * 10 + d);
    if init.len() == 0 {
        assert(value == 0);
        assert(digits =~= zero_digits(0) + crate::text::decimal(d));
        0
    } else {
        assert forall|i: int| 0 <= i < init.len() implies crate::text::is_ascii_digit(
            #[trigger] init[i],
        ) by {
            assert(init[i] == digits[i]);
        }
        let m = lemma_digits_are_zeros_and_a_decimal(init);
        if value == 0 {
            assert(crate::text::decimal(0) =~= seq!['0']);
            assert(digits =~= zero_digits(m + 1) + crate::text::decimal(d));
            m + 1
        } else {
            let n = value * 10 + d;
            assert(n / 10 == value && n % 10 == d);
            assert(crate::text::decimal(n) =~= crate::text::decimal(value).push(last));
            assert(digits =~= zero_digits(m) + crate::text::decimal(n));
            m
        }
    }
}

/// A text is read as a port exactly when it is that port in decimal, with zeros in front of it or
/// without, and with one plus sign in front of all or without. No other text is a port.
pub proof fn law_a_port_is_read_from_its_decimal_text(s: &str, port: Option<u16>, p: u16)
    requires
        call_ensures(crate::flow::parse_port, (s,), port),
    ensures
        port == Some(p) <==> exists|n: nat|
            {
                let digits = #[trigger] zero_digits(n) + crate::text::decimal(p as nat);
                s@ == digits || s@ == seq!['+'] + digits
            },
{
    let text = crate::text::decimal(p as nat);
    law_decimal_reads_back(p as nat);
    assert(port == crate::flow::port_spec(s@));
    if port == Some(p) {
        let digits = crate::flow::port_digits(s@);
        let n = lemma_digits_are_zeros_and_a_decimal(digits);
        assert(digits == zero_digits(n) + text);
        if digits != s@ {
            assert(s@ =~= seq!['+'] + digits);
        }
    }
    if exists|n: nat|
        {
            let digits = #[trigger] zero_digits(n) + text;
            s@ == digits || s@ == seq!['+'] + digits
        } {
        let n = choose|n: nat|
            {
                let digits = #[trigger] zero_digits(n) + text;
                s@ == digits || s@ == seq!['+'] + digits
            };
        let digits = zero_digits(n) + text;
        lemma_leading_zeros_are_worth_nothing(n, text);
        assert forall|i: int| 0 <= i < digits.len() implies crate::text::is_ascii_digit(
            #[trigger] digits[i],
        ) by {
            if i >= n {
                assert(digits[i] == text[i - n]);
            }
        }
        assert(crate::text::is_ascii_digit(digits[0]));
        if s@ == seq!['+'] + digits {
            assert(s@.drop_first() =~= digits);
        }
        assert(crate::flow::port_digits(s@) == digits);
    }
}

/// The endpoint of a socket flow is its host, unless that is empty, and the port that its text
/// spells; an endpoint that is not known has neither.
pub proof fn law_an_endpoint_is_split_into_host_and_port(
    socket: &SocketFlow,
    endpoint: HostEndpoint,
    text: &str,
    port: Option<u16>,
    parts: (Option<String>, Option<u16>),
)
    requires
        call_ensures(crate::flow::remote_endpoint_parts, (socket,), parts),
        text@ == endpoint.port@,
        call_ensures(crate::flow::parse_port, (text,), port),
    ensures
        socket.remote_endpoint is None ==> parts.0 is None && parts.1 is None,
        socket.remote_endpoint == Some(endpoint) ==> {
            &&& parts.1 == port
            &&& parts.0 is Some <==> endpoint.hostname@.len() > 0
            &&& parts.0 matches Some(host) ==> host@ == endpoint.hostname@
        },
{
}

/// `kept` is `given`, an empty text counting as none.
pub open spec fn carried_over(given: Option<String>, kept: Option<String>) -> bool {
    &&& kept is Some <==> given is Some && given->0@.len() > 0
    &&& kept matches Some(text) ==> text@ == given->0@
}

/// Everything that was observed of a flow stands in its description: the URL's host for a socket
/// flow as for any other; the hostname, the endpoint, the family and the protocol of its socket;
/// the app and the process id behind it. What is empty counts as not known.
pub proof fn law_what_was_observed_is_carried_over(
    flow: &ObservedFlow,
    lookup: Option<PathLookup>,
    elapsed_ms: Option<u128>,
    info: FlowInfo,
)
    requires
        call_ensures(crate::flow::info_for, (flow, lookup, elapsed_ms), info),
    ensures
        carried_over(flow.url_host, info.url_host),
        flow.socket matches Some(socket) ==> {
            &&& carried_over(socket.remote_hostname, info.hostname)
            &&& info.family == AddressFamily::from_raw_spec(socket.family as int)
            &&& info.protocol == TransportProtocol::from_raw_spec(socket.protocol as int)
            &&& socket.remote_endpoint matches Some(endpoint) ==> {
                &&& carried_over(Some(endpoint.hostname), info.remote_host)
                &&& info.remote_port == crate::flow::port_spec(endpoint.port@)
            }
            &&& socket.remote_endpoint is None ==> info.remote_host is None
                && info.remote_port is None
        },
        flow.socket is None ==> {
            &&& info.family == AddressFamily::Other(0)
            &&& info.protocol == TransportProtocol::Other(0)
            &&& info.hostname is None
            &&& info.remote_host is None
            &&& info.remote_port is None
        },
{
    let model = flow.info(lookup, elapsed_ms);
    assert(info@ == model);
    assert(info@.url_host == model.url_host);
    assert(info@.hostname == model.hostname);
    assert(info@.remote_host == model.remote_host);
}

/// The app and the process id of a flow are those that attribution gives for its source, and its
/// timestamp is the time that was handed in.
pub proof fn law_a_flow_is_described_with_its_source_and_time(
    flow: &ObservedFlow,
    lookup: Option<PathLookup>,
    elapsed_ms: Option<u128>,
    info: FlowInfo,
    app: Option<AppId>,
    pid: Option<i32>,
    ms: u64,
)
    requires
        call_ensures(crate::flow::info_for, (flow, lookup, elapsed_ms), info),
        call_ensures(crate::attribution::identify, (&flow.source, lookup), app),
        call_ensures(crate::attribution::pid_for, (&flow.source,), pid),
        call_ensures(crate::flow::now_ms, (elapsed_ms,), ms),
    ensures
        info.app is Some <==> app is Some,
        info.app matches Some(id) ==> id.name@ == app->0.name@ && id.source@ == app->0.source@,
        info.pid == pid,
        info.ts_ms == ms,
{
    let model = flow.info(lookup, elapsed_ms);
    assert(info@.app == model.app);
    assert(info@.pid == model.pid);
    assert(info@.ts_ms == model.ts_ms);
}

/// A timestamp is the time since the epoch, up to multiples of two to the 64th: the time itself for
/// as long as it fits, and zero for a clock that stands before the epoch.
pub proof fn law_a_timestamp_is_the_elapsed_time(elapsed_ms: Option<u128>, ms: u64)
    requires
        call_ensures(crate::flow::now_ms, (elapsed_ms,), ms),
    ensures
        elapsed_ms is None ==> ms == 0,
        elapsed_ms matches Some(elapsed) ==> {
            &&& elapsed <= u64::MAX ==> ms == elapsed
            &&& (elapsed - ms) % 0x1_0000_0000_0000_0000 == 0
        },
{
}

} // verus!
