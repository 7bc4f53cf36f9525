use content_filter::attribution::{AppId, FlowSource, PathLookup};
use content_filter::flow::{
    info_for, now_ms, parse_port, remote_endpoint_parts, AddressFamily, FlowInfo, HostEndpoint,
    ObservedFlow, SocketFlow, TransportProtocol,
};
use content_filter::rules::Action;

fn sample() -> FlowInfo {
    FlowInfo {
        ts_ms: 1_700_000_000_000,
        family: AddressFamily::V6,
        protocol: TransportProtocol::Tcp,
        remote_host: Some("2606:4700::1".into()),
        remote_port: Some(443),
        hostname: Some("example.com".into()),
        url_host: None,
        app: None,
        pid: None,
    }
}

#[test]
fn families_and_protocols_map_from_raw_values() {
    assert_eq!(AddressFamily::from_raw(2), AddressFamily::V4);
    assert_eq!(AddressFamily::from_raw(30), AddressFamily::V6);
    assert_eq!(AddressFamily::from_raw(1), AddressFamily::Other(1));
    assert_eq!(TransportProtocol::from_raw(6), TransportProtocol::Tcp);
    assert_eq!(TransportProtocol::from_raw(17), TransportProtocol::Udp);
    assert_eq!(TransportProtocol::from_raw(1), TransportProtocol::Other(1));
}

#[test]
fn destination_prefers_hostname_over_ip_literal() {
    let rec = sample();
    assert_eq!(rec.best_destination(), Some("example.com"));

    let ip_only = FlowInfo { hostname: None, ..sample() };
    assert_eq!(ip_only.best_destination(), Some("2606:4700::1"));

    let pending = FlowInfo { hostname: None, remote_host: None, ..sample() };
    assert_eq!(pending.best_destination(), None);
}

#[test]
fn log_line_includes_hostname_alongside_the_ip() {
    let line = sample().log_line(Action::Allow);
    assert!(line.starts_with("allow"), "{line}");
    assert!(line.contains("2606:4700::1"), "{line}");
    assert!(line.contains(":443"), "{line}");
    assert!(line.contains("host=example.com"), "{line}");
}

#[test]
fn log_line_for_a_pending_endpoint_reads_as_pending_not_missing() {
    // The documented "remoteEndpoint may be nil at handleNewFlow: time" case must not be
    // mistaken, from the log alone, for the filter dropping traffic it should have seen.
    let pending = FlowInfo {
        remote_host: None,
        remote_port: None,
        hostname: None,
        ..sample()
    };
    let line = pending.log_line(Action::Allow);
    assert!(line.contains("endpoint not yet known"), "{line}");
}

#[test]
fn log_line_shows_the_drop_action() {
    let line = sample().log_line(Action::Drop);
    assert!(line.starts_with("drop"), "{line}");
}

#[test]
fn log_line_marks_an_unnamed_flow_as_none() {
    let line = sample().log_line(Action::Drop);
    assert!(line.contains("app=<none>"), "{line}");
    assert!(line.contains("pid=-"), "a flow with no token shows no pid: {line}");
}

#[test]
fn log_line_shows_the_app_name_and_which_source_named_it() {
    let by_id = FlowInfo {
        app: Some(AppId {
            name: "com.digiexam.macos.NetworkExtensions".into(),
            source: "id",
        }),
        pid: Some(3312),
        ..sample()
    }
    .log_line(Action::Allow);
    assert!(by_id.contains("app=com.digiexam.macos.NetworkExtensions(id)"), "{by_id}");
    assert!(by_id.contains("pid=3312"), "{by_id}");

    // The path form is what a raw-socket client like curl produces, and a rule written
    // against the identifier form would silently never match it — hence the suffix.
    let by_path = FlowInfo {
        app: Some(AppId { name: "/usr/bin/curl".into(), source: "path" }),
        pid: Some(4711),
        ..sample()
    }
    .log_line(Action::Drop);
    assert!(by_path.contains("app=/usr/bin/curl(path)"), "{by_path}");
}

#[test]
fn log_lines_have_fixed_columns() {
    let line = sample().log_line(Action::Allow);
    assert_eq!(line, "allow TCP  IPv6 2606:4700::1:443 host=example.com  app=<none> pid=-");

    let udp = FlowInfo {
        family: AddressFamily::V4,
        protocol: TransportProtocol::Udp,
        remote_host: Some("93.184.216.34".into()),
        remote_port: Some(53),
        hostname: None,
        app: Some(AppId { name: "/usr/bin/curl".into(), source: "path" }),
        pid: Some(4711),
        ..sample()
    };
    // The best destination is the address itself, so it is not repeated.
    assert_eq!(
        udp.log_line(Action::Drop),
        "drop  UDP  IPv4 93.184.216.34:53  app=/usr/bin/curl(path) pid=4711"
    );

    let odd = FlowInfo {
        family: AddressFamily::Other(0),
        protocol: TransportProtocol::Other(-1),
        remote_port: None,
        ..sample()
    };
    assert_eq!(
        odd.log_line(Action::Drop),
        "drop  proto(-1) AF(0) (endpoint not yet known)            app=<none> pid=-"
    );
}

#[test]
fn the_columns_of_the_sample_lines_line_up() {
    let named = FlowInfo {
        family: AddressFamily::V4,
        remote_host: Some("93.184.216.34".into()),
        app: Some(AppId {
            name: "com.digiexam.macos.NetworkExtensions".into(),
            source: "id",
        }),
        pid: Some(3312),
        ..sample()
    };
    assert_eq!(
        named.log_line(Action::Allow),
        "allow TCP  IPv4 93.184.216.34:443 host=example.com  \
         app=com.digiexam.macos.NetworkExtensions(id) pid=3312"
    );
    let curl = FlowInfo {
        app: Some(AppId { name: "/usr/bin/curl".into(), source: "path" }),
        pid: Some(4711),
        ..named
    };
    assert_eq!(
        curl.log_line(Action::Drop),
        "drop  TCP  IPv4 93.184.216.34:443 host=example.com  app=/usr/bin/curl(path) pid=4711"
    );
    let pending = FlowInfo {
        ts_ms: 0,
        family: AddressFamily::V6,
        protocol: TransportProtocol::Udp,
        remote_host: None,
        remote_port: None,
        hostname: None,
        url_host: None,
        app: None,
        pid: None,
    };
    assert_eq!(
        pending.log_line(Action::Drop),
        "drop  UDP  IPv6 (endpoint not yet known)            app=<none> pid=-"
    );
}

#[test]
fn unrecognised_numbers_show_in_the_labels() {
    assert_eq!(AddressFamily::from_raw(-2).label(), "AF(-2)");
    assert_eq!(TransportProtocol::from_raw(1).label(), "proto(1)");
    assert_ne!(AddressFamily::from_raw(31).label(), AddressFamily::from_raw(30).label());
}

#[test]
fn the_url_host_is_the_best_destination() {
    let webkit = FlowInfo { url_host: Some("exam.example.com".into()), ..sample() };
    assert_eq!(webkit.best_destination(), Some("exam.example.com"));
    assert!(webkit.log_line(Action::Allow).contains("host=exam.example.com"));
}

#[test]
fn labels_show_unexpected_raw_values() {
    assert_eq!(AddressFamily::V4.label(), "IPv4");
    assert_eq!(AddressFamily::V6.label(), "IPv6");
    assert_eq!(AddressFamily::Other(32).label(), "AF(32)");
    assert_eq!(AddressFamily::Other(i32::MIN).label(), "AF(-2147483648)");
    assert_eq!(TransportProtocol::Tcp.label(), "TCP");
    assert_eq!(TransportProtocol::Udp.label(), "UDP");
    assert_eq!(TransportProtocol::Other(132).label(), "proto(132)");
}

#[test]
fn ports_are_read_like_numbers() {
    assert_eq!(parse_port("443"), Some(443));
    assert_eq!(parse_port("0"), Some(0));
    assert_eq!(parse_port("65535"), Some(65535));
    assert_eq!(parse_port("65536"), None);
    assert_eq!(parse_port("99999999999999999999"), None);
    assert_eq!(parse_port("000000000000000080"), Some(80));
    for text in ["", "+", "-", "-1", "+80", "++80", "80 ", " 80", "8_0", "0x50", "\u{664}\u{664}"] {
        assert_eq!(parse_port(text), text.parse::<u16>().ok(), "{text:?}");
    }
}

fn observed(endpoint: Option<(&str, &str)>, hostname: Option<&str>) -> ObservedFlow {
    ObservedFlow {
        socket: Some(SocketFlow {
            family: 2,
            protocol: 17,
            remote_endpoint: endpoint.map(|(hostname, port)| HostEndpoint {
                hostname: hostname.into(),
                port: port.into(),
            }),
            remote_hostname: hostname.map(Into::into),
        }),
        url_host: Some("".into()),
        source: FlowSource {
            app_identifier: None,
            app_audit_token: None,
            process_audit_token: {
                let mut token = vec![0u8; 32];
                token[20] = 42;
                Some(token)
            },
        },
    }
}

#[test]
fn an_observed_socket_flow_becomes_an_info() {
    let lookup = Some(PathLookup { written: 13, buffer: b"/usr/bin/curl".to_vec() });
    let info = info_for(&observed(Some(("192.0.2.1", "53")), Some("dns.example")), lookup, Some(5));
    let expected = FlowInfo {
        ts_ms: 5,
        family: AddressFamily::V4,
        protocol: TransportProtocol::Udp,
        remote_host: Some("192.0.2.1".into()),
        remote_port: Some(53),
        hostname: Some("dns.example".into()),
        url_host: None,
        app: Some(AppId { name: "/usr/bin/curl".into(), source: "path" }),
        pid: Some(42),
    };
    assert_eq!(info, expected);
    assert_eq!(info.clone(), expected);
}

#[test]
fn empty_fields_of_an_observed_flow_become_none() {
    let info = info_for(&observed(Some(("", "https")), Some("")), None, None);
    assert_eq!(info.remote_host, None);
    assert_eq!(info.remote_port, None);
    assert_eq!(info.hostname, None);
    assert_eq!(info.app, None);
    assert_eq!(info.ts_ms, 0);
    let info = info_for(&observed(None, None), None, None);
    assert_eq!((info.remote_host, info.remote_port, info.hostname), (None, None, None));
}

#[test]
fn a_flow_that_is_no_socket_flow_is_reported_as_such() {
    let flow = ObservedFlow { socket: None, url_host: Some("a.example".into()), ..observed(None, None) };
    let info = info_for(&flow, None, Some(1));
    assert_eq!(info.family, AddressFamily::Other(0));
    assert_eq!(info.protocol, TransportProtocol::Other(0));
    assert_eq!(info.best_destination(), Some("a.example"));
}

#[test]
fn endpoints_split_into_host_and_port() {
    let flow = observed(Some(("::1", "8080")), None);
    let parts = remote_endpoint_parts(flow.socket.as_ref().unwrap());
    assert_eq!(parts, (Some("::1".to_string()), Some(8080)));
}

#[test]
fn timestamps_are_the_low_bits_of_the_clock() {
    assert_eq!(now_ms(Some(1_700_000_000_000)), 1_700_000_000_000);
    assert_eq!(now_ms(None), 0);
    let wide: u128 = (1u128 << 64) + 3;
    assert_eq!(now_ms(Some(wide)), wide as u64);
}
