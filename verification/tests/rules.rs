use content_filter::attribution::AppId;
use content_filter::flow::{AddressFamily, FlowInfo, TransportProtocol};
use content_filter::rules::{
    current, host_matches, reload, Action, ActiveRules, FamilyMatch, ProtocolMatch, Rule, RuleSet,
    RULES_PATH,
};

fn flow(host: Option<&str>, port: Option<u16>) -> FlowInfo {
    FlowInfo {
        ts_ms: 0,
        family: AddressFamily::V4,
        protocol: TransportProtocol::Tcp,
        remote_host: host.map(Into::into),
        remote_port: port,
        hostname: None,
        url_host: None,
        app: None,
        pid: None,
    }
}

fn flow_from(app: &str, host: Option<&str>) -> FlowInfo {
    FlowInfo {
        app: Some(AppId { name: app.into(), source: "id" }),
        ..flow(host, Some(443))
    }
}

fn set(default_action: Action, rules: Vec<Rule>) -> RuleSet {
    RuleSet { default_action, rules }
}

/// A rule with only the fields relevant to a given test filled in; everything else `None`.
fn rule(action: Action) -> Rule {
    Rule {
        action,
        app: None,
        host: None,
        ip: None,
        port: None,
        protocol: None,
        family: None,
        comment: None,
    }
}

#[test]
fn falls_through_to_the_default_action() {
    let s = set(Action::Drop, vec![Rule { host: Some("example.com".into()), ..rule(Action::Allow) }]);
    assert_eq!(s.decide(&flow(Some("other.com"), Some(443))), Action::Drop);
}

#[test]
fn exact_host_match() {
    let s = set(Action::Allow, vec![Rule { host: Some("example.com".into()), ..rule(Action::Drop) }]);
    assert_eq!(s.decide(&flow(Some("example.com"), None)), Action::Drop);
    assert_eq!(s.decide(&flow(Some("notexample.com"), None)), Action::Allow);
    // An exact rule must not catch subdomains; that is what the dot form is for.
    assert_eq!(s.decide(&flow(Some("www.example.com"), None)), Action::Allow);
}

#[test]
fn suffix_match_covers_the_apex_and_subdomains() {
    let s = set(Action::Allow, vec![Rule { host: Some(".example.com".into()), ..rule(Action::Drop) }]);
    assert_eq!(s.decide(&flow(Some("example.com"), None)), Action::Drop);
    assert_eq!(s.decide(&flow(Some("www.example.com"), None)), Action::Drop);
    assert_eq!(s.decide(&flow(Some("a.b.example.com"), None)), Action::Drop);
    // Must not match a domain that merely ends with the same letters.
    assert_eq!(s.decide(&flow(Some("notexample.com"), None)), Action::Allow);
}

#[test]
fn host_matching_ignores_case() {
    let s = set(Action::Allow, vec![Rule { host: Some("Example.COM".into()), ..rule(Action::Drop) }]);
    assert_eq!(s.decide(&flow(Some("EXAMPLE.com"), None)), Action::Drop);
}

#[test]
fn port_only_rules_match_any_host() {
    let s = set(Action::Allow, vec![Rule { port: Some(22), ..rule(Action::Drop) }]);
    assert_eq!(s.decide(&flow(Some("anything"), Some(22))), Action::Drop);
    assert_eq!(s.decide(&flow(None, Some(22))), Action::Drop);
    assert_eq!(s.decide(&flow(Some("anything"), Some(443))), Action::Allow);
}

#[test]
fn host_and_port_are_anded() {
    let s = set(
        Action::Allow,
        vec![Rule { host: Some("example.com".into()), port: Some(443), ..rule(Action::Drop) }],
    );
    assert_eq!(s.decide(&flow(Some("example.com"), Some(443))), Action::Drop);
    assert_eq!(s.decide(&flow(Some("example.com"), Some(80))), Action::Allow);
}

#[test]
fn first_match_wins() {
    let s = set(
        Action::Drop,
        vec![
            Rule { host: Some("example.com".into()), ..rule(Action::Allow) },
            Rule { host: Some("example.com".into()), ..rule(Action::Drop) },
        ],
    );
    assert_eq!(s.decide(&flow(Some("example.com"), None)), Action::Allow);
}

#[test]
fn a_flow_with_no_destination_yet_never_matches_a_host_rule() {
    // remoteEndpoint is documented as possibly nil at handleNewFlow: time. Such a flow must
    // fall through to the default action rather than be caught by a host rule it was never
    // shown to match.
    let s = set(Action::Allow, vec![Rule { host: Some("example.com".into()), ..rule(Action::Drop) }]);
    assert_eq!(s.decide(&flow(None, None)), Action::Allow);
}

#[test]
fn host_rules_see_the_best_destination_not_just_the_ip() {
    // A rule written against a hostname must match a flow whose remote_host is an IP literal
    // but which carries a real hostname alongside it.
    let s = set(Action::Allow, vec![Rule { host: Some("example.com".into()), ..rule(Action::Drop) }]);
    let f = FlowInfo {
        hostname: Some("example.com".into()),
        ..flow(Some("93.184.216.34"), Some(443))
    };
    assert_eq!(s.decide(&f), Action::Drop);
}

#[test]
fn a_missing_file_reports_the_path() {
    let read = Err("No such file or directory (os error 2)".to_string());
    let err = RuleSet::load("/nonexistent/digiexam/rules.json", read).unwrap_err();
    assert!(err.contains("/nonexistent/digiexam/rules.json"), "got: {err}");
}

#[test]
fn app_matcher_requires_a_named_flow() {
    let s = set(
        Action::Drop,
        vec![Rule { app: Some("com.digiexam.macos.NetworkExtensions".into()), ..rule(Action::Allow) }],
    );
    // A flow attribution could not name falls through to the default — which, in an
    // allowlist, means it is refused rather than quietly admitted.
    assert_eq!(s.decide(&flow(None, None)), Action::Drop);
    assert_eq!(
        s.decide(&flow_from("com.digiexam.macos.NetworkExtensions", None)),
        Action::Allow
    );
}

#[test]
fn app_matcher_rejects_a_different_app() {
    let s = set(
        Action::Drop,
        vec![Rule { app: Some("com.digiexam.macos.NetworkExtensions".into()), ..rule(Action::Allow) }],
    );
    assert_eq!(s.decide(&flow_from("com.apple.Safari", None)), Action::Drop);
}

#[test]
fn app_matcher_compares_the_whole_name_not_a_prefix() {
    // A near-miss must not match: "…NetworkExtensions.ContentFilter" is a different process
    // from "…NetworkExtensions", and prefix matching here would admit the wrong one.
    let s = set(
        Action::Drop,
        vec![Rule { app: Some("com.digiexam.macos.NetworkExtensions".into()), ..rule(Action::Allow) }],
    );
    assert_eq!(
        s.decide(&flow_from("com.digiexam.macos.NetworkExtensions.ContentFilter", None)),
        Action::Drop
    );
}

#[test]
fn app_matcher_works_for_a_path_named_flow() {
    // Raw-socket clients are named by executable path, so a rule can be written that way too.
    let s = set(Action::Drop, vec![Rule { app: Some("/usr/bin/curl".into()), ..rule(Action::Allow) }]);
    let curl = FlowInfo {
        app: Some(AppId { name: "/usr/bin/curl".into(), source: "path" }),
        ..flow(None, None)
    };
    assert_eq!(s.decide(&curl), Action::Allow);
}

#[test]
fn app_and_host_together_key_the_rule_on_both() {
    // The crux of the allowlist: same destination, different verdict depending on who asked.
    let s = set(
        Action::Drop,
        vec![Rule {
            app: Some("com.digiexam.macos.NetworkExtensions".into()),
            host: Some(".digiexam.com".into()),
            ..rule(Action::Allow)
        }],
    );
    assert_eq!(
        s.decide(&flow_from("com.digiexam.macos.NetworkExtensions", Some("exam.digiexam.com"))),
        Action::Allow
    );
    assert_eq!(
        s.decide(&flow_from("com.apple.Safari", Some("exam.digiexam.com"))),
        Action::Drop,
        "same destination, different app"
    );
    assert_eq!(
        s.decide(&flow_from("com.digiexam.macos.NetworkExtensions", Some("google.com"))),
        Action::Drop,
        "same app, different destination"
    );
}

#[test]
fn ip_matcher_is_an_exact_literal_match() {
    let s = set(Action::Drop, vec![Rule { ip: Some("93.184.216.34".into()), ..rule(Action::Allow) }]);
    assert_eq!(s.decide(&flow(Some("93.184.216.34"), None)), Action::Allow);
    assert_eq!(s.decide(&flow(Some("93.184.216.35"), None)), Action::Drop);
    assert_eq!(s.decide(&flow(None, None)), Action::Drop, "no address at all must not match");
}

#[test]
fn ip_matcher_works_for_ipv6_literals_too() {
    let s = set(Action::Drop, vec![Rule { ip: Some("2606:4700::1".into()), ..rule(Action::Allow) }]);
    assert_eq!(s.decide(&flow(Some("2606:4700::1"), None)), Action::Allow);
}

#[test]
fn family_matcher_distinguishes_v4_from_v6() {
    let v6_only = set(Action::Allow, vec![Rule { family: Some(FamilyMatch::V6), ..rule(Action::Drop) }]);
    assert_eq!(v6_only.decide(&FlowInfo { family: AddressFamily::V6, ..flow(None, None) }), Action::Drop);
    assert_eq!(v6_only.decide(&FlowInfo { family: AddressFamily::V4, ..flow(None, None) }), Action::Allow);
}

#[test]
fn family_matcher_never_matches_an_unrecognised_family() {
    let v4_only = set(Action::Allow, vec![Rule { family: Some(FamilyMatch::V4), ..rule(Action::Drop) }]);
    let weird = FlowInfo { family: AddressFamily::Other(0), ..flow(None, None) };
    assert_eq!(v4_only.decide(&weird), Action::Allow, "an unrecognised family falls through, it doesn't match either side");
}

#[test]
fn protocol_matcher_distinguishes_tcp_from_udp() {
    let udp_only = set(Action::Allow, vec![Rule { protocol: Some(ProtocolMatch::Udp), ..rule(Action::Drop) }]);
    assert_eq!(udp_only.decide(&FlowInfo { protocol: TransportProtocol::Udp, ..flow(None, None) }), Action::Drop);
    assert_eq!(udp_only.decide(&FlowInfo { protocol: TransportProtocol::Tcp, ..flow(None, None) }), Action::Allow);
}

#[test]
fn a_quic_style_udp_443_block_does_not_touch_tcp_443() {
    // The concrete case from the seed rules: block UDP/443 (QUIC) without touching ordinary
    // TLS-over-TCP on the same port.
    let s = set(
        Action::Allow,
        vec![Rule { protocol: Some(ProtocolMatch::Udp), port: Some(443), ..rule(Action::Drop) }],
    );
    assert_eq!(
        s.decide(&FlowInfo { protocol: TransportProtocol::Udp, ..flow(None, Some(443)) }),
        Action::Drop
    );
    assert_eq!(
        s.decide(&FlowInfo { protocol: TransportProtocol::Tcp, ..flow(None, Some(443)) }),
        Action::Allow
    );
}

#[test]
fn a_drop_default_without_rules_drops() {
    let seed = set(Action::Drop, vec![]);
    assert_eq!(seed.decide(&flow(Some("example.com"), Some(443))), Action::Drop);
}

#[test]
fn a_rule_without_matchers_matches_everything() {
    let s = set(Action::Drop, vec![rule(Action::Allow)]);
    assert_eq!(s.decide(&flow(None, None)), Action::Allow);
    assert_eq!(s.decide(&flow_from("com.apple.Safari", Some("example.com"))), Action::Allow);
}

#[test]
fn one_app_rule_covers_both_reports_of_the_app() {
    let s = set(
        Action::Drop,
        vec![Rule {
            app: Some("com.digiexam.macos.NetworkExtensions".into()),
            host: Some(".example.com".into()),
            ..rule(Action::Allow)
        }],
    );
    let own = flow_from("73T9H7VE4P.com.digiexam.macos.NetworkExtensions", Some("example.com"));
    let webview = flow_from(".com.digiexam.macos.NetworkExtensions", Some("www.example.com"));
    assert_eq!(s.decide(&own), Action::Allow);
    assert_eq!(s.decide(&webview), Action::Allow);
    // The bundle identifier of another team's report of another app does not match.
    assert_eq!(s.decide(&flow_from("com.digiexam.Other", Some("example.com"))), Action::Drop);
}

#[test]
fn the_documented_seed_admits_resolution_and_one_destination() {
    let seed = set(
        Action::Drop,
        vec![
            Rule { port: Some(53), comment: Some("DNS".into()), ..rule(Action::Allow) },
            Rule { protocol: Some(ProtocolMatch::Udp), port: Some(67), ..rule(Action::Allow) },
            Rule {
                app: Some("com.digiexam.macos.NetworkExtensions".into()),
                host: Some(".example.com".into()),
                ..rule(Action::Allow)
            },
        ],
    );
    let app = ".com.digiexam.macos.NetworkExtensions";
    assert_eq!(seed.decide(&flow(None, Some(53))), Action::Allow);
    assert_eq!(seed.decide(&flow(None, Some(67))), Action::Drop, "DHCP is UDP");
    let dhcp = FlowInfo { protocol: TransportProtocol::Udp, ..flow(None, Some(67)) };
    assert_eq!(seed.decide(&dhcp), Action::Allow);
    assert_eq!(seed.decide(&flow_from(app, Some("www.example.com"))), Action::Allow);
    assert_eq!(seed.decide(&flow_from(app, Some("google.com"))), Action::Drop);
    assert_eq!(seed.decide(&flow_from(".com.apple.Safari", Some("example.com"))), Action::Drop);
    let v6 = FlowInfo { family: AddressFamily::V6, ..flow_from(app, Some("example.com")) };
    assert_eq!(seed.decide(&v6), Action::Allow);
}

#[test]
fn ip_matching_ignores_case() {
    let s = set(Action::Drop, vec![Rule { ip: Some("2001:DB8::A".into()), ..rule(Action::Allow) }]);
    assert_eq!(s.decide(&flow(Some("2001:db8::a"), None)), Action::Allow);
    // The address is compared, not the best destination.
    let named = FlowInfo { hostname: Some("2001:db8::a".into()), ..flow(Some("::1"), None) };
    assert_eq!(s.decide(&named), Action::Drop);
}

#[test]
fn port_rules_need_a_known_port() {
    let s = set(Action::Drop, vec![Rule { port: Some(0), ..rule(Action::Allow) }]);
    assert_eq!(s.decide(&flow(None, None)), Action::Drop);
    assert_eq!(s.decide(&flow(None, Some(0))), Action::Allow);
}

#[test]
fn protocol_matcher_never_matches_an_unrecognised_protocol() {
    for wanted in [ProtocolMatch::Tcp, ProtocolMatch::Udp] {
        let s = set(Action::Allow, vec![Rule { protocol: Some(wanted), ..rule(Action::Drop) }]);
        let icmp = FlowInfo { protocol: TransportProtocol::Other(1), ..flow(None, None) };
        assert_eq!(s.decide(&icmp), Action::Allow);
    }
}

#[test]
fn host_patterns_at_their_edges() {
    assert!(host_matches(".", ""));
    assert!(host_matches(".", "anything."));
    assert!(!host_matches(".", "anything"));
    assert!(host_matches("", ""));
    assert!(!host_matches("", "example.com"));
    assert!(host_matches(".example.com", ".example.com"));
    assert!(host_matches(".EXAMPLE.com", "www.Example.COM"));
    assert!(!host_matches(".example.com", "example.com."));
    assert!(!host_matches(".example.com", "ample.com"));
    // Only ASCII letters fold.
    assert!(!host_matches("\u{c9}.example", "\u{e9}.example"));
    assert!(host_matches("\u{e9}.example", "\u{e9}.EXAMPLE"));
}

#[test]
fn a_drop_rule_ahead_of_an_allow_rule_blocks_one_family() {
    let s = set(
        Action::Drop,
        vec![
            Rule { family: Some(FamilyMatch::V6), ..rule(Action::Drop) },
            Rule { host: Some(".example.com".into()), ..rule(Action::Allow) },
        ],
    );
    let v4 = flow(Some("example.com"), Some(443));
    assert_eq!(s.decide(&v4), Action::Allow);
    assert_eq!(s.decide(&FlowInfo { family: AddressFamily::V6, ..v4 }), Action::Drop);
}

#[test]
fn a_clone_decides_alike() {
    let s = set(
        Action::Allow,
        vec![Rule { comment: Some("no ssh".into()), port: Some(22), ..rule(Action::Drop) }],
    );
    let c = s.clone();
    assert_eq!(c.rules.len(), 1);
    assert_eq!(c.rules[0].comment.as_deref(), Some("no ssh"));
    assert_eq!(c.decide(&flow(None, Some(22))), Action::Drop);
    assert_eq!(c.decide(&flow(None, Some(23))), Action::Allow);
}

#[test]
fn action_labels() {
    assert_eq!(Action::Allow.label(), "allow");
    assert_eq!(Action::Drop.label(), "drop");
    assert_eq!(RuleSet::allow_everything().decide(&flow(None, None)), Action::Allow);
}

#[test]
fn a_loaded_set_replaces_the_one_in_force() {
    let mut active = ActiveRules::new();
    assert_eq!(current(&active).decide(&flow(None, None)), Action::Allow);
    let loaded = RuleSet::load(RULES_PATH, Ok(set(Action::Drop, vec![rule(Action::Drop)])));
    let message = reload(&mut active, loaded);
    assert_eq!(
        message,
        "rules: loaded 1 rule(s), default=drop from /Users/Shared/Digiexam/rules.json"
    );
    assert_eq!(current(&active).decide(&flow(None, None)), Action::Drop);
}

#[test]
fn a_failed_load_keeps_the_set_in_force() {
    let mut active = ActiveRules::new();
    let message = reload(&mut active, Err("first".to_string()));
    assert!(message.starts_with("rules: COULD NOT LOAD (first); keeping 0 rule(s), default=allow."));
    assert_eq!(current(&active).decide(&flow(None, None)), Action::Allow);

    let rules = (0..12).map(|_| rule(Action::Drop)).collect();
    reload(&mut active, Ok(set(Action::Drop, rules)));
    let loaded = RuleSet::load("/rules.json", Err("unknown field `hosts`".to_string()));
    let message = reload(&mut active, loaded);
    assert_eq!(
        message,
        "rules: COULD NOT LOAD (/rules.json: unknown field `hosts`); keeping 12 rule(s), \
         default=drop. This fallback fails OPEN by design \u{2014} see rules.rs's module doc."
    );
    assert_eq!(current(&active).decide(&flow(None, None)), Action::Drop);
}
