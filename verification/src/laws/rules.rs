//! Laws of the allow/drop decision.

use vstd::prelude::*;
use crate::flow::{AddressFamily, Flow, FlowInfo, TransportProtocol};
use crate::rules::{
    Action, ActiveRules, FamilyMatch, Policy, ProtocolMatch, Rule, RuleModel, RuleSet,
};

verus! {

/// A rule that has no matcher at all.
pub open spec fn catch_all(rule: RuleModel) -> bool {
    &&& rule.app is None
    &&& rule.host is None
    &&& rule.ip is None
    &&& rule.port is None
    &&& rule.protocol is None
    &&& rule.family is None
}

proof fn lemma_decision_of_first_match(policy: Policy, flow: Flow, i: int)
    requires
        policy.first_match(flow, i),
    ensures
        policy.decision(flow) == policy.rules[i].action,
{
    let k = choose|k: int| policy.first_match(flow, k);
    assert(policy.first_match(flow, k));
    if k < i {
        assert(!policy.rules[k].matches_flow(flow));
    } else if i < k {
        assert(!policy.rules[i].matches_flow(flow));
    }
}

/// Some rule is the first match as soon as any rule matches.
proof fn lemma_some_first_match(policy: Policy, flow: Flow, i: int) -> (first: int)
    requires
        0 <= i < policy.rules.len(),
        policy.rules[i].matches_flow(flow),
    ensures
        policy.first_match(flow, first),
        first <= i,
    decreases i,
{
    if exists|j: int| 0 <= j < i && (#[trigger] policy.rules[j]).matches_flow(flow) {
        let j = choose|j: int| 0 <= j < i && (#[trigger] policy.rules[j]).matches_flow(flow);
        lemma_some_first_match(policy, flow, j)
    } else {
        i
    }
}

/// The first rule that matches a flow decides it, whatever stands behind that rule.
pub proof fn law_first_match_wins(policy: Policy, flow: Flow, i: int)
    requires
        policy.first_match(flow, i),
    ensures
        policy.decision(flow) == policy.rules[i].action,
{
    lemma_decision_of_first_match(policy, flow, i);
}

/// A flow that no rule matches gets the default action.
pub proof fn law_no_match_falls_through_to_the_default(policy: Policy, flow: Flow)
    requires
        policy.no_match(flow),
    ensures
        policy.decision(flow) == policy.default_action,
{
}

/// Under an allowlist a flow is allowed only if a rule that allows matches it: a flow that nothing
/// admits is dropped.
pub proof fn law_an_allowlist_admits_only_what_a_rule_allows(policy: Policy, flow: Flow)
    requires
        policy.default_action == Action::Drop,
        policy.decision(flow) == Action::Allow,
    ensures
        exists|i: int|
            0 <= i < policy.rules.len() && (#[trigger] policy.rules[i]).action == Action::Allow
                && policy.rules[i].matches_flow(flow),
{
    let i = choose|i: int| policy.first_match(flow, i);
    assert(policy.first_match(flow, i));
    assert(policy.rules[i].action == Action::Allow);
}

/// An allowlist all of whose rules name an app drops every flow whose app could not be named.
pub proof fn law_an_unnamed_flow_is_refused(policy: Policy, flow: Flow)
    requires
        policy.default_action == Action::Drop,
        forall|i: int| 0 <= i < policy.rules.len() ==> (#[trigger] policy.rules[i]).app is Some,
        flow.app is None,
    ensures
        policy.decision(flow) == Action::Drop,
{
    if policy.decision(flow) == Action::Allow {
        law_an_allowlist_admits_only_what_a_rule_allows(policy, flow);
    }
}

/// A matcher that cannot be evaluated does not match: no app name, no destination, no address, no
/// port, a family or protocol that is neither of the two a rule can ask for.
pub proof fn law_what_is_not_known_does_not_match(rule: RuleModel, flow: Flow)
    ensures
        rule.app is Some && flow.app is None ==> !rule.matches_flow(flow),
        rule.host is Some && flow.best_destination() is None ==> !rule.matches_flow(flow),
        rule.ip is Some && flow.remote_host is None ==> !rule.matches_flow(flow),
        rule.port is Some && flow.remote_port is None ==> !rule.matches_flow(flow),
        rule.family is Some && flow.family is Other ==> !rule.matches_flow(flow),
        rule.protocol is Some && flow.protocol is Other ==> !rule.matches_flow(flow),
{
}

/// A rule without matchers matches every flow, and decides every flow that no rule before it
/// matches: the default is never reached behind it.
pub proof fn law_a_rule_without_matchers_matches_everything(policy: Policy, flow: Flow, i: int)
    requires
        0 <= i < policy.rules.len(),
        catch_all(policy.rules[i]),
    ensures
        policy.rules[i].matches_flow(flow),
        exists|k: int|
            0 <= k <= i && policy.first_match(flow, k) && policy.decision(flow)
                == (#[trigger] policy.rules[k]).action,
{
    let k = lemma_some_first_match(policy, flow, i);
    lemma_decision_of_first_match(policy, flow, k);
    assert(policy.rules[k].action == policy.decision(flow));
}

/// Matchers are ANDed: a rule matches exactly the flows that each of its matchers matches when it
/// stands alone.
pub proof fn law_matchers_are_anded(rule: RuleModel, flow: Flow)
    ensures
        ({
            let bare = RuleModel {
                action: rule.action,
                app: None,
                host: None,
                ip: None,
                port: None,
                protocol: None,
                family: None,
                comment: rule.comment,
            };
            rule.matches_flow(flow) <==> {
                &&& (RuleModel { app: rule.app, ..bare }).matches_flow(flow)
                &&& (RuleModel { host: rule.host, ..bare }).matches_flow(flow)
                &&& (RuleModel { ip: rule.ip, ..bare }).matches_flow(flow)
                &&& (RuleModel { port: rule.port, ..bare }).matches_flow(flow)
                &&& (RuleModel { protocol: rule.protocol, ..bare }).matches_flow(flow)
                &&& (RuleModel { family: rule.family, ..bare }).matches_flow(flow)
            }
        }),
{
}

/// A rule that loses one of its matchers matches at least what it matched before. This is why a
/// mistyped matcher must not be read as an absent one.
pub proof fn law_dropping_a_matcher_widens_the_rule(rule: RuleModel, flow: Flow)
    requires
        rule.matches_flow(flow),
    ensures
        (RuleModel { app: None, ..rule }).matches_flow(flow),
        (RuleModel { host: None, ..rule }).matches_flow(flow),
        (RuleModel { ip: None, ..rule }).matches_flow(flow),
        (RuleModel { port: None, ..rule }).matches_flow(flow),
        (RuleModel { protocol: None, ..rule }).matches_flow(flow),
        (RuleModel { family: None, ..rule }).matches_flow(flow),
{
}

/// The allowlist of one app and one destination: a flow is allowed exactly when that app opened it
/// and it goes to that destination. Nobody else reaches the destination, and the app reaches
/// nothing else.
pub proof fn law_one_app_reaches_one_destination(
    app: Seq<char>,
    host: Seq<char>,
    comment: Option<Seq<char>>,
    flow: Flow,
)
    ensures
        ({
            let rule = RuleModel {
                action: Action::Allow,
                app: Some(app),
                host: Some(host),
                ip: None,
                port: None,
                protocol: None,
                family: None,
                comment,
            };
            let policy = Policy { default_action: Action::Drop, rules: seq![rule] };
            policy.decision(flow) == Action::Allow <==> {
                &&& flow.app matches Some(name) && name.matches_rule(app)
                &&& flow.best_destination() matches Some(dest)
                    && crate::rules::host_matches_spec(host, dest)
            }
        }),
{
    let rule = RuleModel {
        action: Action::Allow,
        app: Some(app),
        host: Some(host),
        ip: None,
        port: None,
        protocol: None,
        family: None,
        comment,
    };
    let policy = Policy { default_action: Action::Drop, rules: seq![rule] };
    assert(policy.rules[0] == rule);
    if rule.matches_flow(flow) {
        assert(policy.first_match(flow, 0));
        lemma_decision_of_first_match(policy, flow, 0);
    } else {
        assert(policy.no_match(flow));
    }
}

/// The shape of the seed rules: name resolution (port 53) and address assignment (UDP port 67) for
/// everyone, one destination for one app, and nothing else.
pub proof fn law_the_seed_admits_resolution_and_one_destination(
    app: Seq<char>,
    host: Seq<char>,
    rules: Seq<RuleModel>,
    flow: Flow,
)
    requires
        rules.len() == 3,
        rules[0] == (RuleModel {
            action: Action::Allow,
            app: None,
            host: None,
            ip: None,
            port: Some(53),
            protocol: None,
            family: None,
            comment: rules[0].comment,
        }),
        rules[1] == (RuleModel {
            action: Action::Allow,
            app: None,
            host: None,
            ip: None,
            port: Some(67),
            protocol: Some(crate::rules::ProtocolMatch::Udp),
            family: None,
            comment: rules[1].comment,
        }),
        rules[2] == (RuleModel {
            action: Action::Allow,
            app: Some(app),
            host: Some(host),
            ip: None,
            port: None,
            protocol: None,
            family: None,
            comment: rules[2].comment,
        }),
    ensures
        (Policy { default_action: Action::Drop, rules }).decision(flow) == Action::Allow <==> {
            ||| flow.remote_port == Some(53u16)
            ||| flow.remote_port == Some(67u16) && flow.protocol == TransportProtocol::Udp
            ||| {
                &&& flow.app matches Some(name) && name.matches_rule(app)
                &&& flow.best_destination() matches Some(dest)
                    && crate::rules::host_matches_spec(host, dest)
            }
        },
{
    let policy = Policy { default_action: Action::Drop, rules };
    if policy.decision(flow) == Action::Allow {
        law_an_allowlist_admits_only_what_a_rule_allows(policy, flow);
    } else {
        assert forall|i: int| 0 <= i < 3 implies !(#[trigger] rules[i]).matches_flow(flow) by {
            if rules[i].matches_flow(flow) {
                let first = lemma_some_first_match(policy, flow, i);
                lemma_decision_of_first_match(policy, flow, first);
                assert(rules[first].action == Action::Allow);
            }
        }
        assert(!rules[0].matches_flow(flow));
        assert(!rules[1].matches_flow(flow));
        assert(!rules[2].matches_flow(flow));
    }
}

/// Nothing but the app, the destination, the address, the port, the protocol and the family of a
/// flow enters the decision: not when it was seen, nor its process id, nor a rule's comment.
pub proof fn law_time_pid_and_comments_do_not_enter_the_decision(
    a: Policy,
    b: Policy,
    flow: Flow,
    ts_ms: u64,
    pid: Option<i32>,
)
    requires
        a.default_action == b.default_action,
        a.rules.len() == b.rules.len(),
        forall|i: int|
            0 <= i < a.rules.len() ==> (#[trigger] a.rules[i]) == (RuleModel {
                comment: a.rules[i].comment,
                ..b.rules[i]
            }),
    ensures
        a.decision(flow) == b.decision(Flow { ts_ms, pid, ..flow }),
{
    let other = Flow { ts_ms, pid, ..flow };
    assert(flow.best_destination() == other.best_destination());
    assert forall|i: int| 0 <= i < a.rules.len() implies (#[trigger] a.rules[i]).matches_flow(flow)
        == b.rules[i].matches_flow(other) by {}
    assert forall|i: int| a.first_match(flow, i) == b.first_match(other, i) by {
        if a.first_match(flow, i) {
            assert forall|j: int| 0 <= j < i implies !(#[trigger] b.rules[j]).matches_flow(
                other,
            ) by {
                assert(!a.rules[j].matches_flow(flow));
            }
        }
        if b.first_match(other, i) {
            assert forall|j: int| 0 <= j < i implies !(#[trigger] a.rules[j]).matches_flow(
                flow,
            ) by {
                assert(!b.rules[j].matches_flow(other));
            }
        }
    }
    if exists|i: int| a.first_match(flow, i) {
        let i = choose|i: int| a.first_match(flow, i);
        assert(b.first_match(other, i));
        lemma_decision_of_first_match(a, flow, i);
        lemma_decision_of_first_match(b, other, i);
    } else {
        assert(!exists|i: int| b.first_match(other, i)) by {
            if exists|i: int| b.first_match(other, i) {
                let i = choose|i: int| b.first_match(other, i);
                assert(a.first_match(flow, i));
            }
        }
    }
}

/// Rules added at the end, and another default, change nothing for a flow that a rule already
/// matches.
pub proof fn law_later_rules_do_not_undo_a_match(
    policy: Policy,
    more: Seq<RuleModel>,
    default_action: Action,
    flow: Flow,
)
    requires
        !policy.no_match(flow),
    ensures
        (Policy { default_action, rules: policy.rules + more }).decision(flow) == policy.decision(
            flow,
        ),
{
    let longer = Policy { default_action, rules: policy.rules + more };
    let i = choose|i: int|
        0 <= i < policy.rules.len() && (#[trigger] policy.rules[i]).matches_flow(flow);
    let first = lemma_some_first_match(policy, flow, i);
    assert(longer.rules[first] == policy.rules[first]);
    assert forall|j: int| 0 <= j < first implies !(#[trigger] longer.rules[j]).matches_flow(
        flow,
    ) by {
        assert(longer.rules[j] == policy.rules[j]);
    }
    assert(longer.first_match(flow, first));
    lemma_decision_of_first_match(policy, flow, first);
    lemma_decision_of_first_match(longer, flow, first);
}

/// A rule without a `family` matcher covers IPv4 and IPv6 alike, and a rule with one covers that
/// family alone.
pub proof fn law_both_families_are_covered(rule: RuleModel, flow: Flow)
    ensures
        rule.family is None ==> (rule.matches_flow(Flow { family: AddressFamily::V4, ..flow })
            <==> rule.matches_flow(Flow { family: AddressFamily::V6, ..flow })),
        rule.family is Some ==> !(rule.matches_flow(Flow { family: AddressFamily::V4, ..flow })
            && rule.matches_flow(Flow { family: AddressFamily::V6, ..flow })),
{
    let v4 = Flow { family: AddressFamily::V4, ..flow };
    let v6 = Flow { family: AddressFamily::V6, ..flow };
    assert(v4.best_destination() == v6.best_destination());
}

/// A rule with a `protocol` matcher touches that protocol alone, whatever port it also names; one
/// without covers TCP and UDP alike.
pub proof fn law_a_protocol_rule_leaves_the_other_protocol_alone(rule: RuleModel, flow: Flow)
    ensures
        rule.protocol is None ==> (rule.matches_flow(
            Flow { protocol: TransportProtocol::Tcp, ..flow },
        ) <==> rule.matches_flow(Flow { protocol: TransportProtocol::Udp, ..flow })),
        rule.protocol is Some ==> !(rule.matches_flow(
            Flow { protocol: TransportProtocol::Tcp, ..flow },
        ) && rule.matches_flow(Flow { protocol: TransportProtocol::Udp, ..flow })),
{
    let tcp = Flow { protocol: TransportProtocol::Tcp, ..flow };
    let udp = Flow { protocol: TransportProtocol::Udp, ..flow };
    assert(tcp.best_destination() == udp.best_destination());
}

/// A leading-dot pattern covers the name behind the dot, and every name that ends with a dot and
/// that name; nothing else. A name that merely ends with the same letters is not covered.
pub proof fn law_a_dot_pattern_covers_the_apex_and_its_subdomains(apex: Seq<char>, host: Seq<char>)
    ensures
        crate::rules::host_matches_spec(seq!['.'] + apex, host) <==> {
            ||| crate::text::lower(host) == crate::text::lower(apex)
            ||| exists|sub: Seq<char>|
                crate::text::lower(host) == #[trigger] (sub + seq!['.'] + crate::text::lower(apex))
        },
{
    let pattern = crate::text::lower(seq!['.'] + apex);
    let low = crate::text::lower(host);
    let low_apex = crate::text::lower(apex);
    assert(pattern =~= seq!['.'] + low_apex);
    assert(pattern.drop_first() =~= low_apex);
    if pattern.is_suffix_of(low) {
        let sub = low.take(low.len() - pattern.len());
        assert(low =~= sub + low.subrange(low.len() - pattern.len(), low.len() as int));
        assert(low =~= sub + seq!['.'] + low_apex);
    }
    if exists|sub: Seq<char>| low == #[trigger] (sub + seq!['.'] + low_apex) {
        let sub = choose|sub: Seq<char>| low == #[trigger] (sub + seq!['.'] + low_apex);
        assert(low.subrange(low.len() - pattern.len(), low.len() as int) =~= pattern);
    }
}

/// A pattern without a leading dot covers its own name alone: no subdomain, no longer name.
pub proof fn law_an_exact_pattern_covers_one_name(pattern: Seq<char>, host: Seq<char>)
    requires
        pattern.len() == 0 || pattern[0] != '.',
    ensures
        crate::rules::host_matches_spec(pattern, host) <==> crate::text::lower(host)
            == crate::text::lower(pattern),
{
}

/// ASCII case never matters to a host pattern.
pub proof fn law_host_matching_ignores_case(
    pattern: Seq<char>,
    other_pattern: Seq<char>,
    host: Seq<char>,
    other_host: Seq<char>,
)
    requires
        crate::text::lower(pattern) == crate::text::lower(other_pattern),
        crate::text::lower(host) == crate::text::lower(other_host),
    ensures
        crate::rules::host_matches_spec(pattern, host) == crate::rules::host_matches_spec(
            other_pattern,
            other_host,
        ),
{
}

/// Before any rules were loaded every flow is allowed.
pub proof fn law_everything_is_allowed_before_the_first_load(flow: Flow)
    ensures
        Policy::allow_everything().decision(flow) == Action::Allow,
{
}

/// The rules in force after a run of loads that started from `before`.
pub open spec fn after_reloads(before: Policy, loads: Seq<Result<RuleSet, String>>) -> Policy
    decreases loads.len(),
{
    if loads.len() == 0 {
        before
    } else {
        crate::rules::after_reload(after_reloads(before, loads.drop_last()), loads.last())
    }
}

/// The rules in force are those of the last load that succeeded, and those from before when none
/// did: a failed load never changes them.
pub proof fn law_the_last_good_load_stays_in_force(
    before: Policy,
    loads: Seq<Result<RuleSet, String>>,
)
    ensures
        (forall|i: int| 0 <= i < loads.len() ==> (#[trigger] loads[i]) is Err) ==> after_reloads(
            before,
            loads,
        ) == before,
        forall|i: int|
            {
                &&& 0 <= i < loads.len()
                &&& (#[trigger] loads[i]) is Ok
                &&& forall|j: int| i < j < loads.len() ==> (#[trigger] loads[j]) is Err
            } ==> after_reloads(before, loads) == loads[i]->Ok_0@,
    decreases loads.len(),
{
    if loads.len() > 0 {
        let init = loads.drop_last();
        law_the_last_good_load_stays_in_force(before, init);
        assert forall|i: int| 0 <= i < init.len() implies #[trigger] init[i] == loads[i] by {}
        if forall|i: int| 0 <= i < loads.len() ==> (#[trigger] loads[i]) is Err {
            assert forall|i: int| 0 <= i < init.len() implies (#[trigger] init[i]) is Err by {
                assert(loads[i] is Err);
            }
            assert(loads[loads.len() - 1] is Err);
        }
        assert forall|i: int|
            {
                &&& 0 <= i < loads.len()
                &&& (#[trigger] loads[i]) is Ok
                &&& forall|j: int| i < j < loads.len() ==> (#[trigger] loads[j]) is Err
            } implies after_reloads(before, loads) == loads[i]->Ok_0@ by {
            if i < loads.len() - 1 {
                assert(loads[loads.len() - 1] is Err);
                assert(init[i] == loads[i]);
                assert forall|j: int| i < j < init.len() implies (#[trigger] init[j]) is Err by {
                    assert(loads[j] is Err);
                }
            }
        }
    }
}

/// A rule whose only matcher is a protocol matches the flows of that protocol and no others; so does
/// a rule whose only matcher is a family, a port, an address, an app or a host.
pub proof fn law_a_lone_matcher_decides_alone(
    flow: Flow,
    action: Action,
    port: u16,
    ip: Seq<char>,
    app: Seq<char>,
    host: Seq<char>,
)
    ensures
        ({
            let bare = RuleModel {
                action,
                app: None,
                host: None,
                ip: None,
                port: None,
                protocol: None,
                family: None,
                comment: None,
            };
            let tcp = RuleModel { protocol: Some(ProtocolMatch::Tcp), ..bare };
            let udp = RuleModel { protocol: Some(ProtocolMatch::Udp), ..bare };
            let v4 = RuleModel { family: Some(FamilyMatch::V4), ..bare };
            let v6 = RuleModel { family: Some(FamilyMatch::V6), ..bare };
            &&& bare.matches_flow(flow)
            &&& tcp.matches_flow(flow) <==> flow.protocol == TransportProtocol::Tcp
            &&& udp.matches_flow(flow) <==> flow.protocol == TransportProtocol::Udp
            &&& v4.matches_flow(flow) <==> flow.family == AddressFamily::V4
            &&& v6.matches_flow(flow) <==> flow.family == AddressFamily::V6
            &&& (RuleModel { port: Some(port), ..bare }).matches_flow(flow) <==> flow.remote_port
                == Some(port)
            &&& (RuleModel { ip: Some(ip), ..bare }).matches_flow(flow) <==> (flow.remote_host
                is Some && crate::laws::text::same_but_for_case(flow.remote_host->0, ip))
            &&& (RuleModel { app: Some(app), ..bare }).matches_flow(flow) <==> (flow.app is Some
                && flow.app->0.matches_rule(app))
            &&& (RuleModel { host: Some(host), ..bare }).matches_flow(flow) <==> ({
                ||| flow.url_host is Some && crate::rules::host_matches_spec(host, flow.url_host->0)
                ||| flow.url_host is None && flow.hostname is Some
                    && crate::rules::host_matches_spec(host, flow.hostname->0)
                ||| flow.url_host is None && flow.hostname is None && flow.remote_host is Some
                    && crate::rules::host_matches_spec(host, flow.remote_host->0)
            })
        }),
{
    if let Some(address) = flow.remote_host {
        crate::laws::text::law_texts_fold_alike(address, ip);
    }
}

/// The matchers themselves: each family and each protocol is matched by its own value and by no
/// other, and a number without a name by none.
pub proof fn law_families_and_protocols_match_their_own(
    family: FamilyMatch,
    of_flow: AddressFamily,
    family_matched: bool,
    protocol: ProtocolMatch,
    spoken: TransportProtocol,
    protocol_matched: bool,
)
    requires
        call_ensures(FamilyMatch::matches, (family, of_flow), family_matched),
        call_ensures(ProtocolMatch::matches, (protocol, spoken), protocol_matched),
    ensures
        family_matched <==> {
            ||| family == FamilyMatch::V4 && of_flow == AddressFamily::V4
            ||| family == FamilyMatch::V6 && of_flow == AddressFamily::V6
        },
        protocol_matched <==> {
            ||| protocol == ProtocolMatch::Tcp && spoken == TransportProtocol::Tcp
            ||| protocol == ProtocolMatch::Udp && spoken == TransportProtocol::Udp
        },
{
}

/// A rule as it is written matches a flow as it is described exactly when each of its matchers that
/// is there agrees with the flow: none is skipped and none is added.
pub proof fn law_a_rule_matches_when_all_its_matchers_agree(
    rule: &Rule,
    flow: &FlowInfo,
    matched: bool,
)
    requires
        call_ensures(Rule::matches, (rule, flow), matched),
    ensures
        matched == rule@.matches_flow(flow@),
        matched <==> {
            &&& rule.app is Some ==> flow.app is Some && flow.app->0@.matches_rule(rule.app->0@)
            &&& rule.host is Some ==> ({
                ||| flow.url_host is Some && crate::rules::host_matches_spec(
                    rule.host->0@,
                    flow.url_host->0@,
                )
                ||| flow.url_host is None && flow.hostname is Some
                    && crate::rules::host_matches_spec(rule.host->0@, flow.hostname->0@)
                ||| flow.url_host is None && flow.hostname is None && flow.remote_host is Some
                    && crate::rules::host_matches_spec(rule.host->0@, flow.remote_host->0@)
            })
            &&& rule.ip is Some ==> flow.remote_host is Some
                && crate::laws::text::same_but_for_case(flow.remote_host->0@, rule.ip->0@)
            &&& rule.port is Some ==> flow.remote_port == rule.port
            &&& rule.protocol == Some(ProtocolMatch::Tcp) ==> flow.protocol
                == TransportProtocol::Tcp
            &&& rule.protocol == Some(ProtocolMatch::Udp) ==> flow.protocol
                == TransportProtocol::Udp
            &&& rule.family == Some(FamilyMatch::V4) ==> flow.family == AddressFamily::V4
            &&& rule.family == Some(FamilyMatch::V6) ==> flow.family == AddressFamily::V6
        },
{
    if rule.ip is Some && flow.remote_host is Some {
        crate::laws::text::law_texts_fold_alike(flow.remote_host->0@, rule.ip->0@);
    }
}

/// A pattern without a leading dot covers the names that differ from it in case at most. A pattern
/// with one covers these of the name behind the dot, and the names that end with the pattern, but
/// for case; nothing else.
pub proof fn law_a_host_pattern_covers_a_name_or_its_ending(
    pattern: &str,
    host: &str,
    matched: bool,
)
    requires
        call_ensures(crate::rules::host_matches, (pattern, host), matched),
    ensures
        matched == crate::rules::host_matches_spec(pattern@, host@),
        (pattern@.len() == 0 || pattern@[0] != '.') ==> (matched
            <==> crate::laws::text::same_but_for_case(pattern@, host@)),
        (pattern@.len() > 0 && pattern@[0] == '.') ==> (matched <==> {
            ||| crate::laws::text::same_but_for_case(pattern@.skip(1), host@)
            ||| pattern@.len() <= host@.len() && crate::laws::text::same_but_for_case(
                pattern@,
                host@.skip(host@.len() - pattern@.len()),
            )
        }),
{
    let low_pattern = crate::text::lower(pattern@);
    let low_host = crate::text::lower(host@);
    crate::laws::text::law_texts_fold_alike(pattern@, host@);
    if pattern@.len() > 0 {
        crate::laws::text::law_folding_joins_the_two_cases_of_a_letter(pattern@[0], '.');
        assert(low_pattern[0] == crate::text::ascii_lower(pattern@[0]));
    }
    if pattern@.len() > 0 && pattern@[0] == '.' {
        assert(low_pattern[0] == '.');
        assert(low_pattern.drop_first() =~= crate::text::lower(pattern@.skip(1)));
        crate::laws::text::law_texts_fold_alike(pattern@.skip(1), host@);
        if pattern@.len() <= host@.len() {
            let end = host@.skip(host@.len() - pattern@.len());
            crate::laws::text::law_texts_fold_alike(pattern@, end);
            assert(low_host.subrange(low_host.len() - low_pattern.len(), low_host.len() as int)
                =~= crate::text::lower(end));
        }
    }
}

/// The first rule of a set that matches a flow decides the flow, and the default action decides a
/// flow that none matches.
pub proof fn law_a_set_is_searched_in_order(
    set: &RuleSet,
    flow: &FlowInfo,
    action: Action,
    i: int,
)
    requires
        call_ensures(RuleSet::decide, (set, flow), action),
    ensures
        (0 <= i < set.rules@.len() && set.rules@[i]@.matches_flow(flow@) && forall|j: int|
            0 <= j < i ==> !(#[trigger] set.rules@[j])@.matches_flow(flow@)) ==> action
            == set.rules@[i].action,
        (forall|j: int|
            0 <= j < set.rules@.len() ==> !(#[trigger] set.rules@[j])@.matches_flow(flow@))
            ==> action == set.default_action,
{
    let policy = set@;
    assert(action == policy.decision(flow@));
    assert forall|j: int| 0 <= j < set.rules@.len() implies #[trigger] policy.rules[j]
        == set.rules@[j]@ by {}
    if 0 <= i < set.rules@.len() && set.rules@[i]@.matches_flow(flow@) && forall|j: int|
        0 <= j < i ==> !(#[trigger] set.rules@[j])@.matches_flow(flow@) {
        assert forall|j: int| 0 <= j < i implies !(#[trigger] policy.rules[j]).matches_flow(
            flow@,
        ) by {
            assert(!set.rules@[j]@.matches_flow(flow@));
        }
        assert(policy.first_match(flow@, i));
        lemma_decision_of_first_match(policy, flow@, i);
        assert(policy.rules[i].action == set.rules@[i].action);
    }
    if forall|j: int|
        0 <= j < set.rules@.len() ==> !(#[trigger] set.rules@[j])@.matches_flow(flow@) {
        assert forall|j: int| 0 <= j < policy.rules.len() implies !(
        #[trigger] policy.rules[j]).matches_flow(flow@) by {
            assert(!set.rules@[j]@.matches_flow(flow@));
        }
        assert(policy.no_match(flow@));
    }
}

/// The same of a policy: the first of its rules that matches decides, else the default action.
pub proof fn law_a_policy_is_searched_in_order(policy: Policy, flow: Flow, i: int)
    ensures
        (0 <= i < policy.rules.len() && policy.rules[i].matches_flow(flow) && forall|j: int|
            0 <= j < i ==> !(#[trigger] policy.rules[j]).matches_flow(flow)) ==> policy.decision(
            flow,
        ) == policy.rules[i].action,
        (forall|j: int|
            0 <= j < policy.rules.len() ==> !(#[trigger] policy.rules[j]).matches_flow(flow))
            ==> policy.decision(flow) == policy.default_action,
{
    if 0 <= i < policy.rules.len() && policy.rules[i].matches_flow(flow) && forall|j: int|
        0 <= j < i ==> !(#[trigger] policy.rules[j]).matches_flow(flow) {
        assert(policy.first_match(flow, i));
        lemma_decision_of_first_match(policy, flow, i);
    }
    if forall|j: int|
        0 <= j < policy.rules.len() ==> !(#[trigger] policy.rules[j]).matches_flow(flow) {
        assert(policy.no_match(flow));
    }
}

/// The set that allows everything holds no rule, and so does what is in force before any load: each
/// allows every flow.
pub proof fn law_the_first_rules_allow_every_flow(
    set: RuleSet,
    active: ActiveRules,
    in_force: &RuleSet,
    flow: &FlowInfo,
    by_set: Action,
    by_active: Action,
)
    requires
        call_ensures(RuleSet::allow_everything, (), set),
        call_ensures(RuleSet::decide, (&set, flow), by_set),
        call_ensures(ActiveRules::new, (), active),
        call_ensures(crate::rules::current, (&active,), in_force),
        call_ensures(RuleSet::decide, (in_force, flow), by_active),
    ensures
        set.rules@.len() == 0,
        set.default_action == Action::Allow,
        by_set == Action::Allow,
        in_force.rules@.len() == 0,
        in_force.default_action == Action::Allow,
        by_active == Action::Allow,
{
    assert(set@ == Policy::allow_everything());
    assert(in_force@ == Policy::allow_everything());
    assert(set@.rules.len() == set.rules@.len());
    assert(in_force@.rules.len() == in_force.rules@.len());
    law_everything_is_allowed_before_the_first_load(flow@);
}

/// Loading hands on a set that was read, unchanged, and reports a failure under the file's path.
pub proof fn law_a_load_reports_failures_under_the_path(
    path: &str,
    parsed: Result<RuleSet, String>,
    loaded: Result<RuleSet, String>,
)
    requires
        call_ensures(RuleSet::load, (path, parsed), loaded),
    ensures
        parsed is Ok ==> loaded == parsed,
        parsed matches Err(e) ==> {
            &&& loaded is Err
            &&& loaded->Err_0@.take(path@.len() as int) == path@
            &&& loaded->Err_0@.skip(path@.len() as int) == ": "@ + e@
        },
{
    if parsed is Err {
        let e = parsed->Err_0@;
        assert(loaded->Err_0@ =~= path@ + (": "@ + e));
        assert(loaded->Err_0@.take(path@.len() as int) =~= path@);
        assert(loaded->Err_0@.skip(path@.len() as int) =~= ": "@ + e);
    }
}

/// A load that succeeded puts its rules in force, one that failed leaves them; and what is logged
/// about a load counts the rules that are in force after it and names their default action.
pub proof fn law_a_reload_swaps_or_keeps_and_says_so(before: Policy, loaded: Result<RuleSet, String>)
    ensures
        ({
            let after = crate::rules::after_reload(before, loaded);
            let count = crate::text::decimal(after.rules.len());
            let message = crate::rules::reload_message(before, loaded);
            let action = if after.default_action == Action::Allow {
                "allow"@
            } else {
                "drop"@
            };
            &&& loaded is Ok ==> {
                &&& after == loaded->Ok_0@
                &&& message == "rules: loaded "@ + count + " rule(s), default="@ + action
                    + " from "@ + "/Users/Shared/Digiexam/rules.json"@
            }
            &&& loaded is Err ==> {
                &&& after == before
                &&& message == "rules: COULD NOT LOAD ("@ + loaded->Err_0@ + "); keeping "@ + count
                    + " rule(s), default="@ + action
                    + ". This fallback fails OPEN by design — see rules.rs's module doc."@
            }
        }),
{
}

/// After a reload that succeeded the loaded set decides, and after one that failed the set that
/// decided before. What is logged counts the rules that are in force from then on.
pub proof fn law_after_a_reload_the_right_rules_decide(
    active: &mut ActiveRules,
    loaded: Result<RuleSet, String>,
    message: String,
    earlier: &RuleSet,
    in_force: &RuleSet,
    flow: &FlowInfo,
    by_earlier: Action,
    by_loaded: Action,
    by_in_force: Action,
)
    requires
        call_ensures(crate::rules::current, (&*old(active),), earlier),
        call_ensures(crate::rules::reload, (active, loaded), message),
        call_ensures(crate::rules::current, (&*final(active),), in_force),
        call_ensures(RuleSet::decide, (earlier, flow), by_earlier),
        loaded matches Ok(set) ==> call_ensures(RuleSet::decide, (&set, flow), by_loaded),
        call_ensures(RuleSet::decide, (in_force, flow), by_in_force),
    ensures
        loaded is Ok ==> by_in_force == by_loaded && in_force.rules@.len()
            == loaded->Ok_0.rules@.len() && in_force.default_action
            == loaded->Ok_0.default_action,
        loaded is Err ==> by_in_force == by_earlier && in_force.rules@.len()
            == earlier.rules@.len() && in_force.default_action == earlier.default_action,
        ({
            let count = crate::text::decimal(in_force.rules@.len());
            let action = if in_force.default_action == Action::Allow {
                "allow"@
            } else {
                "drop"@
            };
            &&& loaded is Ok ==> message@ == "rules: loaded "@ + count + " rule(s), default="@
                + action + " from "@ + "/Users/Shared/Digiexam/rules.json"@
            &&& loaded is Err ==> message@ == "rules: COULD NOT LOAD ("@ + loaded->Err_0@
                + "); keeping "@ + count + " rule(s), default="@ + action
                + ". This fallback fails OPEN by design — see rules.rs's module doc."@
        }),
{
    assert(in_force@ == final(active)@);
    assert(earlier@ == old(active)@);
    assert(in_force@.rules.len() == in_force.rules@.len());
    assert(earlier@.rules.len() == earlier.rules@.len());
    if loaded is Ok {
        assert(loaded->Ok_0@.rules.len() == loaded->Ok_0.rules@.len());
    }
    law_a_reload_swaps_or_keeps_and_says_so(old(active)@, loaded);
}

} // verus!
