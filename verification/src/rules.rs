//! The allow/drop decision: an ordered rule list keyed on the source app and the destination.
//!
//! Every matcher of a rule is optional and they are ANDed; the first rule that matches a flow
//! decides it, and a flow that no rule matches gets the set's default action. With `Drop` as the
//! default the set is an allowlist: a matcher that cannot be evaluated (no app name, no destination
//! yet) does not match, so a flow that cannot be identified is refused.
//!
//! Rules are read from [`RULES_PATH`] when the filter starts. A file that cannot be loaded leaves
//! the rules in force as they were. Before the first successful load every flow is allowed; as soon
//! as any file has loaded, its own default action governs.

use vstd::prelude::*;
use crate::flow::{AddressFamily, Flow, FlowInfo, TransportProtocol};
use crate::text::{lower_text, push_decimal, same_chars, same_text_ignoring_case};

verus! {

/// The one place rules are read from: outside the sealed bundle, and at the same path for the
/// extension, which runs as root, and for the app.
pub const RULES_PATH: &'static str = "/Users/Shared/Digiexam/rules.json";

/// What to do with a flow.
#[derive(Debug, Clone, Copy, PartialEq, Eq, Structural)]
pub enum Action {
    Allow,
    Drop,
}

impl Action {
    pub open spec fn label_spec(self) -> Seq<char> {
        match self {
            Action::Allow => "allow"@,
            Action::Drop => "drop"@,
        }
    }

    /// The action's name in the log line and in load messages.
    pub fn label(self) -> (label: &'static str)
        ensures
            label@ == self.label_spec(),
    {
        match self {
            Action::Allow => "allow",
            Action::Drop => "drop",
        }
    }
}

/// What a `family` matcher can ask for.
#[derive(Debug, Clone, Copy, PartialEq, Eq, Structural)]
pub enum FamilyMatch {
    V4,
    V6,
}

impl FamilyMatch {
    pub open spec fn matches_spec(self, family: AddressFamily) -> bool {
        match self {
            FamilyMatch::V4 => family == AddressFamily::V4,
            FamilyMatch::V6 => family == AddressFamily::V6,
        }
    }

    /// Whether a flow of the given family is what the matcher asks for; never for an unrecognised
    /// family.
    pub fn matches(self, family: AddressFamily) -> (matched: bool)
        ensures
            matched == self.matches_spec(family),
    {
        match (self, family) {
            (FamilyMatch::V4, AddressFamily::V4) => true,
            (FamilyMatch::V6, AddressFamily::V6) => true,
            _ => false,
        }
    }
}

/// What a `protocol` matcher can ask for.
#[derive(Debug, Clone, Copy, PartialEq, Eq, Structural)]
pub enum ProtocolMatch {
    Tcp,
    Udp,
}

impl ProtocolMatch {
    pub open spec fn matches_spec(self, protocol: TransportProtocol) -> bool {
        match self {
            ProtocolMatch::Tcp => protocol == TransportProtocol::Tcp,
            ProtocolMatch::Udp => protocol == TransportProtocol::Udp,
        }
    }

    /// Whether a flow of the given protocol is what the matcher asks for; never for an
    /// unrecognised protocol.
    pub fn matches(self, protocol: TransportProtocol) -> (matched: bool)
        ensures
            matched == self.matches_spec(protocol),
    {
        match (self, protocol) {
            (ProtocolMatch::Tcp, TransportProtocol::Tcp) => true,
            (ProtocolMatch::Udp, TransportProtocol::Udp) => true,
            _ => false,
        }
    }
}

/// One rule. Every matcher is optional and they are ANDed; a rule with no matchers at all matches
/// every flow.
#[derive(Debug)]
pub struct Rule {
    pub action: Action,
    /// The app that must have opened the flow: its verbatim name or its bundle identifier. A flow
    /// that could not be named never matches.
    pub app: Option<String>,
    /// Exact hostname, or a leading-dot pattern: `.example.com` matches `example.com` and any
    /// subdomain of it. Compared with the best destination, ignoring ASCII case. A flow whose
    /// destination is not known yet never matches.
    pub host: Option<String>,
    /// Literal remote address, ignoring ASCII case: for a flow that carries an address but no name.
    pub ip: Option<String>,
    pub port: Option<u16>,
    pub protocol: Option<ProtocolMatch>,
    pub family: Option<FamilyMatch>,
    /// Why the rule exists. Ignored by matching.
    pub comment: Option<String>,
}

/// The mathematical content of a [`Rule`].
#[verifier::ext_equal]
pub struct RuleModel {
    pub action: Action,
    pub app: Option<Seq<char>>,
    pub host: Option<Seq<char>>,
    pub ip: Option<Seq<char>>,
    pub port: Option<u16>,
    pub protocol: Option<ProtocolMatch>,
    pub family: Option<FamilyMatch>,
    pub comment: Option<Seq<char>>,
}

impl View for Rule {
    type V = RuleModel;

    open spec fn view(&self) -> RuleModel {
        RuleModel {
            action: self.action,
            app: crate::text::opt_text(self.app),
            host: crate::text::opt_text(self.host),
            ip: crate::text::opt_text(self.ip),
            port: self.port,
            protocol: self.protocol,
            family: self.family,
            comment: crate::text::opt_text(self.comment),
        }
    }
}

/// Whether a host pattern covers a host: the same name, or, for a pattern that starts with `.`, the
/// name behind the dot or any name that ends with the pattern. ASCII case is ignored.
pub open spec fn host_matches_spec(pattern: Seq<char>, host: Seq<char>) -> bool {
    let pattern = crate::text::lower(pattern);
    let host = crate::text::lower(host);
    if pattern.len() > 0 && pattern[0] == '.' {
        host == pattern.drop_first() || pattern.is_suffix_of(host)
    } else {
        host == pattern
    }
}

impl RuleModel {
    pub open spec fn app_matches(self, flow: Flow) -> bool {
        self.app matches Some(wanted) ==> (flow.app matches Some(app) && app.matches_rule(wanted))
    }

    pub open spec fn host_matches(self, flow: Flow) -> bool {
        self.host matches Some(pattern) ==> (flow.best_destination() matches Some(host)
            && host_matches_spec(pattern, host))
    }

    pub open spec fn ip_matches(self, flow: Flow) -> bool {
        self.ip matches Some(wanted) ==> (flow.remote_host matches Some(host)
            && crate::text::lower(host) == crate::text::lower(wanted))
    }

    pub open spec fn port_matches(self, flow: Flow) -> bool {
        self.port matches Some(port) ==> flow.remote_port == Some(port)
    }

    pub open spec fn protocol_matches(self, flow: Flow) -> bool {
        self.protocol matches Some(protocol) ==> protocol.matches_spec(flow.protocol)
    }

    pub open spec fn family_matches(self, flow: Flow) -> bool {
        self.family matches Some(family) ==> family.matches_spec(flow.family)
    }

    /// A rule matches a flow when every matcher that it has does.
    pub open spec fn matches_flow(self, flow: Flow) -> bool {
        &&& self.app_matches(flow)
        &&& self.host_matches(flow)
        &&& self.ip_matches(flow)
        &&& self.port_matches(flow)
        &&& self.protocol_matches(flow)
        &&& self.family_matches(flow)
    }
}

impl Clone for Rule {
    fn clone(&self) -> (res: Self)
        ensures
            res@ == self@,
    {
        Rule {
            action: self.action,
            app: self.app.clone(),
            host: self.host.clone(),
            ip: self.ip.clone(),
            port: self.port,
            protocol: self.protocol,
            family: self.family,
            comment: self.comment.clone(),
        }
    }
}

impl Rule {
    /// Whether every matcher that the rule has holds of `flow`.
    pub fn matches(&self, flow: &FlowInfo) -> (matched: bool)
        ensures
            matched == self@.matches_flow(flow@),
    {
        if let Some(wanted) = &self.app {
            match &flow.app {
                Some(app) => {
                    if !app.matches_rule(wanted) {
                        return false;
                    }
                },
                None => {
                    return false;
                },
            }
        }
        if let Some(pattern) = &self.host {
            // No destination yet means no host match: an unknown destination was never shown to
            // be one that the rule applies to.
            match flow.best_destination() {
                Some(host) => {
                    if !host_matches(pattern, host) {
                        return false;
                    }
                },
                None => {
                    return false;
                },
            }
        }
        if let Some(wanted) = &self.ip {
            match &flow.remote_host {
                Some(host) => {
                    if !same_text_ignoring_case(host, wanted) {
                        return false;
                    }
                },
                None => {
                    return false;
                },
            }
        }
        if let Some(port) = self.port {
            match flow.remote_port {
                Some(remote) => {
                    if remote != port {
                        return false;
                    }
                },
                None => {
                    return false;
                },
            }
        }
        if let Some(protocol) = self.protocol {
            if !protocol.matches(flow.protocol) {
                return false;
            }
        }
        if let Some(family) = self.family {
            if !family.matches(flow.family) {
                return false;
            }
        }
        true
    }
}

/// The full rule set: an ordered list plus what to do when nothing matches.
#[derive(Debug)]
pub struct RuleSet {
    pub default_action: Action,
    pub rules: Vec<Rule>,
}

/// The mathematical content of a [`RuleSet`].
#[verifier::ext_equal]
pub struct Policy {
    pub default_action: Action,
    pub rules: Seq<RuleModel>,
}

impl View for RuleSet {
    type V = Policy;

    open spec fn view(&self) -> Policy {
        Policy {
            default_action: self.default_action,
            rules: self.rules@.map_values(|rule: Rule| rule@),
        }
    }
}

impl Policy {
    /// The policy under which every flow is allowed.
    pub open spec fn allow_everything() -> Policy {
        Policy { default_action: Action::Allow, rules: Seq::empty() }
    }

    /// Rule `i` is the first one that matches `flow`.
    pub open spec fn first_match(self, flow: Flow, i: int) -> bool {
        &&& 0 <= i < self.rules.len()
        &&& self.rules[i].matches_flow(flow)
        &&& forall|j: int| 0 <= j < i ==> !(#[trigger] self.rules[j]).matches_flow(flow)
    }

    /// No rule matches `flow`.
    pub open spec fn no_match(self, flow: Flow) -> bool {
        forall|j: int| 0 <= j < self.rules.len() ==> !(#[trigger] self.rules[j]).matches_flow(flow)
    }

    /// The action of the first rule that matches `flow`, else the default action.
    pub open spec fn decision(self, flow: Flow) -> Action {
        if exists|i: int| self.first_match(flow, i) {
            self.rules[choose|i: int| self.first_match(flow, i)].action
        } else {
            self.default_action
        }
    }
}

impl Clone for RuleSet {
    fn clone(&self) -> (res: Self)
        ensures
            res@ == self@,
    {
        let mut rules: Vec<Rule> = Vec::new();
        let mut i: usize = 0;
        while i < self.rules.len()
            invariant
                i <= self.rules@.len(),
                rules@.len() == i,
                forall|j: int| 0 <= j < i ==> (#[trigger] rules@[j])@ == self.rules@[j]@,
            decreases self.rules@.len() - i,
        {
            rules.push(self.rules[i].clone());
            i = i + 1;
        }
        let res = RuleSet { default_action: self.default_action, rules };
        assert(res@.rules =~= self@.rules);
        res
    }
}

impl RuleSet {
    /// The set in force before the first successful load: every flow is allowed.
    pub fn allow_everything() -> (set: Self)
        ensures
            set@ == Policy::allow_everything(),
    {
        let set = RuleSet { default_action: Action::Allow, rules: Vec::new() };
        assert(set@.rules =~= Seq::empty());
        set
    }

    /// The outcome of loading the rule file at `path`: `parsed` is what reading and parsing it
    /// gave, and a failure is reported with the path in front.
    pub fn load(path: &str, parsed: Result<RuleSet, String>) -> (loaded: Result<RuleSet, String>)
        ensures
            match parsed {
                Ok(set) => loaded == Ok::<RuleSet, String>(set),
                Err(e) => loaded matches Err(message) && message@ == path@ + ": "@ + e@,
            },
    {
        match parsed {
            Ok(set) => Ok(set),
            Err(e) => {
                let mut message = path.to_owned();
                message.append(": ");
                message.append(&e);
                Err(message)
            },
        }
    }

    /// First match wins; if nothing matches, the default action.
    pub fn decide(&self, flow: &FlowInfo) -> (action: Action)
        ensures
            action == self@.decision(flow@),
            self@.no_match(flow@) ==> action == self@.default_action,
            forall|i: int| self@.first_match(flow@, i) ==> action == #[trigger] self@.rules[i].action,
    {
        let mut i: usize = 0;
        while i < self.rules.len()
            invariant
                i <= self.rules@.len(),
                forall|j: int|
                    0 <= j < i ==> !(#[trigger] self@.rules[j]).matches_flow(flow@),
            decreases self.rules@.len() - i,
        {
            let rule = &self.rules[i];
            assert(self@.rules[i as int] == rule@);
            if rule.matches(flow) {
                proof {
                    assert(self@.first_match(flow@, i as int));
                    self@.lemma_first_match_is_unique(flow@);
                }
                return rule.action;
            }
            i = i + 1;
        }
        self.default_action
    }
}

impl Policy {
    /// At most one rule is the first match.
    proof fn lemma_first_match_is_unique(self, flow: Flow)
        ensures
            forall|i: int, j: int|
                self.first_match(flow, i) && self.first_match(flow, j) ==> i == j,
    {
        assert forall|i: int, j: int|
            self.first_match(flow, i) && self.first_match(flow, j) implies i == j by {
            if i < j {
                assert(!self.rules[i].matches_flow(flow));
            } else if j < i {
                assert(!self.rules[j].matches_flow(flow));
            }
        }
    }
}

/// Whether a host pattern covers a host; see [`Rule::host`].
pub fn host_matches(pattern: &str, host: &str) -> (matched: bool)
    ensures
        matched == host_matches_spec(pattern@, host@),
{
    let host = lower_text(host);
    let pattern = lower_text(pattern);
    if pattern.len() > 0 && pattern[0] == '.' {
        // The apex is covered as well as its subdomains.
        let apex = same_chars(&host, &pattern, 1);
        assert(pattern@.skip(1) =~= pattern@.drop_first());
        if apex {
            return true;
        }
        host.len() >= pattern.len() && same_chars(&pattern, &host, host.len() - pattern.len())
    } else {
        assert(pattern@.skip(0) =~= pattern@);
        same_chars(&host, &pattern, 0)
    }
}

/// The rules in force.
#[derive(Debug)]
pub struct ActiveRules {
    set: RuleSet,
}

impl View for ActiveRules {
    type V = Policy;

    closed spec fn view(&self) -> Policy {
        self.set@
    }
}

impl ActiveRules {
    /// The rules in force before anything was loaded: every flow is allowed.
    pub fn new() -> (active: Self)
        ensures
            active@ == Policy::allow_everything(),
    {
        ActiveRules { set: RuleSet::allow_everything() }
    }
}

/// The rule set in force right now.
pub fn current(active: &ActiveRules) -> (set: &RuleSet)
    ensures
        set@ == active@,
{
    &active.set
}

/// What is logged when a rule file was loaded.
pub open spec fn loaded_message(policy: Policy) -> Seq<char> {
    "rules: loaded "@ + crate::text::decimal(policy.rules.len()) + " rule(s), default="@
        + policy.default_action.label_spec() + " from "@ + RULES_PATH@
}

/// What is logged when a rule file could not be loaded, `policy` being the rules that stay.
pub open spec fn kept_message(policy: Policy, error: Seq<char>) -> Seq<char> {
    "rules: COULD NOT LOAD ("@ + error + "); keeping "@ + crate::text::decimal(policy.rules.len())
        + " rule(s), default="@ + policy.default_action.label_spec()
        + ". This fallback fails OPEN by design — see rules.rs's module doc."@
}

/// What is logged about a load, `before` being the rules that were in force until then.
pub open spec fn reload_message(before: Policy, loaded: Result<RuleSet, String>) -> Seq<char> {
    match loaded {
        Ok(set) => loaded_message(set@),
        Err(e) => kept_message(before, e@),
    }
}

/// The rules in force once a load has ended: the loaded ones, or, when the load failed, the ones
/// that were in force before.
pub open spec fn after_reload(before: Policy, loaded: Result<RuleSet, String>) -> Policy {
    match loaded {
        Ok(set) => set@,
        Err(_) => before,
    }
}

/// Swap in the outcome of loading [`RULES_PATH`], and return the line to log about it. There is
/// always one: a silent load could not be told from no load at all.
pub fn reload(active: &mut ActiveRules, loaded: Result<RuleSet, String>) -> (message: String)
    ensures
        final(active)@ == after_reload(old(active)@, loaded),
        message@ == reload_message(old(active)@, loaded),
{
    let mut message = String::new();
    match loaded {
        Ok(set) => {
            message.append("rules: loaded ");
            push_decimal(&mut message, set.rules.len() as u64);
            message.append(" rule(s), default=");
            message.append(set.default_action.label());
            message.append(" from ");
            message.append(RULES_PATH);
            assert(message@ =~= loaded_message(set@));
            active.set = set;
        },
        Err(e) => {
            message.append("rules: COULD NOT LOAD (");
            message.append(&e);
            message.append("); keeping ");
            push_decimal(&mut message, active.set.rules.len() as u64);
            message.append(" rule(s), default=");
            message.append(active.set.default_action.label());
            message.append(". This fallback fails OPEN by design — see rules.rs's module doc.");
            assert(message@ =~= kept_message(active@, e@));
        },
    }
    message
}

} // verus!
