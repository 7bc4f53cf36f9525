//! Laws of copies: each is what it was made from, field by field.

use vstd::prelude::*;
use crate::attribution::AppId;
use crate::flow::FlowInfo;
use crate::flow_log::FlowRecord;
use crate::probe::TestConnectResult;
use crate::rules::{Rule, RuleSet};
use crate::status::{ActivationState, FilterStatus};

verus! {

/// Two optional strings are both absent, or hold the same text.
pub open spec fn same_text(a: Option<String>, b: Option<String>) -> bool {
    &&& a is Some <==> b is Some
    &&& a is Some ==> a->0@ == b->0@
}

/// Two rules are the same, field by field.
pub open spec fn same_rule(a: Rule, b: Rule) -> bool {
    &&& a.action == b.action
    &&& same_text(a.app, b.app)
    &&& same_text(a.host, b.host)
    &&& same_text(a.ip, b.ip)
    &&& a.port == b.port
    &&& a.protocol == b.protocol
    &&& a.family == b.family
    &&& same_text(a.comment, b.comment)
}

proof fn lemma_rules_with_one_model_are_the_same(a: Rule, b: Rule)
    requires
        a@ == b@,
    ensures
        same_rule(a, b),
{
    assert(a@.app == b@.app);
    assert(a@.host == b@.host);
    assert(a@.ip == b@.ip);
    assert(a@.comment == b@.comment);
}

/// A copy of a rule is that rule, and a copy of a rule set has the same rules in the same order and
/// the same default action.
pub proof fn law_copied_rules_are_the_same(a: &Rule, b: Rule, set: &RuleSet, copy: RuleSet)
    requires
        call_ensures(Rule::clone, (a,), b),
        call_ensures(RuleSet::clone, (set,), copy),
    ensures
        same_rule(*a, b),
        copy.default_action == set.default_action,
        copy.rules@.len() == set.rules@.len(),
        forall|i: int|
            0 <= i < set.rules@.len() ==> same_rule(#[trigger] set.rules@[i], copy.rules@[i]),
{
    lemma_rules_with_one_model_are_the_same(*a, b);
    assert(copy@.default_action == set@.default_action);
    assert(copy@.rules.len() == copy.rules@.len());
    assert(set@.rules.len() == set.rules@.len());
    assert forall|i: int| 0 <= i < set.rules@.len() implies same_rule(
        #[trigger] set.rules@[i],
        copy.rules@[i],
    ) by {
        assert(set@.rules[i] == set.rules@[i]@);
        assert(copy@.rules[i] == copy.rules@[i]@);
        lemma_rules_with_one_model_are_the_same(set.rules@[i], copy.rules@[i]);
    }
}

/// A copy of an app or of a flow is that app or that flow.
pub proof fn law_copied_flows_are_the_same(app: &AppId, same_app: AppId, flow: &FlowInfo, copy: FlowInfo)
    requires
        call_ensures(AppId::clone, (app,), same_app),
        call_ensures(FlowInfo::clone, (flow,), copy),
    ensures
        same_app.name@ == app.name@ && same_app.source@ == app.source@,
        copy.ts_ms == flow.ts_ms,
        copy.family == flow.family,
        copy.protocol == flow.protocol,
        same_text(copy.remote_host, flow.remote_host),
        copy.remote_port == flow.remote_port,
        same_text(copy.hostname, flow.hostname),
        same_text(copy.url_host, flow.url_host),
        copy.app is Some <==> flow.app is Some,
        copy.app is Some ==> copy.app->0.name@ == flow.app->0.name@ && copy.app->0.source@
            == flow.app->0.source@,
        copy.pid == flow.pid,
{
    assert(copy@.ts_ms == flow@.ts_ms);
    assert(copy@.family == flow@.family);
    assert(copy@.protocol == flow@.protocol);
    assert(copy@.remote_host == flow@.remote_host);
    assert(copy@.remote_port == flow@.remote_port);
    assert(copy@.hostname == flow@.hostname);
    assert(copy@.url_host == flow@.url_host);
    assert(copy@.app == flow@.app);
    assert(copy@.pid == flow@.pid);
}

/// A copy of a state, of a status, of a test result or of a record is that value.
pub proof fn law_copied_values_are_the_same(
    state: &ActivationState,
    same_state: ActivationState,
    status: &FilterStatus,
    same_status: FilterStatus,
    result: &TestConnectResult,
    same_result: TestConnectResult,
    record: &FlowRecord,
    same_record: FlowRecord,
)
    requires
        call_ensures(ActivationState::clone, (state,), same_state),
        call_ensures(FilterStatus::clone, (status,), same_status),
        call_ensures(TestConnectResult::clone, (result,), same_result),
        call_ensures(FlowRecord::clone, (record,), same_record),
    ensures
        same_state == *state,
        same_status == *status,
        same_result == *result,
        same_record == *record,
{
}

} // verus!
