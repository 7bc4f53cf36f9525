//! What the filter provider does on each of the framework's callbacks.

use vstd::prelude::*;
use crate::flow::FlowInfo;
use crate::logging::{flow, lifecycle, LogEntry};
use crate::rules::{current, reload, Action, ActiveRules, RuleSet};
use crate::text::push_signed_decimal;

verus! {

/// What is logged once the filter has started.
pub const STARTED: &'static str =
    "startFilter: provider started. No NEFilterSettings applied — the framework default action is already FilterData.";

/// Start the filter: swap in the outcome of loading the rule file, so that switching the filter off
/// and on picks up rules rewritten since, and log the load before the start.
pub fn start_filter(active: &mut ActiveRules, loaded: Result<RuleSet, String>) -> (entries: Vec<
    LogEntry,
>)
    ensures
        final(active)@ == crate::rules::after_reload(old(active)@, loaded),
        entries@.len() == 2,
        entries@[0].logs(
            crate::logging::LOG_CATEGORY_LIFECYCLE@,
            crate::rules::reload_message(old(active)@, loaded),
        ),
        entries@[1].logs(crate::logging::LOG_CATEGORY_LIFECYCLE@, STARTED@),
{
    let message = reload(active, loaded);
    let mut entries: Vec<LogEntry> = Vec::new();
    entries.push(lifecycle(&message));
    entries.push(lifecycle(STARTED));
    entries
}

/// The name of a stop reason, by its number.
pub open spec fn stop_reason_spec(reason: int) -> Seq<char> {
    let names = seq![
        "None"@,
        "UserInitiated"@,
        "ProviderFailed"@,
        "NoNetworkAvailable"@,
        "UnrecoverableNetworkChange"@,
        "ProviderDisabled"@,
        "AuthenticationCanceled"@,
        "ConfigurationFailed"@,
        "IdleTimeout"@,
        "ConfigurationDisabled"@,
        "ConfigurationRemoved"@,
        "Superseded"@,
        "UserLogout"@,
        "UserSwitch"@,
        "ConnectionFailed"@,
        "Sleep"@,
        "AppUpdate"@,
    ];
    if 0 <= reason < names.len() {
        names[reason]
    } else {
        "unknown"@
    }
}

/// Human-readable name of a stop reason, so that the log says why rather than just a number.
pub fn stop_reason_label(reason: isize) -> (label: &'static str)
    ensures
        label@ == stop_reason_spec(reason as int),
{
    match reason {
        0 => "None",
        1 => "UserInitiated",
        2 => "ProviderFailed",
        3 => "NoNetworkAvailable",
        4 => "UnrecoverableNetworkChange",
        5 => "ProviderDisabled",
        6 => "AuthenticationCanceled",
        7 => "ConfigurationFailed",
        8 => "IdleTimeout",
        9 => "ConfigurationDisabled",
        10 => "ConfigurationRemoved",
        11 => "Superseded",
        12 => "UserLogout",
        13 => "UserSwitch",
        14 => "ConnectionFailed",
        15 => "Sleep",
        16 => "AppUpdate",
        _ => "unknown",
    }
}

/// What is logged when the filter stops.
pub open spec fn stop_message(reason: int) -> Seq<char> {
    "stopFilter: reason="@ + crate::text::signed_decimal(reason) + " ("@ + stop_reason_spec(reason)
        + ")"@
}

/// The log entry for a stopping filter: the reason's number and its name.
pub fn stop_filter(reason: isize) -> (entry: LogEntry)
    ensures
        entry.logs(crate::logging::LOG_CATEGORY_LIFECYCLE@, stop_message(reason as int)),
{
    let mut message = "stopFilter: reason=".to_owned();
    push_signed_decimal(&mut message, reason as i64);
    message.append(" (");
    message.append(stop_reason_label(reason));
    message.append(")");
    assert(message@ =~= stop_message(reason as int));
    lifecycle(&message)
}

/// What to do with a new flow, and the line to log about it.
pub struct FlowVerdict {
    pub action: Action,
    pub entry: LogEntry,
}

/// Decide a new flow by the rules in force. The line that is logged shows the action taken.
pub fn handle_new_flow(active: &ActiveRules, info: &FlowInfo) -> (verdict: FlowVerdict)
    ensures
        verdict.action == active@.decision(info@),
        verdict.entry.logs(crate::logging::LOG_CATEGORY_FLOW@, info@.log_line(verdict.action)),
{
    let action = current(active).decide(info);
    let line = info.log_line(action);
    FlowVerdict { action, entry: flow(&line) }
}

} // verus!
