//! Laws of the log and of the provider's callbacks.

use vstd::prelude::*;
use crate::flow::FlowInfo;
use crate::flow_log::{Buffered, FlowBuffer, FlowRecord, TailFailure};
use crate::logging::LogEntry;
use crate::provider::FlowVerdict;
use crate::rules::{Action, ActiveRules, RuleSet};

verus! {

/// The entry stands for `msg`: the same characters one by one, but for the NULs, each of which is a
/// replacement character in what the log gets; the echo is the message itself.
pub open spec fn stands_for(entry: LogEntry, msg: Seq<char>) -> bool {
    &&& entry.echo@ == msg
    &&& entry.text@.len() == msg.len()
    &&& forall|i: int|
        0 <= i < msg.len() ==> #[trigger] entry.text@[i] == if msg[i] == '\0' {
            '\u{fffd}'
        } else {
            msg[i]
        }
}

/// An entry that logs a message under a category carries both, and stands for the message.
pub proof fn law_an_entry_stands_for_its_message(entry: LogEntry, category: Seq<char>, msg: Seq<char>)
    ensures
        entry.logs(category, msg) <==> entry.category@ == category && stands_for(entry, msg),
{
    if entry.category@ == category && stands_for(entry, msg) {
        assert(entry.text@ =~= crate::logging::logged_text(msg));
    }
}

/// A message goes to the log under the category that it was given, as a lifecycle event or as a flow
/// line, and stands there as it was given.
pub proof fn law_messages_are_logged_under_their_category(
    category: &'static str,
    msg: &str,
    entry: LogEntry,
    event: LogEntry,
    line: LogEntry,
)
    requires
        call_ensures(crate::logging::emit, (category, msg), entry),
        call_ensures(crate::logging::lifecycle, (msg,), event),
        call_ensures(crate::logging::flow, (msg,), line),
    ensures
        entry.category@ == category@ && stands_for(entry, msg@),
        event.category@ == "lifecycle"@ && stands_for(event, msg@),
        line.category@ == "flow"@ && stands_for(line, msg@),
{
    law_an_entry_stands_for_its_message(entry, category@, msg@);
    law_an_entry_stands_for_its_message(event, "lifecycle"@, msg@);
    law_an_entry_stands_for_its_message(line, "flow"@, msg@);
}

/// The verdict on a flow is the decision of the rules in force, and the line that is logged is the
/// flow's own line under that verdict.
pub proof fn law_a_verdict_is_the_decision_and_is_logged(
    active: &ActiveRules,
    set: &RuleSet,
    info: &FlowInfo,
    action: Action,
    line: String,
    verdict: FlowVerdict,
)
    requires
        call_ensures(crate::rules::current, (active,), set),
        call_ensures(RuleSet::decide, (set, info), action),
        call_ensures(FlowInfo::log_line, (info, action), line),
        call_ensures(crate::provider::handle_new_flow, (active, info), verdict),
    ensures
        verdict.action == action,
        verdict.entry.category@ == "flow"@,
        stands_for(verdict.entry, line@),
{
    law_an_entry_stands_for_its_message(verdict.entry, "flow"@, line@);
}

/// The stop reasons that have a name, each under its number; every other number is unknown.
pub proof fn law_stop_reasons_have_their_names(reason: isize, label: &'static str)
    requires
        call_ensures(crate::provider::stop_reason_label, (reason,), label),
    ensures
        reason == 0 ==> label@ == "None"@,
        reason == 1 ==> label@ == "UserInitiated"@,
        reason == 2 ==> label@ == "ProviderFailed"@,
        reason == 3 ==> label@ == "NoNetworkAvailable"@,
        reason == 4 ==> label@ == "UnrecoverableNetworkChange"@,
        reason == 5 ==> label@ == "ProviderDisabled"@,
        reason == 6 ==> label@ == "AuthenticationCanceled"@,
        reason == 7 ==> label@ == "ConfigurationFailed"@,
        reason == 8 ==> label@ == "IdleTimeout"@,
        reason == 9 ==> label@ == "ConfigurationDisabled"@,
        reason == 10 ==> label@ == "ConfigurationRemoved"@,
        reason == 11 ==> label@ == "Superseded"@,
        reason == 12 ==> label@ == "UserLogout"@,
        reason == 13 ==> label@ == "UserSwitch"@,
        reason == 14 ==> label@ == "ConnectionFailed"@,
        reason == 15 ==> label@ == "Sleep"@,
        reason == 16 ==> label@ == "AppUpdate"@,
        reason < 0 || reason > 16 ==> label@ == "unknown"@,
{
}

/// A stop is logged as a lifecycle event that shows the reason's number and its name.
pub proof fn law_a_stop_shows_number_and_name(
    reason: isize,
    label: &'static str,
    entry: LogEntry,
)
    requires
        call_ensures(crate::provider::stop_reason_label, (reason,), label),
        call_ensures(crate::provider::stop_filter, (reason,), entry),
    ensures
        entry.category@ == "lifecycle"@,
        stands_for(
            entry,
            "stopFilter: reason="@ + crate::text::signed_decimal(reason as int) + " ("@ + label@
                + ")"@,
        ),
{
    law_an_entry_stands_for_its_message(
        entry,
        "lifecycle"@,
        crate::provider::stop_message(reason as int),
    );
}

/// A buffer that takes a record holds it last; in front of it stands what it held before, without
/// its oldest record if there were 500 of them. It has counted one more, unless it can count no
/// further.
pub proof fn law_a_push_appends_and_drops_the_oldest(buffer: Buffered, record: FlowRecord)
    ensures
        ({
            let after = buffer.pushed(record);
            &&& after.records.last() == record
            &&& buffer.records.len() != 500 ==> after.records.drop_last() == buffer.records
            &&& buffer.records.len() == 500 ==> after.records.drop_last() == buffer.records.skip(1)
            &&& buffer.total < usize::MAX ==> after.total == buffer.total + 1
            &&& buffer.total == usize::MAX ==> after.total == usize::MAX
        }),
{
    let after = buffer.pushed(record);
    if buffer.records.len() == 500 {
        assert(after.records.drop_last() =~= buffer.records.skip(1));
    } else {
        assert(after.records.drop_last() =~= buffer.records);
    }
}

/// Reading a buffer gives as many records as were asked for, as far as there are so many: the newest
/// first, each older one behind it. The counter is told as it stands.
pub proof fn law_reading_goes_from_the_newest_back(
    buffer: &FlowBuffer,
    limit: usize,
    newest: Vec<FlowRecord>,
    total: usize,
)
    requires
        call_ensures(FlowBuffer::recent, (buffer, limit), newest),
        call_ensures(FlowBuffer::total, (buffer,), total),
    ensures
        newest@.len() <= limit,
        newest@.len() <= buffer@.records.len(),
        newest@.len() == limit || newest@.len() == buffer@.records.len(),
        forall|i: int|
            0 <= i < newest@.len() ==> #[trigger] newest@[i] == buffer@.records[buffer@.records.len()
                - 1 - i],
        total == buffer@.total,
{
}

/// A line holds the marker where it reads `before`, the marker, `behind`. What is read from a line is
/// what stands behind its first marker, and nothing is read only from a line without one.
pub proof fn law_a_record_stands_behind_the_first_marker(
    line: &str,
    before: Seq<char>,
    behind: Seq<char>,
    payload: Option<&str>,
)
    requires
        line@ == before + "FLOW1 "@ + behind,
        forall|a: Seq<char>, b: Seq<char>|
            line@ == #[trigger] (a + "FLOW1 "@ + b) ==> before.len() <= a.len(),
        call_ensures(crate::flow_log::record_payload, (line,), payload),
    ensures
        payload is Some && payload->0@ == behind,
{
    let n = before.len() as int;
    reveal_strlit("FLOW1 ");
    assert(line@.subrange(n, n + 6) =~= "FLOW1 "@);
    assert(crate::flow_log::marker_at(line@, n));
    assert(payload is Some);
    let text = payload->0@;
    assert(crate::flow_log::is_payload(line@, text));
    let i = choose|i: int|
        {
            &&& #[trigger] crate::flow_log::marker_at(line@, i)
            &&& forall|j: int| 0 <= j < i ==> !#[trigger] crate::flow_log::marker_at(line@, j)
            &&& text == line@.skip(i + crate::flow_log::RECORD_MARKER@.len())
        };
    assert(crate::flow_log::marker_at(line@, i));
    let a = line@.take(i);
    let b = line@.skip(i + 6);
    assert(line@ =~= a + line@.subrange(i, i + 6) + b);
    assert(line@ == a + "FLOW1 "@ + b);
    if n < i {
        assert(!crate::flow_log::marker_at(line@, n));
    }
    assert(i == n);
    assert(line@.skip(n + 6) =~= behind);
}

/// Nothing is read from a line that holds no marker.
pub proof fn law_a_line_without_a_marker_holds_no_record(line: &str, payload: Option<&str>)
    requires
        forall|a: Seq<char>, b: Seq<char>| line@ != #[trigger] (a + "FLOW1 "@ + b),
        call_ensures(crate::flow_log::record_payload, (line,), payload),
    ensures
        payload is None,
{
    reveal_strlit("FLOW1 ");
    if payload is Some {
        let text = payload->0@;
        assert(crate::flow_log::is_payload(line@, text));
        let i = choose|i: int|
            {
                &&& #[trigger] crate::flow_log::marker_at(line@, i)
                &&& forall|j: int| 0 <= j < i ==> !#[trigger] crate::flow_log::marker_at(line@, j)
                &&& text == line@.skip(i + crate::flow_log::RECORD_MARKER@.len())
            };
        let a = line@.take(i);
        let b = line@.skip(i + 6);
        assert(line@ =~= a + line@.subrange(i, i + 6) + b);
        assert(line@ == a + "FLOW1 "@ + b);
    }
}

/// The log is asked for the lines of the project's own subsystem; a tail that cannot start tells
/// which of its parts failed, and how.
pub proof fn law_a_tail_reads_its_own_lines_or_says_why_not(
    predicate: String,
    failure: TailFailure,
    text: String,
)
    requires
        call_ensures(crate::flow_log::stream_predicate, (), predicate),
        call_ensures(crate::flow_log::tail_error, (failure,), text),
    ensures
        predicate@ == "subsystem == \""@ + "com.digiexam.macos.NetworkExtensions"@ + "\""@,
        failure matches TailFailure::NotStarted(e) ==> text@ == "could not start `log stream`: "@
            + e@,
        failure is NoOutput ==> text@ == "log stream produced no stdout"@,
        failure matches TailFailure::NoReader(e) ==> text@
            == "could not spawn the log-tail thread: "@ + e@,
{
}

/// Starting the filter reloads the rules, and logs two lifecycle events: first what came of the
/// load, then that the provider has started.
pub proof fn law_a_start_reloads_and_logs_both(
    active: &mut ActiveRules,
    loaded: Result<RuleSet, String>,
    entries: Vec<LogEntry>,
)
    requires
        call_ensures(crate::provider::start_filter, (active, loaded), entries),
    ensures
        final(active)@ == (if loaded is Ok {
            loaded->Ok_0@
        } else {
            old(active)@
        }),
        entries@.len() == 2,
        entries@[0].category@ == "lifecycle"@,
        stands_for(entries@[0], crate::rules::reload_message(old(active)@, loaded)),
        entries@[1].category@ == "lifecycle"@,
        stands_for(
            entries@[1],
            "startFilter: provider started. No NEFilterSettings applied — the framework default action is already FilterData."@,
        ),
{
    law_an_entry_stands_for_its_message(
        entries@[0],
        "lifecycle"@,
        crate::rules::reload_message(old(active)@, loaded),
    );
    law_an_entry_stands_for_its_message(
        entries@[1],
        "lifecycle"@,
        crate::provider::STARTED@,
    );
}

/// A buffer starts out empty, takes every record that is pushed or decoded from a line, and is left
/// alone by a line without one.
pub proof fn law_a_buffer_takes_every_record(
    first: FlowBuffer,
    pushed_to: &mut FlowBuffer,
    record: FlowRecord,
    fed: &mut FlowBuffer,
    decoded: Option<FlowRecord>,
)
    requires
        call_ensures(FlowBuffer::default, (), first),
        call_ensures(FlowBuffer::push, (pushed_to, record), ()),
        call_ensures(FlowBuffer::take_line, (fed, decoded), ()),
    ensures
        first@.records.len() == 0 && first@.total == 0,
        final(pushed_to)@ == old(pushed_to)@.pushed(record),
        decoded is None ==> final(fed)@ == old(fed)@,
        decoded matches Some(taken) ==> final(fed)@ == old(fed)@.pushed(taken),
{
}

} // verus!
