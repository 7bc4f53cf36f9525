//! Laws of activation, of the commands, and of the log.

use vstd::prelude::*;
use crate::commands::{Command, Finished, Next, Reply, Work};
use crate::filter_manager::{CallReply, Change, FilterConfiguration, Operation, PrefStep};
use crate::flow_log::{Buffered, FlowRecord};
use crate::status::{ActivationState, FilterState, FilterStatus};
use crate::sysext::{RequestKind, RequestReport};

verus! {

/// An extension that was only staged is never reported as anything but in need of a reboot, for
/// either kind of request and whatever is reported after it.
pub proof fn law_a_staged_extension_is_not_active(
    kind: RequestKind,
    received: Seq<RequestReport>,
    i: int,
    state: ActivationState,
)
    requires
        0 <= i < received.len(),
        received[i] == (RequestReport::Finished { after_reboot: true }),
        forall|j: int|
            0 <= j < i ==> !crate::sysext::ends_request(#[trigger] received[j]),
        crate::sysext::outcome(kind, received, state),
    ensures
        state == ActivationState::NeedsReboot,
{
    assert(crate::sysext::ends_request(received[i]));
}

/// The extension is reported active only after an activation that finished without a reboot; a
/// deactivation never ends active, and an activation never ends idle.
pub proof fn law_active_means_activated(
    kind: RequestKind,
    received: Seq<RequestReport>,
    state: ActivationState,
)
    requires
        crate::sysext::outcome(kind, received, state),
    ensures
        state == ActivationState::Active ==> kind == RequestKind::Activate && received.contains(
            RequestReport::Finished { after_reboot: false },
        ),
        state == ActivationState::Idle ==> kind == RequestKind::Deactivate && received.contains(
            RequestReport::Finished { after_reboot: false },
        ),
        state == ActivationState::NeedsReboot ==> received.contains(
            RequestReport::Finished { after_reboot: true },
        ),
        state != ActivationState::Pending,
{
}

/// A request on which nothing final was reported still needs the user's approval: a bare timeout
/// is not told as a failure.
pub proof fn law_waiting_for_approval_is_not_failure(
    kind: RequestKind,
    received: Seq<RequestReport>,
    state: ActivationState,
)
    requires
        crate::sysext::outcome(kind, received, state),
        forall|j: int|
            0 <= j < received.len() ==> !crate::sysext::ends_request(#[trigger] received[j]),
    ensures
        state == ActivationState::NeedsUserApproval,
{
}

/// The first final report decides: what stands behind it changes nothing.
pub proof fn law_the_first_final_report_decides(
    kind: RequestKind,
    received: Seq<RequestReport>,
    last: RequestReport,
    more: Seq<RequestReport>,
    state: ActivationState,
)
    requires
        forall|j: int|
            0 <= j < received.len() ==> !crate::sysext::ends_request(#[trigger] received[j]),
        crate::sysext::ends_request(last),
    ensures
        crate::sysext::outcome(kind, received.push(last) + more, state)
            <==> crate::sysext::reports(kind, last, state),
{
    let all = received.push(last) + more;
    let n = received.len() as int;
    assert(all[n] == last);
    assert forall|j: int| 0 <= j < n implies !crate::sysext::ends_request(#[trigger] all[j]) by {
        assert(all[j] == received[j]);
    }
    assert(crate::sysext::ends_request(all[n]));
}

/// The filter is enabled only when the extension was just reported active, and by no other step:
/// no command starts with enabling.
pub proof fn law_enabling_needs_an_active_extension(
    command: Command,
    before: ActivationState,
    finished: Finished,
    next: Next,
)
    ensures
        crate::commands::first_work_spec(command) != Work::Enable,
        crate::commands::follows(before, finished, next) && next == Next::Run(Work::Enable)
            ==> finished == (Finished::Activation { to_enable: true, state: ActivationState::Active }),
{
}

/// A command to enable the filter that finds the extension in any state but active is answered with
/// an error: neither a pending approval nor a pending reboot is success.
pub proof fn law_an_extension_that_is_not_active_is_refused(
    before: ActivationState,
    state: ActivationState,
    next: Next,
)
    requires
        state != ActivationState::Active,
        crate::commands::follows(before, Finished::Activation { to_enable: true, state }, next),
    ensures
        next matches Next::Reply(Reply::Error(_)),
{
}

/// How `finished` can be the end of `work`.
pub open spec fn ends(work: Work, finished: Finished) -> bool {
    ||| finished is Lost
    ||| match work {
        Work::Activate { to_enable } => finished matches Finished::Activation {
            to_enable: enabling,
            state,
        } && enabling == to_enable,
        Work::Enable => finished is Enabling,
        Work::Disable => finished is Disabling,
        Work::Remove => finished is Removal,
        Work::Deactivate => finished is Deactivation,
        Work::ReadEnabled => finished is Reading,
    }
}

/// How many pieces of work can still come, the present one counted.
pub open spec fn work_left(work: Work) -> nat {
    match work {
        Work::Activate { to_enable } => 3,
        Work::Enable => 2,
        Work::Disable => 2,
        Work::Remove => 3,
        Work::Deactivate => 2,
        Work::ReadEnabled => 1,
    }
}

/// Every command comes to a reply: each piece of work is followed by a reply or by work that has
/// less left to do.
pub proof fn law_every_command_is_answered(
    before: ActivationState,
    work: Work,
    finished: Finished,
    next: Next,
)
    requires
        ends(work, finished),
        crate::commands::follows(before, finished, next),
    ensures
        next matches Next::Run(more) ==> work_left(more) < work_left(work),
{
}

/// A status tells the activation last reported, and the configuration apart from it: an enabled
/// configuration is never taken for a running extension.
pub proof fn law_status_keeps_activation_and_configuration_apart(
    before: ActivationState,
    finished: Finished,
    next: Next,
)
    requires
        crate::commands::follows(before, finished, next),
    ensures
        next matches Next::Reply(Reply::Status(status)) ==> {
            &&& status.activation == before
            &&& finished == Finished::Reading(Ok(status.enabled))
        },
{
}

/// Only a report about the extension changes what is remembered of it.
pub proof fn law_only_reports_change_the_remembered_state(
    before: ActivationState,
    finished: Finished,
)
    requires
        !(finished is Activation),
        !(finished is Deactivation),
    ensures
        crate::commands::remembered(before, finished) == before,
{
}

/// Changing the configuration succeeds exactly when both calls reply without an error in time.
pub proof fn law_a_change_succeeds_when_both_calls_do(
    op: Operation,
    load: CallReply,
    second: CallReply,
    result: Result<(), String>,
)
    requires
        crate::filter_manager::tells(result, crate::filter_manager::two_call_error(op, load, second)),
    ensures
        result is Ok <==> {
            &&& load matches Some(Ok(_))
            &&& second matches Some(Ok(_))
        },
{
}

/// A load that failed or came too late is the last call of an operation: nothing is changed, saved,
/// removed or read after it. The text that the operation then ends with is the one that its outcome
/// tells, whatever a second call might have replied.
pub proof fn law_a_bad_load_ends_the_operation(
    op: Operation,
    load: CallReply,
    second: CallReply,
    step: PrefStep,
)
    requires
        crate::filter_manager::follows_load(op, load, step),
        !(load matches Some(Ok(_))),
    ensures
        step matches PrefStep::Done(text) && crate::filter_manager::two_call_error(op, load, second)
            == Some(text@),
{
}

/// A good load is followed by exactly one thing: enabling saves the configuration that switches the
/// filter on, disabling saves the filter switched off, removing removes, reading reads. Nothing else
/// is ever saved, and only removing removes.
pub proof fn law_a_good_load_is_followed_by_one_step(
    op: Operation,
    load: CallReply,
    step: PrefStep,
)
    requires
        crate::filter_manager::follows_load(op, load, step),
    ensures
        (load matches Some(Ok(_))) <==> !(step is Done),
        step is Save <==> (load matches Some(Ok(_))) && (op == Operation::Enable || op
            == Operation::Disable),
        step matches PrefStep::Save(Change::Configure(config)) ==> op == Operation::Enable
            && config.switches_on(),
        step == PrefStep::Save(Change::SwitchOff) ==> op == Operation::Disable,
        step is Remove <==> (load matches Some(Ok(_))) && op == Operation::Remove,
        step is ReadEnabled <==> (load matches Some(Ok(_))) && op == Operation::ReadEnabled,
{
}

/// A buffer that took the given records, in order.
pub open spec fn pushed_all(buffer: Buffered, records: Seq<FlowRecord>) -> Buffered
    decreases records.len(),
{
    if records.len() == 0 {
        buffer
    } else {
        pushed_all(buffer, records.drop_last()).pushed(records.last())
    }
}

/// The last `n` of a sequence.
pub open spec fn last_of(records: Seq<FlowRecord>, n: nat) -> Seq<FlowRecord> {
    if records.len() <= n {
        records
    } else {
        records.skip(records.len() - n)
    }
}

/// A buffer that took any run of records holds the newest of them, at most its capacity, in order:
/// the oldest are the ones dropped. Its counter counts all of them, as far as it can count.
pub proof fn law_the_buffer_keeps_the_newest(records: Seq<FlowRecord>)
    ensures
        pushed_all(Buffered::empty(), records).records == last_of(
            records,
            crate::flow_log::CAPACITY as nat,
        ),
        pushed_all(Buffered::empty(), records).total == if records.len() <= usize::MAX {
            records.len()
        } else {
            usize::MAX as nat
        },
        pushed_all(Buffered::empty(), records).wf(),
    decreases records.len(),
{
    let cap = crate::flow_log::CAPACITY as nat;
    if records.len() > 0 {
        let init = records.drop_last();
        law_the_buffer_keeps_the_newest(init);
        assert(records =~= init.push(records.last()));
        if records.len() > cap {
            if init.len() == cap {
                assert(last_of(init, cap) =~= init);
            }
            assert(last_of(records, cap) =~= last_of(init, cap).drop_first().push(records.last()));
        }
    }
}

/// What is read from a buffer is what was pushed last, newest first, and never more than asked for.
pub proof fn law_recent_is_newest_first(buffer: Buffered, record: FlowRecord, limit: nat)
    requires
        buffer.wf(),
    ensures
        buffer.recent(limit).len() <= limit,
        buffer.recent(limit).len() <= buffer.records.len(),
        limit > 0 ==> buffer.pushed(record).recent(limit)[0] == record,
        limit < crate::flow_log::CAPACITY ==> buffer.pushed(record).recent(limit + 1).skip(1)
            == buffer.recent(limit),
{
    if limit < crate::flow_log::CAPACITY {
        assert(buffer.pushed(record).recent(limit + 1).skip(1) =~= buffer.recent(limit));
    }
}

/// A record that was written behind the marker is read back from the line it stands on, whatever
/// the log puts in front of it, as long as that holds no marker.
pub proof fn law_a_record_reads_back(prefix: Seq<char>, record: Seq<char>, payload: Seq<char>)
    requires
        forall|i: int|
            0 <= i < prefix.len() ==> !#[trigger] crate::flow_log::marker_at(
                prefix + crate::flow_log::RECORD_MARKER@ + record,
                i,
            ),
    ensures
        crate::flow_log::is_payload(prefix + crate::flow_log::RECORD_MARKER@ + record, payload)
            <==> payload == record,
{
    let marker = crate::flow_log::RECORD_MARKER@;
    let line = prefix + marker + record;
    let n = prefix.len() as int;
    assert(line.subrange(n, n + marker.len()) =~= marker);
    assert(crate::flow_log::marker_at(line, n));
    assert(line.skip(n + marker.len()) =~= record);
    if crate::flow_log::is_payload(line, payload) {
        let i = choose|i: int|
            {
                &&& #[trigger] crate::flow_log::marker_at(line, i)
                &&& forall|j: int| 0 <= j < i ==> !#[trigger] crate::flow_log::marker_at(line, j)
                &&& payload == line.skip(i + marker.len())
            };
        if i < n {
            assert(!crate::flow_log::marker_at(line, i));
        } else if n < i {
            assert(!crate::flow_log::marker_at(line, n));
        }
    }
}

/// A message keeps its length when it is logged, and a message without a NUL is logged verbatim.
pub proof fn law_logging_only_replaces_nuls(msg: Seq<char>)
    ensures
        crate::logging::logged_text(msg).len() == msg.len(),
        !msg.contains('\0') ==> crate::logging::logged_text(msg) == msg,
        !crate::logging::logged_text(msg).contains('\0'),
{
    if !msg.contains('\0') {
        assert forall|i: int| 0 <= i < msg.len() implies msg[i] != '\0' by {}
        assert(crate::logging::logged_text(msg) =~= msg);
    }
}

/// What one report says: that the user is asked is no end; a finish that takes effect after a reboot
/// is a pending reboot for either kind of request; a finish at once makes the extension active or
/// takes it away; a failure carries the description and the code. Only the first of these leaves the
/// request open.
pub proof fn law_a_report_says_where_the_extension_stands(
    kind: RequestKind,
    report: &RequestReport,
    state: ActivationState,
    last: bool,
)
    requires
        call_ensures(crate::sysext::reported_state, (kind, report), state),
        call_ensures(crate::sysext::is_terminal, (report,), last),
    ensures
        last <==> !(report is NeedsUserApproval),
        crate::sysext::ends_request(*report) <==> !(report is NeedsUserApproval),
        report is NeedsUserApproval <==> state == ActivationState::NeedsUserApproval,
        *report == (RequestReport::Finished { after_reboot: true }) <==> state
            == ActivationState::NeedsReboot,
        *report == (RequestReport::Finished { after_reboot: false }) && kind
            == RequestKind::Activate <==> state == ActivationState::Active,
        *report == (RequestReport::Finished { after_reboot: false }) && kind
            == RequestKind::Deactivate <==> state == ActivationState::Idle,
        report is Failed <==> state is Failed,
        *report matches RequestReport::Failed { description, code } ==> state->Failed_0@
            == "activation failed: "@ + description@ + " (code "@ + crate::text::signed_decimal(
            code as int,
        ) + ")"@,
{
}

/// The outcome of a request, by what was reported on it: the first report that does not ask for the
/// user's approval decides, and without one the approval is still needed. Activating and
/// deactivating are such requests, each of its kind.
pub proof fn law_a_request_ends_as_first_reported(
    kind: RequestKind,
    received: &Vec<RequestReport>,
    i: int,
    told: ActivationState,
    state: ActivationState,
    activated: ActivationState,
    deactivated: ActivationState,
)
    requires
        0 <= i <= received@.len(),
        forall|j: int| 0 <= j < i ==> (#[trigger] received@[j]) is NeedsUserApproval,
        i < received@.len() ==> !(received@[i] is NeedsUserApproval),
        i < received@.len() ==> call_ensures(
            crate::sysext::reported_state,
            (kind, &received@[i]),
            told,
        ),
        call_ensures(crate::sysext::submit, (kind, received), state),
        call_ensures(crate::sysext::activate, (received,), activated),
        call_ensures(crate::sysext::deactivate, (received,), deactivated),
    ensures
        i == received@.len() ==> state == ActivationState::NeedsUserApproval,
        i < received@.len() ==> {
            &&& told is Failed <==> state is Failed
            &&& told is Failed ==> state->Failed_0@ == told->Failed_0@
            &&& !(told is Failed) ==> state == told
        },
        i < received@.len() && received@[i] == (RequestReport::Finished { after_reboot: false })
            ==> activated == ActivationState::Active && deactivated == ActivationState::Idle,
        i < received@.len() && received@[i] == (RequestReport::Finished { after_reboot: true })
            ==> activated == ActivationState::NeedsReboot && deactivated
            == ActivationState::NeedsReboot,
        i < received@.len() && received@[i] is Failed ==> activated is Failed && deactivated
            is Failed,
        i == received@.len() ==> activated == ActivationState::NeedsUserApproval && deactivated
            == ActivationState::NeedsUserApproval,
        crate::sysext::APPROVAL_TIMEOUT_SECS == 180,
{
    assert forall|j: int| 0 <= j < i implies !crate::sysext::ends_request(
        #[trigger] received@[j],
    ) by {}
    if i < received@.len() {
        assert(crate::sysext::ends_request(received@[i]));
    }
}

/// Enabling a filter saves one that filters sockets and not packets, is provided by the
/// content-filter extension, and is switched on.
pub proof fn law_an_enabled_filter_has_its_provider(config: FilterConfiguration)
    requires
        call_ensures(crate::filter_manager::enabled_configuration, (), config),
    ensures
        config.filter_sockets && !config.filter_packets && config.enabled,
        config.provider_bundle@ == "com.digiexam.macos.NetworkExtensions.ContentFilter"@,
        config.description@ == "Digiexam Content Filter"@,
{
}

/// What is done after a load, written out: with a load that failed or came too late an operation
/// ends; with a good one it makes the one call, or the one reading, that it is named for.
pub proof fn law_each_operation_takes_its_own_step(
    op: Operation,
    load: CallReply,
    step: PrefStep,
    secs: u64,
)
    requires
        call_ensures(crate::filter_manager::next_call, (op, load), step),
        call_ensures(Operation::deadline_secs, (op,), secs),
    ensures
        (load is None || load->0 is Err) <==> step is Done,
        load is None && op == Operation::Enable ==> step->Done_0@
            == "enabling the filter timed out"@,
        load is None && op == Operation::Disable ==> step->Done_0@
            == "saving filter preferences timed out"@,
        load is None && op == Operation::Remove ==> step->Done_0@
            == "removing the filter timed out"@,
        load is None && op == Operation::ReadEnabled ==> step->Done_0@
            == "reading filter status timed out"@,
        load is Some && load->0 is Err ==> step->Done_0@ == "loadFromPreferences failed: "@
            + load->0->Err_0@,
        !(step is Done) ==> {
            &&& op == Operation::Enable ==> (step matches PrefStep::Save(Change::Configure(config))
                && config.filter_sockets && !config.filter_packets && config.enabled
                && config.provider_bundle@
                == "com.digiexam.macos.NetworkExtensions.ContentFilter"@ && config.description@
                == "Digiexam Content Filter"@)
            &&& op == Operation::Disable <==> step == PrefStep::Save(Change::SwitchOff)
            &&& op == Operation::Remove <==> step == PrefStep::Remove
            &&& op == Operation::ReadEnabled <==> step == PrefStep::ReadEnabled
        },
        op == Operation::Enable ==> secs == 60,
        op == Operation::Disable ==> secs == 30,
        op == Operation::Remove ==> secs == 30,
        op == Operation::ReadEnabled ==> secs == 15,
{
}

/// `result` is what an operation of two calls comes to: a success when both replied without an
/// error in time, and else the text of the first thing that went wrong.
pub open spec fn comes_to(
    result: Result<(), String>,
    load: CallReply,
    second: CallReply,
    late: Seq<char>,
    failed: Seq<char>,
) -> bool {
    if load is None {
        result is Err && result->Err_0@ == late
    } else if load->0 is Err {
        result is Err && result->Err_0@ == "loadFromPreferences failed: "@ + load->0->Err_0@
    } else if second is None {
        result is Err && result->Err_0@ == late
    } else if second->0 is Err {
        result is Err && result->Err_0@ == failed + second->0->Err_0@
    } else {
        result is Ok
    }
}

/// Enabling, disabling and removing succeed when both of their calls do, and else tell the first
/// thing that went wrong. Reading succeeds when the load does, with what was read.
pub proof fn law_an_operation_tells_what_went_wrong_first(
    load: CallReply,
    second: CallReply,
    on: bool,
    enabled: Result<(), String>,
    disabled: Result<(), String>,
    removed: Result<(), String>,
    read: Result<bool, String>,
)
    requires
        call_ensures(crate::filter_manager::enable, (load, second), enabled),
        call_ensures(crate::filter_manager::disable, (load, second), disabled),
        call_ensures(crate::filter_manager::remove, (load, second), removed),
        call_ensures(crate::filter_manager::is_enabled, (load, on), read),
    ensures
        comes_to(
            enabled,
            load,
            second,
            "enabling the filter timed out"@,
            "saveToPreferences failed: "@,
        ),
        comes_to(
            disabled,
            load,
            second,
            "saving filter preferences timed out"@,
            "saveToPreferences failed: "@,
        ),
        comes_to(
            removed,
            load,
            second,
            "removing the filter timed out"@,
            "removeFromPreferences failed: "@,
        ),
        load is Some && load->0 is Ok ==> read == Ok::<bool, String>(on),
        load is None ==> read is Err && read->Err_0@ == "reading filter status timed out"@,
        load is Some && load->0 is Err ==> read is Err && read->Err_0@
            == "loadFromPreferences failed: "@ + load->0->Err_0@,
{
}

/// A command starts with the work that it is named for; enabling starts with the activation.
pub proof fn law_a_command_starts_with_its_own_work(command: Command, work: Work)
    requires
        call_ensures(crate::commands::first_work, (command,), work),
    ensures
        command == Command::ActivateExtension <==> work == (Work::Activate { to_enable: false }),
        command == Command::EnableFilter <==> work == (Work::Activate { to_enable: true }),
        command == Command::DisableFilter <==> work == Work::Disable,
        command == Command::RemoveFilter <==> work == Work::Remove,
        command == Command::FilterStatus <==> work == Work::ReadEnabled,
{
}

/// Only an active extension is ready, and every other state says what is missing: the user's
/// approval, a restart, or what failed.
pub proof fn law_only_an_active_extension_is_ready(
    state: &ActivationState,
    ready: Result<(), String>,
)
    requires
        call_ensures(crate::commands::check_ready, (state,), ready),
    ensures
        ready is Ok <==> *state == ActivationState::Active,
        *state == ActivationState::NeedsUserApproval ==> ready->Err_0@
            == "Approve the extension in System Settings → General → Login Items & Extensions → Network Extensions, then try again."@,
        *state == ActivationState::NeedsReboot ==> ready->Err_0@
            == "A different version of the extension is still running. Restart the Mac, then enable the filter again."@,
        *state matches ActivationState::Failed(e) ==> ready->Err_0@ == e@,
        *state == ActivationState::Idle ==> ready->Err_0@ == "extension not ready: Idle"@,
        *state == ActivationState::Pending ==> ready->Err_0@ == "extension not ready: Pending"@,
{
}

/// What comes after each piece of work that went well: the filter is enabled after an activation
/// made for that, a removed configuration is followed by the deactivation, and every change ends
/// with reading the status. The reply to an activation is its state, and the reply to a reading is
/// what was read beside the state last reported.
pub proof fn law_work_that_went_well_goes_on_in_order(
    before: ActivationState,
    finished: Finished,
    next: Next,
)
    requires
        crate::commands::follows(before, finished, next),
    ensures
        finished == (Finished::Activation { to_enable: true, state: ActivationState::Active })
            ==> next == Next::Run(Work::Enable),
        finished matches Finished::Activation { to_enable: false, state } ==> next == Next::Reply(
            Reply::Activation(state),
        ),
        finished == Finished::Enabling(Ok(())) ==> next == Next::Run(Work::ReadEnabled),
        finished == Finished::Disabling(Ok(())) ==> next == Next::Run(Work::ReadEnabled),
        finished == Finished::Removal(Ok(())) ==> next == Next::Run(Work::Deactivate),
        finished is Deactivation ==> next == Next::Run(Work::ReadEnabled),
        finished matches Finished::Reading(Ok(enabled)) ==> next == Next::Reply(
            Reply::Status(FilterStatus { activation: before, enabled }),
        ),
{
}

/// Work that failed ends the command with its own text, and work that was lost says so; an extension
/// that is not ready ends it with what is missing.
pub proof fn law_work_that_failed_ends_the_command(
    before: ActivationState,
    finished: Finished,
    ready: Result<(), String>,
    next: Next,
)
    requires
        crate::commands::follows(before, finished, next),
        finished matches Finished::Activation { to_enable, state } ==> call_ensures(
            crate::commands::check_ready,
            (&state,),
            ready,
        ),
    ensures
        finished matches Finished::Enabling(Err(e)) ==> (next matches Next::Reply(Reply::Error(text))
            && text@ == e@),
        finished matches Finished::Disabling(Err(e)) ==> (next matches Next::Reply(Reply::Error(text))
            && text@ == e@),
        finished matches Finished::Removal(Err(e)) ==> (next matches Next::Reply(Reply::Error(text))
            && text@ == e@),
        finished matches Finished::Reading(Err(e)) ==> (next matches Next::Reply(Reply::Error(text))
            && text@ == e@),
        finished matches Finished::Lost(e) ==> (next matches Next::Reply(Reply::Error(text))
            && text@ == "background task failed: "@ + e@),
        finished matches Finished::Activation { to_enable: true, state } ==> (state
            != ActivationState::Active ==> (next matches Next::Reply(Reply::Error(text)) && text@
            == ready->Err_0@)),
{
}

/// What is remembered of the extension is what was last reported of it: the outcome of an activation
/// or of a deactivation, at once; nothing else changes it.
pub proof fn law_the_last_report_is_remembered(before: ActivationState, finished: Finished)
    ensures
        finished matches Finished::Activation { to_enable, state } ==> crate::commands::remembered(
            before,
            finished,
        ) == state,
        finished matches Finished::Deactivation(state) ==> crate::commands::remembered(
            before,
            finished,
        ) == state,
        !(finished is Activation) && !(finished is Deactivation) ==> crate::commands::remembered(
            before,
            finished,
        ) == before,
{
}

/// A status holds the activation that is remembered and the switch that was read, each for itself;
/// and before anything was reported the extension is idle.
pub proof fn law_a_status_holds_what_is_known(
    state: &FilterState,
    enabled: bool,
    status: FilterStatus,
    first: FilterState,
    first_activation: ActivationState,
)
    requires
        call_ensures(crate::commands::status_now, (state, enabled), status),
        call_ensures(FilterState::default, (), first),
        call_ensures(ActivationState::default, (), first_activation),
    ensures
        status.activation == state.activation,
        status.enabled == enabled,
        first.activation == ActivationState::Idle,
        first_activation == ActivationState::Idle,
{
}

/// A step of a command remembers what was last reported of the extension, and goes on from what was
/// remembered before.
pub proof fn law_a_step_remembers_and_goes_on(
    state: &mut FilterState,
    finished: Finished,
    next: Next,
)
    requires
        call_ensures(crate::commands::next_step, (state, finished), next),
    ensures
        finished matches Finished::Activation { to_enable, state: reported }
            ==> final(state).activation == reported,
        finished matches Finished::Deactivation(reported) ==> final(state).activation == reported,
        !(finished is Activation) && !(finished is Deactivation) ==> final(state).activation
            == old(state).activation,
        crate::commands::follows(old(state).activation, finished, next),
{
}

} // verus!
