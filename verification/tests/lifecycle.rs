use content_filter::attribution::AppId;
use content_filter::commands::{
    check_ready, first_work, next_step, status_now, Command, Finished, Next, Reply, Work,
};
use content_filter::filter_manager::{
    disable, enable, enabled_configuration, is_enabled, next_call, remove, Change, Operation,
    PrefStep, FILTER_SYSEXT_ID,
};
use content_filter::flow::{AddressFamily, FlowInfo, TransportProtocol};
use content_filter::logging::{flow, lifecycle};
use content_filter::probe::{tcp_probe, ConnectAttempt, TestConnectResult};
use content_filter::provider::{
    handle_new_flow, start_filter, stop_filter, stop_reason_label,
};
use content_filter::rules::{reload, Action, ActiveRules, RuleSet};
use content_filter::status::{ActivationState, FilterState, FilterStatus};
use content_filter::sysext::{
    activate, deactivate, is_terminal, reported_state, RequestKind, RequestReport,
};

#[test]
fn stop_reasons_are_named() {
    assert_eq!(stop_reason_label(1), "UserInitiated");
    assert_eq!(stop_reason_label(10), "ConfigurationRemoved");
    assert_eq!(stop_reason_label(999), "unknown");
}

#[test]
fn stop_reasons_at_the_ends_of_the_range() {
    assert_eq!(stop_reason_label(0), "None");
    assert_eq!(stop_reason_label(16), "AppUpdate");
    assert_eq!(stop_reason_label(17), "unknown");
    assert_eq!(stop_reason_label(-1), "unknown");
    let entry = stop_filter(9);
    assert_eq!(entry.category, "lifecycle");
    assert_eq!(entry.text, "stopFilter: reason=9 (ConfigurationDisabled)");
    assert_eq!(stop_filter(isize::MIN).text, format!("stopFilter: reason={} (unknown)", isize::MIN));
}

fn named_flow() -> FlowInfo {
    FlowInfo {
        ts_ms: 0,
        family: AddressFamily::V4,
        protocol: TransportProtocol::Tcp,
        remote_host: Some("192.0.2.1".into()),
        remote_port: Some(443),
        hostname: None,
        url_host: None,
        app: Some(AppId { name: ".com.apple.Safari\0".into(), source: "id" }),
        pid: Some(10),
    }
}

#[test]
fn a_new_flow_is_decided_by_the_rules_in_force_and_logged() {
    let mut active = ActiveRules::new();
    let verdict = handle_new_flow(&active, &named_flow());
    assert_eq!(verdict.action, Action::Allow);
    assert_eq!(verdict.entry.category, "flow");
    assert_eq!(
        verdict.entry.text,
        "allow TCP  IPv4 192.0.2.1:443  app=.com.apple.Safari\u{fffd}(id) pid=10"
    );
    let nothing = RuleSet { default_action: Action::Drop, rules: vec![] };
    let _ = reload(&mut active, Ok(nothing));
    let verdict = handle_new_flow(&active, &named_flow());
    assert_eq!(verdict.action, Action::Drop);
    assert!(verdict.entry.text.starts_with("drop  TCP "));
}

#[test]
fn starting_the_filter_picks_up_rewritten_rules() {
    let mut active = ActiveRules::new();
    let nothing = RuleSet { default_action: Action::Drop, rules: vec![] };
    let entries = start_filter(&mut active, Ok(nothing));
    let lines: Vec<&str> = entries.iter().map(|entry| entry.text.as_str()).collect();
    assert_eq!(
        lines,
        vec![
            "rules: loaded 0 rule(s), default=drop from /Users/Shared/Digiexam/rules.json",
            "startFilter: provider started. No NEFilterSettings applied \u{2014} the framework \
             default action is already FilterData.",
        ]
    );
    assert!(entries.iter().all(|entry| entry.category == "lifecycle"));
    assert_eq!(handle_new_flow(&active, &named_flow()).action, Action::Drop);

    // A file that cannot be read keeps what was loaded before.
    let entries = start_filter(&mut active, Err("gone".into()));
    assert!(entries[0].text.starts_with("rules: COULD NOT LOAD (gone); keeping 0 rule(s), default=drop"));
    assert_eq!(entries.len(), 2);
    assert_eq!(handle_new_flow(&active, &named_flow()).action, Action::Drop);
}

#[test]
fn nuls_are_replaced_in_the_log() {
    let entry = lifecycle("a\0b\0");
    assert_eq!(entry.category, "lifecycle");
    assert_eq!(entry.text, "a\u{fffd}b\u{fffd}");
    assert_eq!(entry.echo, "a\0b\0");
    let entry = flow("drop \u{2192} nothing");
    assert_eq!(entry.category, "flow");
    assert_eq!(entry.text, "drop \u{2192} nothing");
}

#[test]
fn an_unresolvable_host_is_reported_as_blocked() {
    let attempt = ConnectAttempt::Unresolved("no such host".into());
    match tcp_probe("this-host-should-not-resolve.invalid", attempt) {
        TestConnectResult::Blocked(text) => assert_eq!(
            text,
            "could not resolve this-host-should-not-resolve.invalid: no such host"
        ),
        other => panic!("expected Blocked, got {other:?}"),
    }
}

#[test]
fn connection_attempts_are_classified() {
    assert_eq!(tcp_probe("h", ConnectAttempt::Connected), TestConnectResult::Reachable);
    assert_eq!(tcp_probe("h", ConnectAttempt::TimedOut), TestConnectResult::TimedOut);
    assert_eq!(
        tcp_probe("h", ConnectAttempt::Failed("connection refused".into())),
        TestConnectResult::Blocked("connection refused".into())
    );
    assert_eq!(
        tcp_probe("h", ConnectAttempt::NoAddress),
        TestConnectResult::Blocked("h resolved to no address".into())
    );
}

fn finished(after_reboot: bool) -> RequestReport {
    RequestReport::Finished { after_reboot }
}

#[test]
fn a_staged_extension_needs_a_reboot() {
    let received = vec![RequestReport::NeedsUserApproval, finished(true)];
    assert_eq!(activate(&received), ActivationState::NeedsReboot);
    assert_eq!(deactivate(&received), ActivationState::NeedsReboot);
}

#[test]
fn a_finished_request_is_active_or_idle() {
    let received = vec![RequestReport::NeedsUserApproval, finished(false), finished(true)];
    assert_eq!(activate(&received), ActivationState::Active);
    assert_eq!(deactivate(&received), ActivationState::Idle);
}

#[test]
fn a_request_without_a_final_report_waits_for_approval() {
    assert_eq!(activate(&vec![]), ActivationState::NeedsUserApproval);
    assert_eq!(
        deactivate(&vec![RequestReport::NeedsUserApproval]),
        ActivationState::NeedsUserApproval
    );
    assert!(!is_terminal(&RequestReport::NeedsUserApproval));
    assert!(is_terminal(&finished(false)));
}

#[test]
fn a_failed_request_carries_its_code() {
    let failed = RequestReport::Failed { description: "invalid signature".into(), code: -8 };
    assert!(is_terminal(&failed));
    assert_eq!(
        reported_state(RequestKind::Activate, &failed),
        ActivationState::Failed("activation failed: invalid signature (code -8)".into())
    );
    assert_eq!(
        activate(&vec![failed]),
        ActivationState::Failed("activation failed: invalid signature (code -8)".into())
    );
}

#[test]
fn changing_the_configuration_reports_the_call_that_failed() {
    let fail = |text: &str| Some(Err(text.to_string()));
    let ok = || Some(Ok(()));
    assert_eq!(enable(ok(), ok()), Ok(()));
    assert_eq!(enable(fail("x"), ok()), Err("loadFromPreferences failed: x".into()));
    assert_eq!(enable(ok(), fail("x")), Err("saveToPreferences failed: x".into()));
    assert_eq!(enable(None, None), Err("enabling the filter timed out".into()));
    assert_eq!(enable(ok(), None), Err("enabling the filter timed out".into()));
    assert_eq!(disable(ok(), ok()), Ok(()));
    assert_eq!(disable(ok(), fail("x")), Err("saveToPreferences failed: x".into()));
    assert_eq!(disable(None, ok()), Err("saving filter preferences timed out".into()));
    assert_eq!(remove(ok(), ok()), Ok(()));
    assert_eq!(remove(ok(), fail("x")), Err("removeFromPreferences failed: x".into()));
    assert_eq!(remove(ok(), None), Err("removing the filter timed out".into()));
    assert_eq!(is_enabled(ok(), true), Ok(true));
    assert_eq!(is_enabled(ok(), false), Ok(false));
    assert_eq!(is_enabled(fail("x"), true), Err("loadFromPreferences failed: x".into()));
    assert_eq!(is_enabled(None, true), Err("reading filter status timed out".into()));
}

#[test]
fn enabling_filters_sockets_and_not_packets() {
    let config = enabled_configuration();
    assert!(config.filter_sockets && !config.filter_packets && config.enabled);
    assert_eq!(config.provider_bundle, FILTER_SYSEXT_ID);
    assert_eq!(config.description, "Digiexam Content Filter");
    assert_eq!(Operation::Enable.deadline_secs(), 60);
    assert_eq!(Operation::Disable.deadline_secs(), 30);
    assert_eq!(Operation::Remove.deadline_secs(), 30);
    assert_eq!(Operation::ReadEnabled.deadline_secs(), 15);
}

#[test]
fn enabling_goes_through_activation() {
    let mut state = FilterState::default();
    assert_eq!(state.activation, ActivationState::Idle);
    assert_eq!(first_work(Command::EnableFilter), Work::Activate { to_enable: true });
    let active = Finished::Activation { to_enable: true, state: ActivationState::Active };
    assert_eq!(next_step(&mut state, active), Next::Run(Work::Enable));
    assert_eq!(state.activation, ActivationState::Active);
    assert_eq!(next_step(&mut state, Finished::Enabling(Ok(()))), Next::Run(Work::ReadEnabled));
    assert_eq!(
        next_step(&mut state, Finished::Reading(Ok(true))),
        Next::Reply(Reply::Status(FilterStatus {
            activation: ActivationState::Active,
            enabled: true,
        }))
    );
}

#[test]
fn enabling_is_refused_unless_the_extension_is_active() {
    let states = vec![
        ActivationState::Idle,
        ActivationState::Pending,
        ActivationState::NeedsUserApproval,
        ActivationState::NeedsReboot,
        ActivationState::Failed("activation failed: x (code 1)".into()),
    ];
    for found in states {
        let mut state = FilterState::default();
        let why = check_ready(&found).unwrap_err();
        let event = Finished::Activation { to_enable: true, state: found.clone() };
        assert_eq!(next_step(&mut state, event), Next::Reply(Reply::Error(why)));
        assert_eq!(state.activation, found);
    }
    assert_eq!(check_ready(&ActivationState::Idle), Err("extension not ready: Idle".into()));
    assert_eq!(check_ready(&ActivationState::Pending), Err("extension not ready: Pending".into()));
    assert_eq!(
        check_ready(&ActivationState::NeedsUserApproval),
        Err("Approve the extension in System Settings \u{2192} General \u{2192} Login Items & \
             Extensions \u{2192} Network Extensions, then try again."
            .into())
    );
    assert_eq!(
        check_ready(&ActivationState::NeedsReboot),
        Err("A different version of the extension is still running. Restart the Mac, then enable \
             the filter again."
            .into())
    );
    assert_eq!(check_ready(&ActivationState::Failed("x".into())), Err("x".into()));
}

#[test]
fn removing_deactivates_and_reports_idle() {
    let mut state = FilterState { activation: ActivationState::Active };
    assert_eq!(first_work(Command::RemoveFilter), Work::Remove);
    assert_eq!(next_step(&mut state, Finished::Removal(Ok(()))), Next::Run(Work::Deactivate));
    let gone = Finished::Deactivation(deactivate(&vec![finished(false)]));
    assert_eq!(next_step(&mut state, gone), Next::Run(Work::ReadEnabled));
    let status = FilterStatus { activation: ActivationState::Idle, enabled: false };
    assert_eq!(
        next_step(&mut state, Finished::Reading(Ok(false))),
        Next::Reply(Reply::Status(status))
    );
}

#[test]
fn other_commands_and_their_errors() {
    let mut state = FilterState { activation: ActivationState::Active };
    assert_eq!(first_work(Command::ActivateExtension), Work::Activate { to_enable: false });
    assert_eq!(first_work(Command::DisableFilter), Work::Disable);
    assert_eq!(first_work(Command::FilterStatus), Work::ReadEnabled);
    let staged = Finished::Activation { to_enable: false, state: ActivationState::NeedsReboot };
    assert_eq!(
        next_step(&mut state, staged),
        Next::Reply(Reply::Activation(ActivationState::NeedsReboot))
    );
    assert_eq!(next_step(&mut state, Finished::Disabling(Ok(()))), Next::Run(Work::ReadEnabled));
    let error = |text: &str| Next::Reply(Reply::Error(text.to_string()));
    assert_eq!(next_step(&mut state, Finished::Enabling(Err("e".into()))), error("e"));
    assert_eq!(next_step(&mut state, Finished::Disabling(Err("d".into()))), error("d"));
    assert_eq!(next_step(&mut state, Finished::Removal(Err("r".into()))), error("r"));
    assert_eq!(next_step(&mut state, Finished::Reading(Err("s".into()))), error("s"));
    assert_eq!(
        next_step(&mut state, Finished::Lost("panic".into())),
        error("background task failed: panic")
    );
    // None of these says anything about the extension.
    assert_eq!(state.activation, ActivationState::NeedsReboot);
    assert_eq!(status_now(&state, true).activation, ActivationState::NeedsReboot);
}

#[test]
fn a_bad_load_stops_every_operation() {
    for op in [Operation::Enable, Operation::Disable, Operation::Remove, Operation::ReadEnabled] {
        assert_eq!(
            next_call(op, Some(Err("x".into()))),
            PrefStep::Done("loadFromPreferences failed: x".into())
        );
    }
    assert_eq!(
        next_call(Operation::Enable, None),
        PrefStep::Done("enabling the filter timed out".into())
    );
    assert_eq!(
        next_call(Operation::Disable, None),
        PrefStep::Done("saving filter preferences timed out".into())
    );
    assert_eq!(
        next_call(Operation::Remove, None),
        PrefStep::Done("removing the filter timed out".into())
    );
    assert_eq!(
        next_call(Operation::ReadEnabled, None),
        PrefStep::Done("reading filter status timed out".into())
    );
}

#[test]
fn a_good_load_is_followed_by_one_step() {
    assert_eq!(
        next_call(Operation::Enable, Some(Ok(()))),
        PrefStep::Save(Change::Configure(enabled_configuration()))
    );
    assert_eq!(next_call(Operation::Disable, Some(Ok(()))), PrefStep::Save(Change::SwitchOff));
    assert_eq!(next_call(Operation::Remove, Some(Ok(()))), PrefStep::Remove);
    assert_eq!(next_call(Operation::ReadEnabled, Some(Ok(()))), PrefStep::ReadEnabled);
}

#[test]
fn results_can_be_cloned() {
    let status = FilterStatus { activation: ActivationState::Failed("x".into()), enabled: true };
    assert_eq!(status.clone(), status);
    for result in [
        TestConnectResult::Reachable,
        TestConnectResult::Blocked("x".into()),
        TestConnectResult::TimedOut,
    ] {
        assert_eq!(result.clone(), result);
    }
}
