//! The filter configuration and the outcome of changing it.
//!
//! Every operation loads the saved preferences first. What comes after the load is decided by
//! [`next_call`]: a load that failed or came too late ends the operation, so that nothing is
//! changed, saved or removed. After a good load the preferences are changed and saved once, or
//! removed once, or read. Each call replies with an error text or without one, and the whole
//! operation has a deadline.

use vstd::prelude::*;

verus! {

/// Bundle identifier of the content-filter system extension.
pub const FILTER_SYSEXT_ID: &'static str = "com.digiexam.macos.NetworkExtensions.ContentFilter";

/// Description shown in System Settings.
pub const FILTER_DESCRIPTION: &'static str = "Digiexam Content Filter";

/// What can be done with the filter configuration.
#[derive(Debug, Clone, Copy, PartialEq, Eq, Structural)]
pub enum Operation {
    Enable,
    Disable,
    Remove,
    ReadEnabled,
}

/// The reply to one call; `None` when the deadline came first.
pub type CallReply = Option<Result<(), String>>;

impl Operation {
    pub open spec fn timeout_spec(self) -> Seq<char> {
        match self {
            Operation::Enable => "enabling the filter timed out"@,
            Operation::Disable => "saving filter preferences timed out"@,
            Operation::Remove => "removing the filter timed out"@,
            Operation::ReadEnabled => "reading filter status timed out"@,
        }
    }

    pub open spec fn second_failure_spec(self) -> Seq<char> {
        match self {
            Operation::Remove => "removeFromPreferences failed: "@,
            _ => "saveToPreferences failed: "@,
        }
    }

    pub open spec fn deadline_spec(self) -> u64 {
        match self {
            Operation::Enable => 60,
            Operation::Disable => 30,
            Operation::Remove => 30,
            Operation::ReadEnabled => 15,
        }
    }

    /// How long to wait for the operation to end, in seconds. Enabling can prompt for an
    /// administrator's password, so it gets the most.
    pub fn deadline_secs(self) -> (secs: u64)
        ensures
            secs == self.deadline_spec(),
    {
        match self {
            Operation::Enable => 60,
            Operation::Disable => 30,
            Operation::Remove => 30,
            Operation::ReadEnabled => 15,
        }
    }

    /// What is reported when the deadline passed.
    fn timeout_text(self) -> (text: &'static str)
        ensures
            text@ == self.timeout_spec(),
    {
        match self {
            Operation::Enable => "enabling the filter timed out",
            Operation::Disable => "saving filter preferences timed out",
            Operation::Remove => "removing the filter timed out",
            Operation::ReadEnabled => "reading filter status timed out",
        }
    }

    /// What stands in front of the error of the second call.
    fn second_failure_text(self) -> (text: &'static str)
        ensures
            text@ == self.second_failure_spec(),
    {
        match self {
            Operation::Remove => "removeFromPreferences failed: ",
            _ => "saveToPreferences failed: ",
        }
    }
}

/// The configuration that enabling the filter saves.
#[derive(Debug, PartialEq, Eq)]
pub struct FilterConfiguration {
    /// Socket-level filtering covers TCP and UDP, over IPv4 and IPv6.
    pub filter_sockets: bool,
    /// Packet-level filtering is another provider mode.
    pub filter_packets: bool,
    /// The extension that provides the filter.
    pub provider_bundle: &'static str,
    pub description: &'static str,
    pub enabled: bool,
}

impl FilterConfiguration {
    /// Sockets and not packets, provided by the content-filter extension, switched on.
    pub open spec fn switches_on(self) -> bool {
        &&& self.filter_sockets
        &&& !self.filter_packets
        &&& self.provider_bundle@ == FILTER_SYSEXT_ID@
        &&& self.description@ == FILTER_DESCRIPTION@
        &&& self.enabled
    }
}

/// The configuration that enabling the filter saves: sockets and not packets, provided by the
/// content-filter extension, switched on.
pub fn enabled_configuration() -> (config: FilterConfiguration)
    ensures
        config.switches_on(),
{
    FilterConfiguration {
        filter_sockets: true,
        filter_packets: false,
        provider_bundle: FILTER_SYSEXT_ID,
        description: FILTER_DESCRIPTION,
        enabled: true,
    }
}

/// The error text of an operation of two calls; `None` when both succeeded.
pub open spec fn two_call_error(op: Operation, load: CallReply, second: CallReply) -> Option<
    Seq<char>,
> {
    match load {
        None => Some(op.timeout_spec()),
        Some(Err(e)) => Some("loadFromPreferences failed: "@ + e@),
        Some(Ok(_)) => match second {
            None => Some(op.timeout_spec()),
            Some(Err(e)) => Some(op.second_failure_spec() + e@),
            Some(Ok(_)) => None,
        },
    }
}

/// `result` is a success exactly when there is no error, and else carries the error's text.
pub open spec fn tells(result: Result<(), String>, error: Option<Seq<char>>) -> bool {
    match error {
        Some(text) => result matches Err(e) && e@ == text,
        None => result is Ok,
    }
}

/// The outcome of loading the preferences alone.
fn after_load(op: Operation, load: CallReply) -> (result: Result<(), String>)
    ensures
        match load {
            None => result matches Err(e) && e@ == op.timeout_spec(),
            Some(Err(text)) => result matches Err(e) && e@ == "loadFromPreferences failed: "@
                + text@,
            Some(Ok(_)) => result is Ok,
        },
{
    match load {
        None => Err(op.timeout_text().to_owned()),
        Some(Err(e)) => {
            let mut text = "loadFromPreferences failed: ".to_owned();
            text.append(&e);
            Err(text)
        },
        Some(Ok(_)) => Ok(()),
    }
}

/// A change of the loaded preferences.
#[derive(Debug, PartialEq, Eq)]
pub enum Change {
    /// Put a configuration in.
    Configure(FilterConfiguration),
    /// Set the filter's switch to off, and leave the rest of the configuration as it is.
    SwitchOff,
}

/// What an operation does once its load has ended.
#[derive(Debug, PartialEq, Eq)]
pub enum PrefStep {
    /// Make the change on the loaded preferences, then save them; each once.
    Save(Change),
    /// Remove the preferences, once.
    Remove,
    /// Read from the loaded preferences whether the filter is enabled.
    ReadEnabled,
    /// Nothing more: the operation has failed, with this text.
    Done(String),
}

/// `step` is what an operation does after its load replied with `load`.
pub open spec fn follows_load(op: Operation, load: CallReply, step: PrefStep) -> bool {
    match load {
        None => step matches PrefStep::Done(text) && text@ == op.timeout_spec(),
        Some(Err(e)) => step matches PrefStep::Done(text) && text@
            == "loadFromPreferences failed: "@ + e@,
        Some(Ok(_)) => match op {
            Operation::Enable => step matches PrefStep::Save(Change::Configure(config))
                && config.switches_on(),
            Operation::Disable => step == PrefStep::Save(Change::SwitchOff),
            Operation::Remove => step == PrefStep::Remove,
            Operation::ReadEnabled => step == PrefStep::ReadEnabled,
        },
    }
}

/// What an operation does once its load has ended. A load that failed or came too late ends the
/// operation; after a good one, enabling and disabling save a change, removing removes, and reading
/// reads.
pub fn next_call(op: Operation, load: CallReply) -> (step: PrefStep)
    ensures
        follows_load(op, load, step),
{
    match after_load(op, load) {
        Err(text) => PrefStep::Done(text),
        Ok(_) => match op {
            Operation::Enable => PrefStep::Save(Change::Configure(enabled_configuration())),
            Operation::Disable => PrefStep::Save(Change::SwitchOff),
            Operation::Remove => PrefStep::Remove,
            Operation::ReadEnabled => PrefStep::ReadEnabled,
        },
    }
}

/// The outcome of an operation that loads the preferences and then makes a second call.
fn after_both(op: Operation, load: CallReply, second: CallReply) -> (result: Result<(), String>)
    ensures
        tells(result, two_call_error(op, load, second)),
{
    match after_load(op, load) {
        Err(e) => Err(e),
        Ok(_) => match second {
            None => Err(op.timeout_text().to_owned()),
            Some(Err(e)) => {
                let mut text = op.second_failure_text().to_owned();
                text.append(&e);
                Err(text)
            },
            Some(Ok(_)) => Ok(()),
        },
    }
}

/// The outcome of enabling the filter: load the preferences, put [`enabled_configuration`] in, and
/// save. `save` counts only after a good load: [`next_call`] asks for no save after any other.
pub fn enable(load: CallReply, save: CallReply) -> (result: Result<(), String>)
    ensures
        tells(result, two_call_error(Operation::Enable, load, save)),
{
    after_both(Operation::Enable, load, save)
}

/// The outcome of disabling the filter, which keeps its configuration: load the preferences,
/// switch the filter off, and save. `save` counts only after a good load.
pub fn disable(load: CallReply, save: CallReply) -> (result: Result<(), String>)
    ensures
        tells(result, two_call_error(Operation::Disable, load, save)),
{
    after_both(Operation::Disable, load, save)
}

/// The outcome of removing the configuration: load the preferences, and remove them. `removal`
/// counts only after a good load.
pub fn remove(load: CallReply, removal: CallReply) -> (result: Result<(), String>)
    ensures
        tells(result, two_call_error(Operation::Remove, load, removal)),
{
    after_both(Operation::Remove, load, removal)
}

/// Whether a filter configuration is enabled, as the loaded preferences say. This reflects the
/// saved configuration, not whether a provider is running.
pub fn is_enabled(load: CallReply, enabled: bool) -> (result: Result<bool, String>)
    ensures
        match load {
            None => result matches Err(e) && e@ == Operation::ReadEnabled.timeout_spec(),
            Some(Err(text)) => result matches Err(e) && e@ == "loadFromPreferences failed: "@
                + text@,
            Some(Ok(_)) => result == Ok::<bool, String>(enabled),
        },
{
    match after_load(Operation::ReadEnabled, load) {
        Ok(_) => Ok(enabled),
        Err(e) => Err(e),
    }
}

} // verus!
