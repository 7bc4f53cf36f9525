//! The commands that the user can give, as steps around the outside work they need.
//!
//! A command starts with one piece of work. When a piece of work has ended, [`next_step`] records
//! what it says about the extension and tells what comes next: more work, or the reply.
//!
//! Activation gates enabling. Enabling a filter whose extension is only staged gives a
//! configuration that shows up in System Settings and filters nothing, so enabling is never
//! attempted unless the extension is active.

use vstd::prelude::*;
use crate::status::{ActivationState, FilterState, FilterStatus};

verus! {

/// A command of the user.
#[derive(Debug, Clone, Copy, PartialEq, Eq, Structural)]
pub enum Command {
    ActivateExtension,
    EnableFilter,
    DisableFilter,
    RemoveFilter,
    FilterStatus,
}

/// A piece of work outside this library.
#[derive(Debug, Clone, Copy, PartialEq, Eq, Structural)]
pub enum Work {
    /// Activate the extension, on its own or in order to enable the filter.
    Activate { to_enable: bool },
    Enable,
    Disable,
    Remove,
    Deactivate,
    ReadEnabled,
}

/// How a piece of work ended.
pub enum Finished {
    Activation { to_enable: bool, state: ActivationState },
    Enabling(Result<(), String>),
    Disabling(Result<(), String>),
    Removal(Result<(), String>),
    Deactivation(ActivationState),
    Reading(Result<bool, String>),
    /// The work was lost with the task that ran it.
    Lost(String),
}

/// The answer to a command.
#[derive(Debug, PartialEq, Eq)]
pub enum Reply {
    Activation(ActivationState),
    Status(FilterStatus),
    Error(String),
}

/// What comes after a piece of work.
#[derive(Debug, PartialEq, Eq)]
pub enum Next {
    Run(Work),
    Reply(Reply),
}

/// Why the filter cannot be enabled in a state; `None` when it can.
pub open spec fn refusal(state: ActivationState) -> Option<Seq<char>> {
    match state {
        ActivationState::Active => None,
        ActivationState::NeedsUserApproval => Some(
            "Approve the extension in System Settings → General → Login Items & Extensions → Network Extensions, then try again."@,
        ),
        ActivationState::NeedsReboot => Some(
            "A different version of the extension is still running. Restart the Mac, then enable the filter again."@,
        ),
        ActivationState::Failed(e) => Some(e@),
        ActivationState::Idle => Some("extension not ready: Idle"@),
        ActivationState::Pending => Some("extension not ready: Pending"@),
    }
}

/// Whether the filter may be enabled in a state; if not, the error says why.
pub fn check_ready(state: &ActivationState) -> (ready: Result<(), String>)
    ensures
        match refusal(*state) {
            None => ready is Ok,
            Some(text) => ready matches Err(e) && e@ == text,
        },
{
    match state {
        ActivationState::Active => Ok(()),
        ActivationState::NeedsUserApproval => Err(
            "Approve the extension in System Settings → General → Login Items & Extensions → Network Extensions, then try again.".to_owned(),
        ),
        ActivationState::NeedsReboot => Err(
            "A different version of the extension is still running. Restart the Mac, then enable the filter again.".to_owned(),
        ),
        ActivationState::Failed(e) => Err(e.clone()),
        ActivationState::Idle => Err("extension not ready: Idle".to_owned()),
        ActivationState::Pending => Err("extension not ready: Pending".to_owned()),
    }
}

pub open spec fn first_work_spec(command: Command) -> Work {
    match command {
        Command::ActivateExtension => Work::Activate { to_enable: false },
        Command::EnableFilter => Work::Activate { to_enable: true },
        Command::DisableFilter => Work::Disable,
        Command::RemoveFilter => Work::Remove,
        Command::FilterStatus => Work::ReadEnabled,
    }
}

/// The work that a command starts with.
pub fn first_work(command: Command) -> (work: Work)
    ensures
        work == first_work_spec(command),
{
    match command {
        Command::ActivateExtension => Work::Activate { to_enable: false },
        Command::EnableFilter => Work::Activate { to_enable: true },
        Command::DisableFilter => Work::Disable,
        Command::RemoveFilter => Work::Remove,
        Command::FilterStatus => Work::ReadEnabled,
    }
}

/// The activation state that is remembered once a piece of work has ended.
pub open spec fn remembered(before: ActivationState, finished: Finished) -> ActivationState {
    match finished {
        Finished::Activation { to_enable, state } => state,
        Finished::Deactivation(state) => state,
        _ => before,
    }
}

/// `next` is an error reply with the given text.
pub open spec fn is_error(next: Next, text: Seq<char>) -> bool {
    next matches Next::Reply(Reply::Error(e)) && e@ == text
}

/// `next` is what comes after `finished`, `before` being the activation state remembered until
/// then.
pub open spec fn follows(before: ActivationState, finished: Finished, next: Next) -> bool {
    match finished {
        Finished::Activation { to_enable, state } => if to_enable {
            match refusal(state) {
                None => next == Next::Run(Work::Enable),
                Some(text) => is_error(next, text),
            }
        } else {
            next == Next::Reply(Reply::Activation(state))
        },
        Finished::Enabling(Ok(_)) => next == Next::Run(Work::ReadEnabled),
        Finished::Disabling(Ok(_)) => next == Next::Run(Work::ReadEnabled),
        Finished::Removal(Ok(_)) => next == Next::Run(Work::Deactivate),
        Finished::Deactivation(state) => next == Next::Run(Work::ReadEnabled),
        Finished::Reading(Ok(enabled)) => next == Next::Reply(
            Reply::Status(FilterStatus { activation: before, enabled }),
        ),
        Finished::Enabling(Err(e)) => is_error(next, e@),
        Finished::Disabling(Err(e)) => is_error(next, e@),
        Finished::Removal(Err(e)) => is_error(next, e@),
        Finished::Reading(Err(e)) => is_error(next, e@),
        Finished::Lost(e) => is_error(next, "background task failed: "@ + e@),
    }
}

/// Record what a piece of work says about the extension, and tell what comes next.
pub fn next_step(state: &mut FilterState, finished: Finished) -> (next: Next)
    ensures
        final(state).activation == remembered(old(state).activation, finished),
        follows(old(state).activation, finished, next),
{
    match finished {
        Finished::Activation { to_enable, state: activation } => {
            state.activation = activation.clone();
            if !to_enable {
                return Next::Reply(Reply::Activation(activation));
            }
            match check_ready(&activation) {
                Ok(_) => Next::Run(Work::Enable),
                Err(e) => Next::Reply(Reply::Error(e)),
            }
        },
        Finished::Enabling(Ok(_)) => Next::Run(Work::ReadEnabled),
        Finished::Disabling(Ok(_)) => Next::Run(Work::ReadEnabled),
        Finished::Removal(Ok(_)) => Next::Run(Work::Deactivate),
        Finished::Deactivation(activation) => {
            state.activation = activation;
            Next::Run(Work::ReadEnabled)
        },
        Finished::Reading(Ok(enabled)) => Next::Reply(
            Reply::Status(status_now(state, enabled)),
        ),
        Finished::Enabling(Err(e)) => Next::Reply(Reply::Error(e)),
        Finished::Disabling(Err(e)) => Next::Reply(Reply::Error(e)),
        Finished::Removal(Err(e)) => Next::Reply(Reply::Error(e)),
        Finished::Reading(Err(e)) => Next::Reply(Reply::Error(e)),
        Finished::Lost(e) => {
            let mut text = "background task failed: ".to_owned();
            text.append(&e);
            Next::Reply(Reply::Error(text))
        },
    }
}

/// The live status: the configuration as it was just read, and the activation last observed.
pub fn status_now(state: &FilterState, enabled: bool) -> (status: FilterStatus)
    ensures
        status == (FilterStatus { activation: state.activation, enabled }),
{
    FilterStatus { activation: state.activation.clone(), enabled }
}

} // verus!
