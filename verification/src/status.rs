//! Where the system extension and its filter configuration stand.

use vstd::prelude::*;

verus! {

/// Where the system extension stands.
///
/// `NeedsUserApproval` and `NeedsReboot` are states of their own: neither is success, and an
/// extension in either of them is not running.
#[derive(Debug, PartialEq, Eq)]
pub enum ActivationState {
    /// No activation has been attempted this session.
    Idle,
    /// Request submitted, waiting on the framework.
    Pending,
    /// Waiting for the user in System Settings.
    NeedsUserApproval,
    /// Activated and running.
    Active,
    /// Staged, not activated: the version installed before keeps running until a reboot.
    NeedsReboot,
    Failed(String),
}

impl Clone for ActivationState {
    fn clone(&self) -> (res: Self)
        ensures
            res == *self,
    {
        match self {
            ActivationState::Idle => ActivationState::Idle,
            ActivationState::Pending => ActivationState::Pending,
            ActivationState::NeedsUserApproval => ActivationState::NeedsUserApproval,
            ActivationState::Active => ActivationState::Active,
            ActivationState::NeedsReboot => ActivationState::NeedsReboot,
            ActivationState::Failed(e) => ActivationState::Failed(e.clone()),
        }
    }
}

impl Default for ActivationState {
    fn default() -> (state: Self)
        ensures
            state == ActivationState::Idle,
    {
        ActivationState::Idle
    }
}

/// Combined status: is the extension installed, and is the filter switched on?
#[derive(Debug, PartialEq, Eq)]
pub struct FilterStatus {
    pub activation: ActivationState,
    /// Whether a filter configuration is enabled. Independent of `activation`: it can be true
    /// while no provider is running.
    pub enabled: bool,
}

impl Clone for FilterStatus {
    fn clone(&self) -> (res: Self)
        ensures
            res == *self,
    {
        FilterStatus { activation: self.activation.clone(), enabled: self.enabled }
    }
}

/// What is remembered between commands.
#[derive(Debug)]
pub struct FilterState {
    /// The last activation outcome.
    pub activation: ActivationState,
}

impl Default for FilterState {
    fn default() -> (state: Self)
        ensures
            state.activation == ActivationState::Idle,
    {
        FilterState { activation: ActivationState::default() }
    }
}

} // verus!
