//! Activating and deactivating the system extension.
//!
//! A request is submitted to the OS, which then reports on it through callbacks. Only some reports
//! end the request: that the user still has to approve is a report too, and the waiting goes on
//! after it.

use vstd::prelude::*;
use crate::status::ActivationState;
use crate::text::push_signed_decimal;

verus! {

/// How long to wait for a report that ends a request, in seconds. The user's walk to System
/// Settings is part of it.
pub const APPROVAL_TIMEOUT_SECS: u64 = 180;

/// What is asked of the OS.
#[derive(Debug, Clone, Copy, PartialEq, Eq, Structural)]
pub enum RequestKind {
    Activate,
    Deactivate,
}

/// One report of the OS on a request.
pub enum RequestReport {
    /// The request is parked until the user approves it.
    NeedsUserApproval,
    /// The request finished, at once or with effect from the next reboot.
    Finished { after_reboot: bool },
    /// The request failed.
    Failed { description: String, code: isize },
}

/// What the text of a failed request says.
pub open spec fn failure_text(description: Seq<char>, code: int) -> Seq<char> {
    "activation failed: "@ + description + " (code "@ + crate::text::signed_decimal(code) + ")"@
}

/// `state` is what `report` says about a request of the given kind.
pub open spec fn reports(kind: RequestKind, report: RequestReport, state: ActivationState) -> bool {
    match report {
        RequestReport::NeedsUserApproval => state == ActivationState::NeedsUserApproval,
        RequestReport::Finished { after_reboot } => if after_reboot {
            state == ActivationState::NeedsReboot
        } else {
            match kind {
                RequestKind::Activate => state == ActivationState::Active,
                RequestKind::Deactivate => state == ActivationState::Idle,
            }
        },
        RequestReport::Failed { description, code } => state matches ActivationState::Failed(text)
            && text@ == failure_text(description@, code as int),
    }
}

/// A report that ends the request.
pub open spec fn ends_request(report: RequestReport) -> bool {
    !(report is NeedsUserApproval)
}

/// What a report says about a request: an extension that is only staged needs a reboot, one that
/// finished at once is active after an activation and gone after a deactivation.
pub fn reported_state(kind: RequestKind, report: &RequestReport) -> (state: ActivationState)
    ensures
        reports(kind, *report, state),
{
    match report {
        RequestReport::NeedsUserApproval => ActivationState::NeedsUserApproval,
        RequestReport::Finished { after_reboot } => if *after_reboot {
            ActivationState::NeedsReboot
        } else {
            match kind {
                RequestKind::Activate => ActivationState::Active,
                RequestKind::Deactivate => ActivationState::Idle,
            }
        },
        RequestReport::Failed { description, code } => {
            let mut text = "activation failed: ".to_owned();
            text.append(description);
            text.append(" (code ");
            push_signed_decimal(&mut text, *code as i64);
            text.append(")");
            assert(text@ =~= failure_text(description@, *code as int));
            ActivationState::Failed(text)
        },
    }
}

/// Whether a report ends the request, so that the waiting can stop.
pub fn is_terminal(report: &RequestReport) -> (ends: bool)
    ensures
        ends == ends_request(*report),
{
    match report {
        RequestReport::NeedsUserApproval => false,
        _ => true,
    }
}

/// `state` is the outcome of a request on which `received` was reported before the waiting ended.
pub open spec fn outcome(
    kind: RequestKind,
    received: Seq<RequestReport>,
    state: ActivationState,
) -> bool {
    ||| exists|i: int|
        {
            &&& 0 <= i < received.len()
            &&& ends_request(#[trigger] received[i])
            &&& forall|j: int| 0 <= j < i ==> !ends_request(#[trigger] received[j])
            &&& reports(kind, received[i], state)
        }
    ||| {
        &&& forall|j: int| 0 <= j < received.len() ==> !ends_request(#[trigger] received[j])
        &&& state == ActivationState::NeedsUserApproval
    }
}

/// The outcome of a request: what the first report that ends it says, and, when the waiting ended
/// without one, that the user's approval is still needed.
pub fn submit(kind: RequestKind, received: &Vec<RequestReport>) -> (state: ActivationState)
    ensures
        outcome(kind, received@, state),
{
    let mut i: usize = 0;
    while i < received.len()
        invariant
            i <= received@.len(),
            forall|j: int| 0 <= j < i ==> !ends_request(#[trigger] received@[j]),
        decreases received@.len() - i,
    {
        if is_terminal(&received[i]) {
            let state = reported_state(kind, &received[i]);
            assert(ends_request(received@[i as int]));
            return state;
        }
        i = i + 1;
    }
    ActivationState::NeedsUserApproval
}

/// The outcome of a request to activate the extension.
pub fn activate(received: &Vec<RequestReport>) -> (state: ActivationState)
    ensures
        outcome(RequestKind::Activate, received@, state),
{
    submit(RequestKind::Activate, received)
}

/// The outcome of a request to deactivate (uninstall) the extension.
pub fn deactivate(received: &Vec<RequestReport>) -> (state: ActivationState)
    ensures
        outcome(RequestKind::Deactivate, received@, state),
{
    submit(RequestKind::Deactivate, received)
}

} // verus!
