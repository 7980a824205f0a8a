//! Progress of contract negotiations, transfer processes and credential requests: where a
//! process stands on its expected path, and when watching it can stop.

use vstd::prelude::*;

verus! {

/// The state of a contract negotiation.
#[derive(Debug, Clone, PartialEq)]
pub enum NegotiationState {
    Initial,
    Requesting,
    Requested,
    Offering,
    Offered,
    Accepting,
    Accepted,
    Agreeing,
    Agreed,
    Verifying,
    Verified,
    Finalizing,
    Finalized,
    Terminating,
    Terminated,
    Other(String),
}

/// The state of a transfer process.
#[derive(Debug, Clone, PartialEq)]
pub enum TransferState {
    Initial,
    Provisioning,
    ProvisioningRequested,
    Provisioned,
    Requesting,
    Requested,
    Starting,
    Started,
    Suspending,
    Suspended,
    Resuming,
    Resumed,
    Completing,
    Completed,
    Terminating,
    Terminated,
    Deprovisioning,
    DeprovisioningRequested,
    Deprovisioned,
    Other(String),
}

/// How a step of a progress stepper is shown.
#[derive(Debug, Clone, Copy, PartialEq, Eq)]
pub enum StepStatus {
    Success,
    Default,
    Pending,
}

/// The status of step `index` of `count` steps when the process stands at step `current`:
/// steps before it succeeded, it is current (or succeeded when it is the last step), and
/// later ones are pending.
pub open spec fn step_status(index: int, current: int, count: int) -> StepStatus {
    if index < current {
        StepStatus::Success
    } else if index == current {
        if index == count - 1 {
            StepStatus::Success
        } else {
            StepStatus::Default
        }
    } else {
        StepStatus::Pending
    }
}

/// The statuses of `count` steps when the process stands at step `current`.
pub fn step_statuses(current: usize, count: usize) -> (res: Vec<StepStatus>)
    ensures
        res@.len() == count,
        forall|i: int| 0 <= i < count ==> #[trigger] res@[i] == step_status(i, current as int, count as int),
{
    let mut out: Vec<StepStatus> = Vec::new();
    let mut i: usize = 0;
    while i < count
        invariant
            i <= count,
            out@.len() == i,
            forall|k: int| 0 <= k < i ==> #[trigger] out@[k] == step_status(k, current as int, count as int),
        decreases count - i,
    {
        let status = if i < current {
            StepStatus::Success
        } else if i == current {
            if i == count - 1 {
                StepStatus::Success
            } else {
                StepStatus::Default
            }
        } else {
            StepStatus::Pending
        };
        out.push(status);
        i += 1;
    }
    out
}

/// The steps of a negotiation's expected path, by name.
pub open spec fn negotiation_path_names() -> Seq<Seq<char>> {
    seq!["Initial"@, "Requested"@, "Offered"@, "Accepted"@, "Agreed"@, "Verified"@, "Finalized"@]
}

/// The states of a negotiation's expected path, step by step, in the order of their names.
pub open spec fn negotiation_path_states() -> Seq<NegotiationState> {
    seq![
        NegotiationState::Initial,
        NegotiationState::Requested,
        NegotiationState::Offered,
        NegotiationState::Accepted,
        NegotiationState::Agreed,
        NegotiationState::Verified,
        NegotiationState::Finalized,
    ]
}

/// Where a negotiation in `state` stands on its expected path; the first step for a
/// state off the path.
pub open spec fn negotiation_step(state: NegotiationState) -> nat {
    match state {
        NegotiationState::Initial => 0,
        NegotiationState::Requested => 1,
        NegotiationState::Offered => 2,
        NegotiationState::Accepted => 3,
        NegotiationState::Agreed => 4,
        NegotiationState::Verified => 5,
        NegotiationState::Finalized => 6,
        _ => 0,
    }
}

/// Where a negotiation in `state` stands on its expected path.
pub fn negotiation_step_index(state: &NegotiationState) -> (res: usize)
    ensures
        res == negotiation_step(*state),
{
    match state {
        NegotiationState::Initial => 0,
        NegotiationState::Requested => 1,
        NegotiationState::Offered => 2,
        NegotiationState::Accepted => 3,
        NegotiationState::Agreed => 4,
        NegotiationState::Verified => 5,
        NegotiationState::Finalized => 6,
        _ => 0,
    }
}

fn negotiation_path_name(i: usize) -> (res: String)
    requires
        i < 7,
    ensures
        res@ == negotiation_path_names()[i as int],
{
    if i == 0 {
        "Initial".to_string()
    } else if i == 1 {
        "Requested".to_string()
    } else if i == 2 {
        "Offered".to_string()
    } else if i == 3 {
        "Accepted".to_string()
    } else if i == 4 {
        "Agreed".to_string()
    } else if i == 5 {
        "Verified".to_string()
    } else {
        "Finalized".to_string()
    }
}

/// The steps of a negotiation's expected path as the stepper shows them, with their status
/// for a negotiation in `state`.
pub fn negotiation_steps(state: &NegotiationState) -> (res: Vec<(String, StepStatus)>)
    ensures
        res@.len() == 7,
        forall|i: int| 0 <= i < 7 ==> (#[trigger] res@[i]).0@ == negotiation_path_names()[i]
            && res@[i].1 == step_status(i, negotiation_step(*state) as int, 7),
{
    let statuses = step_statuses(negotiation_step_index(state), 7);
    let mut out: Vec<(String, StepStatus)> = Vec::new();
    let mut i: usize = 0;
    while i < 7
        invariant
            i <= 7,
            statuses@.len() == 7,
            forall|k: int| 0 <= k < 7 ==> #[trigger] statuses@[k] == step_status(k, negotiation_step(*state) as int, 7),
            out@.len() == i,
            forall|k: int| 0 <= k < i ==> (#[trigger] out@[k]).0@ == negotiation_path_names()[k]
                && out@[k].1 == statuses@[k],
        decreases 7 - i,
    {
        out.push((negotiation_path_name(i), statuses[i]));
        i += 1;
    }
    out
}


/// The steps of a transfer's expected path, by name.
pub open spec fn transfer_path_names() -> Seq<Seq<char>> {
    seq!["Initial"@, "Provisioned"@, "Requested"@, "Started"@, "Completed"@]
}

/// The states of a transfer's expected path, step by step, in the order of their names.
pub open spec fn transfer_path_states() -> Seq<TransferState> {
    seq![
        TransferState::Initial,
        TransferState::Provisioned,
        TransferState::Requested,
        TransferState::Started,
        TransferState::Completed,
    ]
}

/// Where a transfer in `state` stands on its expected path; the first step for a state off
/// the path.
pub open spec fn transfer_step(state: TransferState) -> nat {
    match state {
        TransferState::Initial => 0,
        TransferState::Provisioned => 1,
        TransferState::Requested => 2,
        TransferState::Started => 3,
        TransferState::Completed => 4,
        _ => 0,
    }
}

/// Where a transfer in `state` stands on its expected path.
pub fn transfer_step_index(state: &TransferState) -> (res: usize)
    ensures
        res == transfer_step(*state),
{
    match state {
        TransferState::Initial => 0,
        TransferState::Provisioned => 1,
        TransferState::Requested => 2,
        TransferState::Started => 3,
        TransferState::Completed => 4,
        _ => 0,
    }
}

fn transfer_path_name(i: usize) -> (res: String)
    requires
        i < 5,
    ensures
        res@ == transfer_path_names()[i as int],
{
    if i == 0 {
        "Initial".to_string()
    } else if i == 1 {
        "Provisioned".to_string()
    } else if i == 2 {
        "Requested".to_string()
    } else if i == 3 {
        "Started".to_string()
    } else {
        "Completed".to_string()
    }
}

/// The steps of a transfer's expected path as the stepper shows them, with their status
/// for a transfer in `state`.
pub fn transfer_steps(state: &TransferState) -> (res: Vec<(String, StepStatus)>)
    ensures
        res@.len() == 5,
        forall|i: int| 0 <= i < 5 ==> (#[trigger] res@[i]).0@ == transfer_path_names()[i]
            && res@[i].1 == step_status(i, transfer_step(*state) as int, 5),
{
    let statuses = step_statuses(transfer_step_index(state), 5);
    let mut out: Vec<(String, StepStatus)> = Vec::new();
    let mut i: usize = 0;
    while i < 5
        invariant
            i <= 5,
            statuses@.len() == 5,
            forall|k: int| 0 <= k < 5 ==> #[trigger] statuses@[k] == step_status(k, transfer_step(*state) as int, 5),
            out@.len() == i,
            forall|k: int| 0 <= k < i ==> (#[trigger] out@[k]).0@ == transfer_path_names()[k]
                && out@[k].1 == statuses@[k],
        decreases 5 - i,
    {
        out.push((transfer_path_name(i), statuses[i]));
        i += 1;
    }
    out
}

/// What the watcher of a process does after reading its state.
#[derive(Debug, Clone, Copy, PartialEq, Eq)]
pub enum WatchStep {
    /// Report that the process started, and stop watching.
    ReportStarted,
    /// Report that the process ended, and stop watching.
    ReportFinished,
    /// Wait, then read the state again.
    KeepWatching,
}

/// The watcher's step for a negotiation whose state was read as `state` (`None` when it
/// could not be read): a finalized or terminated negotiation has ended.
pub open spec fn negotiation_watch(state: Option<NegotiationState>) -> WatchStep {
    match state {
        Some(NegotiationState::Finalized) => WatchStep::ReportFinished,
        Some(NegotiationState::Terminated) => WatchStep::ReportFinished,
        _ => WatchStep::KeepWatching,
    }
}

/// What to do after reading a negotiation's state.
pub fn watch_negotiation(state: &Option<NegotiationState>) -> (res: WatchStep)
    ensures
        res == negotiation_watch(*state),
{
    match state {
        Some(NegotiationState::Finalized) => WatchStep::ReportFinished,
        Some(NegotiationState::Terminated) => WatchStep::ReportFinished,
        _ => WatchStep::KeepWatching,
    }
}

/// The watcher's step for a transfer whose state was read as `state`: a started transfer
/// is reported as started, a completed or terminated one as ended.
pub open spec fn transfer_watch(state: Option<TransferState>) -> WatchStep {
    match state {
        Some(TransferState::Started) => WatchStep::ReportStarted,
        Some(TransferState::Completed) => WatchStep::ReportFinished,
        Some(TransferState::Terminated) => WatchStep::ReportFinished,
        _ => WatchStep::KeepWatching,
    }
}

/// What to do after reading a transfer's state.
pub fn watch_transfer(state: &Option<TransferState>) -> (res: WatchStep)
    ensures
        res == transfer_watch(*state),
{
    match state {
        Some(TransferState::Started) => WatchStep::ReportStarted,
        Some(TransferState::Completed) => WatchStep::ReportFinished,
        Some(TransferState::Terminated) => WatchStep::ReportFinished,
        _ => WatchStep::KeepWatching,
    }
}

/// The state of a credential request at the identity hub.
#[derive(Debug, Clone, Copy, PartialEq, Eq)]
pub enum CredentialRequestState {
    Initial,
    Requesting,
    Requested,
    Issuing,
    Issued,
    Revoked,
    Suspended,
    Expired,
    NotYetValid,
    Error,
}

/// The watcher's step for a credential request whose state was read as `state` (`None`
/// when it could not be read): an issued or failed request has ended.
pub open spec fn credential_watch(state: Option<CredentialRequestState>) -> WatchStep {
    match state {
        Some(CredentialRequestState::Issued) => WatchStep::ReportFinished,
        Some(CredentialRequestState::Error) => WatchStep::ReportFinished,
        _ => WatchStep::KeepWatching,
    }
}

/// What to do after reading a credential request's state.
pub fn watch_credential_request(state: &Option<CredentialRequestState>) -> (res: WatchStep)
    ensures
        res == credential_watch(*state),
{
    match state {
        Some(CredentialRequestState::Issued) => WatchStep::ReportFinished,
        Some(CredentialRequestState::Error) => WatchStep::ReportFinished,
        _ => WatchStep::KeepWatching,
    }
}

/// What a status panel shows.
#[derive(Debug, Clone, PartialEq)]
pub enum StatusPanel {
    /// The error message of the process.
    Failure(String),
    /// The stepper of the process.
    Progress,
    /// Nothing yet.
    Empty,
}

/// The panel for a process with error message `error` whose state has (`has_state`) or has
/// not been read: an error wins, then the stepper.
pub fn status_panel(error: Option<String>, has_state: bool) -> (res: StatusPanel)
    ensures
        match error {
            Some(e) => res == StatusPanel::Failure(e),
            None => res == if has_state { StatusPanel::Progress } else { StatusPanel::Empty },
        },
{
    match error {
        Some(e) => StatusPanel::Failure(e),
        None => if has_state {
            StatusPanel::Progress
        } else {
            StatusPanel::Empty
        },
    }
}

/// The colour of a negotiation's state label.
#[derive(Debug, Clone, Copy, PartialEq, Eq)]
pub enum StateColor {
    Green,
    Red,
    Blue,
}

/// The colour for a negotiation state named `state`: green when finalized, red when
/// terminated, blue otherwise.
pub open spec fn state_color(state: Seq<char>) -> StateColor {
    if state == "Finalized"@ {
        StateColor::Green
    } else if state == "Terminated"@ {
        StateColor::Red
    } else {
        StateColor::Blue
    }
}

/// The colour of the label of a negotiation state named `state`.
pub fn negotiation_state_color(state: &str) -> (res: StateColor)
    ensures
        res == state_color(state@),
{
    if crate::text::str_eq(state, "Finalized") {
        StateColor::Green
    } else if crate::text::str_eq(state, "Terminated") {
        StateColor::Red
    } else {
        StateColor::Blue
    }
}

} // verus!
