//! The heart-rate manager's outer loop: scan, pick, connect, claim, run the
//! session, and scan again. It decides only; the driver performs each action
//! and reports the outcome as the next event.

use vstd::prelude::*;

verus! {

/// How long the manager waits before scanning again after a failed or empty
/// scan, in milliseconds.
pub const RETRY_DELAY_MS: u64 = 1000;

/// How claiming the chosen device ended.
#[derive(Debug, Clone, Copy, PartialEq, Eq, Structural)]
pub enum ClaimOutcome {
    /// A variant claimed it; `is_known` tells whether it is in the registry.
    Claimed { is_known: bool },
    /// No variant claims it.
    NoMatch,
    /// Matching failed.
    Failed,
}

/// Something the manager's driver observed.
#[derive(Debug, Clone, Copy, PartialEq, Eq, Structural)]
pub enum ManagerEvent {
    /// A scan failed, for instance because no radio adapter exists.
    ScanFailed,
    /// A scan found `count` candidates.
    Scanned { count: usize },
    /// The pick: a candidate, or none (rescan asked for, or no answer).
    Chosen { picked: bool },
    /// Connecting to the picked device finished.
    ConnectFinished { ok: bool },
    /// Claiming the connected device finished.
    ClaimFinished(ClaimOutcome),
    /// The device's session ended, however it ended.
    SessionEnded,
}

/// Something the manager's driver must do next.
#[derive(Debug, Clone, Copy, PartialEq, Eq, Structural)]
pub enum ManagerAction {
    /// Wait `RETRY_DELAY_MS` milliseconds.
    Wait,
    /// Scan for candidates.
    Scan,
    /// Pick a candidate, automatically or by asking.
    Choose,
    /// Connect to the picked candidate.
    Connect,
    /// Run the diagnostic variant's session on it.
    RunDebugSession,
    /// Let the registered variants try to claim it.
    Claim,
    /// Add the claimed device to the registry.
    Register,
    /// Make it the current device and run its session.
    RunSession,
}

/// The actions that follow an event. `debug_device` asks for the diagnostic
/// variant instead of matching.
pub open spec fn manager_actions(event: ManagerEvent, debug_device: bool) -> Seq<ManagerAction> {
    match event {
        ManagerEvent::ScanFailed => seq![ManagerAction::Wait, ManagerAction::Scan],
        ManagerEvent::Scanned { count } => if count == 0 {
            seq![ManagerAction::Wait, ManagerAction::Scan]
        } else {
            seq![ManagerAction::Choose]
        },
        ManagerEvent::Chosen { picked } => if picked {
            seq![ManagerAction::Connect]
        } else {
            seq![ManagerAction::Scan]
        },
        ManagerEvent::ConnectFinished { ok } => if !ok {
            seq![ManagerAction::Scan]
        } else if debug_device {
            seq![ManagerAction::RunDebugSession]
        } else {
            seq![ManagerAction::Claim]
        },
        ManagerEvent::ClaimFinished(outcome) => match outcome {
            ClaimOutcome::Claimed { is_known } => if is_known {
                seq![ManagerAction::RunSession]
            } else {
                seq![ManagerAction::Register, ManagerAction::RunSession]
            },
            _ => seq![ManagerAction::Scan],
        },
        ManagerEvent::SessionEnded => seq![ManagerAction::Scan],
    }
}

/// Computes `manager_actions`.
pub fn next_actions(event: ManagerEvent, debug_device: bool) -> (r: Vec<ManagerAction>)
    ensures
        r@ == manager_actions(event, debug_device),
{
    let mut r: Vec<ManagerAction> = Vec::new();
    match event {
        ManagerEvent::ScanFailed => {
            r.push(ManagerAction::Wait);
            r.push(ManagerAction::Scan);
        },
        ManagerEvent::Scanned { count } => {
            if count == 0 {
                r.push(ManagerAction::Wait);
                r.push(ManagerAction::Scan);
            } else {
                r.push(ManagerAction::Choose);
            }
        },
        ManagerEvent::Chosen { picked } => {
            if picked {
                r.push(ManagerAction::Connect);
            } else {
                r.push(ManagerAction::Scan);
            }
        },
        ManagerEvent::ConnectFinished { ok } => {
            if !ok {
                r.push(ManagerAction::Scan);
            } else if debug_device {
                r.push(ManagerAction::RunDebugSession);
            } else {
                r.push(ManagerAction::Claim);
            }
        },
        ManagerEvent::ClaimFinished(outcome) => {
            match outcome {
                ClaimOutcome::Claimed { is_known } => {
                    if !is_known {
                        r.push(ManagerAction::Register);
                    }
                    r.push(ManagerAction::RunSession);
                },
                _ => r.push(ManagerAction::Scan),
            }
        },
        ManagerEvent::SessionEnded => r.push(ManagerAction::Scan),
    }
    assert(r@ =~= manager_actions(event, debug_device));
    r
}

/// The manager never gives up: every event, failures included, is followed
/// by at least one action, and every failure leads back to scanning.
pub proof fn lemma_never_gives_up(event: ManagerEvent, debug_device: bool)
    ensures
        manager_actions(event, debug_device).len() > 0,
        (event == ManagerEvent::ScanFailed || event == ManagerEvent::SessionEnded || event
            == ManagerEvent::ClaimFinished(ClaimOutcome::Failed) || event == ManagerEvent::ClaimFinished(
            ClaimOutcome::NoMatch,
        ) || event == (ManagerEvent::ConnectFinished { ok: false })) ==> manager_actions(event, debug_device).last()
            == ManagerAction::Scan,
{
}

} // verus!
