//! The session's heartbeat state machine: subscribing, active, reconnecting,
//! and the single teardown that ends a session.
//!
//! The machine only decides; whoever drives it performs each returned action
//! (subscribing, sleeping, reconnecting, publishing) and feeds the outcome back
//! as the next event.

use vstd::prelude::*;

use crate::reading::{apply_notification, notification_result, HrmState};

verus! {

/// Phase of a session's lifecycle.
#[derive(Debug, Clone, Copy, PartialEq, Eq, Structural)]
pub enum SessionPhase {
    /// Subscribing to the characteristics and opening the notification stream.
    Subscribing,
    /// Connected; liveness is polled once per second.
    Active,
    /// The connection was lost; one reconnect attempt is under way.
    Reconnecting,
    /// The session ended after a failed reconnect and has been torn down.
    Terminated,
    /// Subscribing failed; the session is discarded without teardown.
    Failed,
}

/// Something that happened to a session.
#[derive(Debug, Clone)]
pub enum SessionEvent {
    /// Every characteristic was subscribed and the notification stream is open.
    Subscribed,
    /// A subscription or opening the stream failed.
    SubscribeFailed,
    /// A notification frame arrived from `characteristic`.
    Notification { characteristic: u128, payload: Vec<u8> },
    /// A liveness poll finished; a failed check counts as not connected.
    Liveness { connected: bool },
    /// The reconnect attempt finished; `ok` is false on error or timeout.
    ReconnectFinished { ok: bool },
}

/// Something the driver of a session must do next.
#[derive(Debug, Clone, Copy, PartialEq, Eq, Structural)]
pub enum SessionAction {
    /// Start the task that drains the notification stream.
    StartNotifications,
    /// Wait one second, then check whether the peripheral is still connected.
    PollLiveness,
    /// Try once to reconnect, bounded by a two second timeout.
    Reconnect,
    /// Broadcast a snapshot holding this state.
    Publish(HrmState),
    /// Cancel the notification-draining task.
    StopNotifications,
    /// Unsubscribe every characteristic, ignoring errors.
    UnsubscribeAll,
    /// Disconnect the transport.
    Disconnect,
    /// Hand the subscription failure to the caller.
    ReportFailure,
}

/// The live state of one session.
#[derive(Debug, Clone, Copy)]
pub struct Session {
    pub phase: SessionPhase,
    /// The latest decoded reading.
    pub reading: HrmState,
    /// Battery level read once while the device was claimed.
    pub initial_battery: Option<u8>,
}

/// The actions that end a session: stop decoding, release every
/// subscription, announce the disconnection once, and disconnect.
pub open spec fn teardown_actions() -> Seq<SessionAction> {
    seq![
        SessionAction::StopNotifications,
        SessionAction::UnsubscribeAll,
        SessionAction::Publish(HrmState::Disconnected),
        SessionAction::Disconnect,
    ]
}

/// One transition of the state machine: the next session and the actions to
/// perform, in order.
pub open spec fn session_step(s: Session, e: SessionEvent) -> (Session, Seq<SessionAction>) {
    match (s.phase, e) {
        (SessionPhase::Subscribing, SessionEvent::Subscribed) => (
            Session { phase: SessionPhase::Active, ..s },
            seq![SessionAction::StartNotifications, SessionAction::PollLiveness],
        ),
        (SessionPhase::Subscribing, SessionEvent::SubscribeFailed) => (
            Session { phase: SessionPhase::Failed, ..s },
            seq![SessionAction::ReportFailure],
        ),
        (SessionPhase::Active, SessionEvent::Notification { characteristic, payload })
        | (SessionPhase::Reconnecting, SessionEvent::Notification { characteristic, payload }) => {
            let r = notification_result(s.reading, characteristic, payload@, s.initial_battery);
            (Session { reading: r, ..s }, seq![SessionAction::Publish(r)])
        },
        (SessionPhase::Active, SessionEvent::Liveness { connected }) => if connected {
            (s, seq![SessionAction::PollLiveness])
        } else {
            (Session { phase: SessionPhase::Reconnecting, ..s }, seq![SessionAction::Reconnect])
        },
        (SessionPhase::Reconnecting, SessionEvent::ReconnectFinished { ok }) => if ok {
            (Session { phase: SessionPhase::Active, ..s }, seq![SessionAction::PollLiveness])
        } else {
            (
                Session { phase: SessionPhase::Terminated, reading: HrmState::Disconnected, ..s },
                teardown_actions(),
            )
        },
        _ => (s, Seq::empty()),
    }
}

/// The session and all actions after feeding `events` one by one.
pub open spec fn session_run(s: Session, events: Seq<SessionEvent>) -> (Session, Seq<SessionAction>)
    decreases events.len(),
{
    if events.len() == 0 {
        (s, Seq::empty())
    } else {
        let (s1, a1) = session_step(s, events[0]);
        let (s2, a2) = session_run(s1, events.drop_first());
        (s2, a1 + a2)
    }
}

/// How many times `a` occurs in `actions`.
pub open spec fn occurrences(actions: Seq<SessionAction>, a: SessionAction) -> nat
    decreases actions.len(),
{
    if actions.len() == 0 {
        0
    } else {
        occurrences(actions.drop_last(), a) + if actions.last() == a {
            1nat
        } else {
            0nat
        }
    }
}

proof fn lemma_occurrences_concat(x: Seq<SessionAction>, y: Seq<SessionAction>, a: SessionAction)
    ensures
        occurrences(x + y, a) == occurrences(x, a) + occurrences(y, a),
    decreases y.len(),
{
    if y.len() == 0 {
        assert(x + y =~= x);
    } else {
        assert((x + y).drop_last() =~= x + y.drop_last());
        lemma_occurrences_concat(x, y.drop_last(), a);
    }
}

/// The teardown of a session, counted action by action: one of each
/// when the session ends terminated, none otherwise.
pub open spec fn teardown_count(actions: Seq<SessionAction>, a: SessionAction, ended: bool) -> bool {
    occurrences(actions, a) == if ended {
        1nat
    } else {
        0nat
    }
}

proof fn lemma_step_teardown(s: Session, e: SessionEvent, a: SessionAction)
    requires
        teardown_actions().contains(a),
    ensures
        s.phase == SessionPhase::Terminated ==> session_step(s, e).0 == s && session_step(s, e).1.len() == 0,
        s.phase != SessionPhase::Terminated ==> teardown_count(
            session_step(s, e).1,
            a,
            session_step(s, e).0.phase == SessionPhase::Terminated,
        ),
{
    let (s1, a1) = session_step(s, e);
    reveal_with_fuel(occurrences, 5);
    if s.phase != SessionPhase::Terminated && s1.phase == SessionPhase::Terminated {
        assert(a1 =~= teardown_actions());
        assert(a1.drop_last().drop_last().drop_last().drop_last() =~= Seq::<SessionAction>::empty());
    }
}

/// Whatever events a live session receives, it is torn down at most once: it
/// publishes exactly one `Disconnected` snapshot, releases its subscriptions
/// exactly once and disconnects exactly once when it ends terminated, and does
/// none of these while it has not.
pub proof fn lemma_single_teardown(s: Session, events: Seq<SessionEvent>, a: SessionAction)
    requires
        s.phase != SessionPhase::Terminated,
        teardown_actions().contains(a),
    ensures
        teardown_count(
            session_run(s, events).1,
            a,
            session_run(s, events).0.phase == SessionPhase::Terminated,
        ),
    decreases events.len(),
{
    if events.len() == 0 {
        reveal_with_fuel(occurrences, 1);
    } else {
        let (s1, a1) = session_step(s, events[0]);
        let (s2, a2) = session_run(s1, events.drop_first());
        lemma_step_teardown(s, events[0], a);
        lemma_occurrences_concat(a1, a2, a);
        if s1.phase == SessionPhase::Terminated {
            lemma_stays_terminated(s1, events.drop_first(), a);
        } else {
            lemma_single_teardown(s1, events.drop_first(), a);
        }
    }
}

/// A terminated session ignores every further event.
proof fn lemma_stays_terminated(s: Session, events: Seq<SessionEvent>, a: SessionAction)
    requires
        s.phase == SessionPhase::Terminated,
        teardown_actions().contains(a),
    ensures
        session_run(s, events).0 == s,
        occurrences(session_run(s, events).1, a) == 0,
    decreases events.len(),
{
    if events.len() == 0 {
        reveal_with_fuel(occurrences, 1);
    } else {
        lemma_step_teardown(s, events[0], a);
        lemma_stays_terminated(s, events.drop_first(), a);
        let a2 = session_run(s, events.drop_first()).1;
        assert(session_run(s, events).1 =~= a2);
    }
}

impl Session {
    /// A session that is about to subscribe, with no reading yet.
    pub fn new(initial_battery: Option<u8>) -> (r: Session)
        ensures
            r == (Session {
                phase: SessionPhase::Subscribing,
                reading: HrmState::Disconnected,
                initial_battery,
            }),
    {
        Session { phase: SessionPhase::Subscribing, reading: HrmState::Disconnected, initial_battery }
    }

    /// Feeds one event to the session and returns what to do next.
    pub fn handle(&mut self, event: SessionEvent) -> (actions: Vec<SessionAction>)
        ensures
            (*final(self), actions@) == session_step(*old(self), event),
    {
        let mut actions: Vec<SessionAction> = Vec::new();
        match (self.phase, event) {
            (SessionPhase::Subscribing, SessionEvent::Subscribed) => {
                self.phase = SessionPhase::Active;
                actions.push(SessionAction::StartNotifications);
                actions.push(SessionAction::PollLiveness);
            },
            (SessionPhase::Subscribing, SessionEvent::SubscribeFailed) => {
                self.phase = SessionPhase::Failed;
                actions.push(SessionAction::ReportFailure);
            },
            (SessionPhase::Active, SessionEvent::Notification { characteristic, payload })
            | (SessionPhase::Reconnecting, SessionEvent::Notification { characteristic, payload }) => {
                let r = apply_notification(&self.reading, characteristic, payload.as_slice(), self.initial_battery);
                self.reading = r;
                actions.push(SessionAction::Publish(r));
            },
            (SessionPhase::Active, SessionEvent::Liveness { connected }) => {
                if connected {
                    actions.push(SessionAction::PollLiveness);
                } else {
                    self.phase = SessionPhase::Reconnecting;
                    actions.push(SessionAction::Reconnect);
                }
            },
            (SessionPhase::Reconnecting, SessionEvent::ReconnectFinished { ok }) => {
                if ok {
                    self.phase = SessionPhase::Active;
                    actions.push(SessionAction::PollLiveness);
                } else {
                    self.phase = SessionPhase::Terminated;
                    self.reading = HrmState::Disconnected;
                    actions.push(SessionAction::StopNotifications);
                    actions.push(SessionAction::UnsubscribeAll);
                    actions.push(SessionAction::Publish(HrmState::Disconnected));
                    actions.push(SessionAction::Disconnect);
                }
            },
            _ => {},
        }
        proof {
            assert(actions@ =~= session_step(*old(self), event).1);
        }
        actions
    }
}

} // verus!
