//! Reconnecting: at most one reconnect loop at a time, which keeps trying
//! until a connection is set up and then ends.

use vstd::prelude::*;

verus! {

/// Whether a reconnect loop is running.
#[derive(Debug)]
pub struct ReconnectFlag {
    reconnecting: bool,
}

impl View for ReconnectFlag {
    type V = bool;

    closed spec fn view(&self) -> bool {
        self.reconnecting
    }
}

/// The initial flag: no reconnect loop is running.
pub fn reconnecting_flag() -> (f: ReconnectFlag)
    ensures
        !f@,
{
    ReconnectFlag { reconnecting: false }
}

/// What a reinitialization leads to.
#[derive(Debug, PartialEq, Eq)]
pub enum ReinitAction {
    /// Keep the new client.
    InstallClient,
    /// Drop the client and record this error.
    ClearClient(String),
}

/// What the reconnect loop does after an attempt whose action was carried out.
#[derive(Clone, Copy, Debug, PartialEq, Eq)]
pub enum LoopStep {
    /// The loop ends now, without waiting.
    Stop,
    /// The loop waits and tries again.
    RetryAfterDelay,
}

/// The action that the outcome of an attempt to connect leads to: keep the
/// client when it is set up, else drop it and record the error.
pub fn reinitialize(outcome: Result<(), String>) -> (a: ReinitAction)
    ensures
        match outcome {
            Ok(_) => a is InstallClient,
            Err(e) => a matches ReinitAction::ClearClient(m) && m@ == e@,
        },
{
    match outcome {
        Ok(()) => ReinitAction::InstallClient,
        Err(e) => ReinitAction::ClearClient(e),
    }
}

/// What happens to the reconnect state, in the order it happens.
#[derive(Clone, Copy, Debug, PartialEq, Eq)]
pub enum ReconnectEvent {
    /// `schedule_reconnect` is called.
    Schedule,
    /// A running loop finishes an attempt that set up a client.
    Succeeded,
    /// A running loop finishes an attempt that failed.
    Failed,
}

/// The event an attempt with this action is.
pub open spec fn attempt_event(action: ReinitAction) -> ReconnectEvent {
    match action {
        ReinitAction::InstallClient => ReconnectEvent::Succeeded,
        ReinitAction::ClearClient(_) => ReconnectEvent::Failed,
    }
}

/// Whether a request finds no loop running and so starts one.
pub open spec fn starts_loop(reconnecting: bool, e: ReconnectEvent) -> bool {
    e is Schedule && !reconnecting
}

/// Whether the loop that finished an attempt ends.
pub open spec fn ends_loop(e: ReconnectEvent) -> bool {
    e is Succeeded
}

/// The flag after an event.
pub open spec fn flag_after(reconnecting: bool, e: ReconnectEvent) -> bool {
    match e {
        ReconnectEvent::Schedule => true,
        ReconnectEvent::Succeeded => false,
        ReconnectEvent::Failed => reconnecting,
    }
}

impl ReconnectFlag {
    /// Asks for a reconnect.  The result says whether a loop has to be
    /// started: not when one is running already.
    pub fn schedule_reconnect(&mut self) -> (start_loop: bool)
        ensures
            start_loop == starts_loop(old(self)@, ReconnectEvent::Schedule),
            final(self)@ == flag_after(old(self)@, ReconnectEvent::Schedule),
    {
        let was = self.reconnecting;
        self.reconnecting = true;
        !was
    }

    /// Called by the running loop once the action of its attempt has been
    /// carried out (the new client installed, or the old one dropped and the
    /// error recorded).  After a success the loop stops at once and the flag
    /// is cleared, so the next request starts a new loop; after a failure
    /// the loop waits and retries, and the flag stays set.
    pub fn finish_attempt(&mut self, action: &ReinitAction) -> (step: LoopStep)
        ensures
            (step == LoopStep::Stop) == ends_loop(attempt_event(*action)),
            (step == LoopStep::RetryAfterDelay) == !ends_loop(attempt_event(*action)),
            final(self)@ == flag_after(old(self)@, attempt_event(*action)),
    {
        match action {
            ReinitAction::InstallClient => {
                self.reconnecting = false;
                LoopStep::Stop
            },
            ReinitAction::ClearClient(_) => LoopStep::RetryAfterDelay,
        }
    }
}

/// The state of reconnecting: the flag and the number of loops running.
pub struct ReconnectState {
    pub reconnecting: bool,
    pub running: nat,
}

/// An attempt is finished only by a loop that is running.
pub open spec fn can_happen(s: ReconnectState, e: ReconnectEvent) -> bool {
    e is Schedule || s.running > 0
}

/// The state after an event: the flag as `schedule_reconnect` and
/// `finish_attempt` set it, one loop more when `schedule_reconnect` says to
/// start one, one loop less when `finish_attempt` says `Stop` (the loop
/// leaves at once).
pub open spec fn after_event(s: ReconnectState, e: ReconnectEvent) -> ReconnectState {
    ReconnectState {
        reconnecting: flag_after(s.reconnecting, e),
        running: (s.running + (if starts_loop(s.reconnecting, e) { 1int } else { 0int }) - (if ends_loop(e) {
            1int
        } else {
            0int
        })) as nat,
    }
}

/// The state after a run of events, each of which can happen when it does.
pub open spec fn replay(s: ReconnectState, events: Seq<ReconnectEvent>) -> ReconnectState
    decreases events.len(),
{
    if events.len() == 0 || !can_happen(s, events[0]) {
        s
    } else {
        replay(after_event(s, events[0]), events.drop_first())
    }
}

/// The loop count follows the flag: one loop runs while it is set, none
/// while it is clear.
pub open spec fn consistent(s: ReconnectState) -> bool {
    s.running == if s.reconnecting { 1nat } else { 0nat }
}

/// At most one reconnect loop runs at any time: starting with no loop and
/// the flag clear, whatever requests and attempts follow, the number of
/// running loops is one while the flag is set and none otherwise.
pub proof fn lemma_single_reconnect_loop(events: Seq<ReconnectEvent>)
    ensures
        consistent(replay(ReconnectState { reconnecting: false, running: 0 }, events)),
        replay(ReconnectState { reconnecting: false, running: 0 }, events).running <= 1,
{
    lemma_replay_consistent(ReconnectState { reconnecting: false, running: 0 }, events);
}

proof fn lemma_replay_consistent(s: ReconnectState, events: Seq<ReconnectEvent>)
    requires
        consistent(s),
    ensures
        consistent(replay(s, events)),
    decreases events.len(),
{
    if events.len() != 0 && can_happen(s, events[0]) {
        lemma_replay_consistent(after_event(s, events[0]), events.drop_first());
    }
}

/// A request while a loop runs starts nothing; a failed attempt keeps the
/// loop and the flag; a successful one ends the loop and clears the flag,
/// so a later request starts a new loop.
pub proof fn lemma_retry_until_success(s: ReconnectState)
    requires
        consistent(s),
        s.reconnecting,
    ensures
        after_event(s, ReconnectEvent::Schedule) == s,
        after_event(s, ReconnectEvent::Failed) == s,
        after_event(s, ReconnectEvent::Succeeded) == (ReconnectState { reconnecting: false, running: 0 }),
        after_event(after_event(s, ReconnectEvent::Succeeded), ReconnectEvent::Schedule).running == 1,
{
}

/// What the reconnect decisions mean: a request starts a loop exactly when
/// none runs, and sets the flag; only a successful attempt ends the loop,
/// and it clears the flag; a failed attempt leaves the flag as it was.  A
/// kept client is a success, a dropped one a failure.
pub proof fn lemma_reconnect_rules(reconnecting: bool, e: ReconnectEvent, message: String)
    ensures
        starts_loop(reconnecting, e) <==> (e == ReconnectEvent::Schedule && !reconnecting),
        ends_loop(e) <==> e == ReconnectEvent::Succeeded,
        flag_after(reconnecting, ReconnectEvent::Schedule),
        !flag_after(reconnecting, ReconnectEvent::Succeeded),
        flag_after(reconnecting, ReconnectEvent::Failed) == reconnecting,
        attempt_event(ReinitAction::InstallClient) == ReconnectEvent::Succeeded,
        attempt_event(ReinitAction::ClearClient(message)) == ReconnectEvent::Failed,
{
}

} // verus!
