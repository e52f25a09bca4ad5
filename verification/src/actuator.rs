//! The actuator controller: one relay channel, driven through timed pulses.
//!
//! A pulse engages the channel, holds it for the requested time and releases
//! it again.  The controller decides the order of these steps; the caller
//! owns the output pin and the timer, carries out each [`PulseAction`] and
//! reports what happened as the next [`PulseEvent`].
//!
//! Release is not left to the success path: once a pulse has been accepted,
//! every way to its end goes through a command to disengage the channel,
//! whether engaging failed, the hold was cut short, or all went well.
//!
//! One pulse is in flight at a time.  A request that arrives while a pulse is
//! in flight is rejected at once and changes nothing.  A caller that wants
//! requests to wait for their turn instead keeps the controller behind a lock
//! and holds the lock for the whole pulse.

use vstd::prelude::*;

verus! {

/// Hold time of a pulse where the caller has no other wish, in milliseconds.
pub const DEFAULT_PULSE_MS: u32 = 500;

/// Logical state of the output channel.
#[derive(Debug, Clone, Copy, PartialEq, Eq, Structural)]
pub enum ChannelState {
    Disengaged,
    Engaged,
}

/// Why a pulse failed.
#[derive(Debug, Clone, Copy, PartialEq, Eq, Structural)]
pub enum ActuatorFault {
    /// The channel could not be engaged.
    EngageFailed,
    /// The hold ended before its time.
    HoldInterrupted,
    /// The channel could not be released; it may still be engaged.
    ReleaseFailed,
}

/// Where the controller stands within a pulse.
#[derive(Debug, Clone, Copy, PartialEq, Eq)]
pub enum PulsePhase {
    /// No pulse in flight.
    Idle,
    /// Told the caller to engage the channel; waiting to hear how it went.
    Engaging { hold_ms: u32 },
    /// The channel is engaged and the hold is running.
    Holding { hold_ms: u32 },
    /// Told the caller to release the channel; `fault` is what went wrong
    /// before, if anything did.
    Releasing { fault: Option<ActuatorFault> },
}

/// What the caller reports to the controller.
#[derive(Debug, Clone, Copy, PartialEq, Eq)]
pub enum PulseEvent {
    /// A pulse of `hold_ms` milliseconds is asked for.
    Requested { hold_ms: u32 },
    /// The channel was driven as commanded.
    Driven,
    /// Driving the channel failed.
    DriveFailed,
    /// The hold ran for its full time.
    HoldElapsed,
    /// The hold was cut short.
    HoldInterrupted,
}

/// What the caller has to do next.
#[derive(Debug, Clone, Copy, PartialEq, Eq)]
pub enum PulseAction {
    /// Drive the channel to this state, then report `Driven` or `DriveFailed`.
    Drive(ChannelState),
    /// Wait this many milliseconds, then report `HoldElapsed` or
    /// `HoldInterrupted`.
    Hold { hold_ms: u32 },
    /// The pulse is over, with this result.
    Finish(Result<(), ActuatorFault>),
    /// The event has no place here, such as a request during a pulse.
    /// Nothing changed.
    Rejected,
}

/// Mathematical value of an [`Actuator`].
pub struct ActuatorModel {
    pub phase: PulsePhase,
    pub channel: ChannelState,
}

/// The result of a pulse whose release succeeded.
pub open spec fn released_result(fault: Option<ActuatorFault>) -> Result<(), ActuatorFault> {
    match fault {
        None => Ok(()),
        Some(fault) => Err(fault),
    }
}

/// The controller's rule: the state after `event`, and the action it asks
/// for.
pub open spec fn next(state: ActuatorModel, event: PulseEvent) -> (ActuatorModel, PulseAction) {
    match (state.phase, event) {
        (PulsePhase::Idle, PulseEvent::Requested { hold_ms }) => (
            ActuatorModel { phase: PulsePhase::Engaging { hold_ms }, channel: state.channel },
            PulseAction::Drive(ChannelState::Engaged),
        ),
        (PulsePhase::Engaging { hold_ms }, PulseEvent::Driven) => (
            ActuatorModel { phase: PulsePhase::Holding { hold_ms }, channel: ChannelState::Engaged },
            PulseAction::Hold { hold_ms },
        ),
        (PulsePhase::Engaging { hold_ms }, PulseEvent::DriveFailed) => (
            ActuatorModel {
                phase: PulsePhase::Releasing { fault: Some(ActuatorFault::EngageFailed) },
                channel: state.channel,
            },
            PulseAction::Drive(ChannelState::Disengaged),
        ),
        (PulsePhase::Holding { hold_ms }, PulseEvent::HoldElapsed) => (
            ActuatorModel { phase: PulsePhase::Releasing { fault: None }, channel: state.channel },
            PulseAction::Drive(ChannelState::Disengaged),
        ),
        (PulsePhase::Holding { hold_ms }, PulseEvent::HoldInterrupted) => (
            ActuatorModel {
                phase: PulsePhase::Releasing { fault: Some(ActuatorFault::HoldInterrupted) },
                channel: state.channel,
            },
            PulseAction::Drive(ChannelState::Disengaged),
        ),
        (PulsePhase::Releasing { fault }, PulseEvent::Driven) => (
            ActuatorModel { phase: PulsePhase::Idle, channel: ChannelState::Disengaged },
            PulseAction::Finish(released_result(fault)),
        ),
        (PulsePhase::Releasing { fault }, PulseEvent::DriveFailed) => (
            ActuatorModel { phase: PulsePhase::Idle, channel: state.channel },
            PulseAction::Finish(Err(ActuatorFault::ReleaseFailed)),
        ),
        _ => (state, PulseAction::Rejected),
    }
}

/// The controller of one relay channel.
///
/// The channel state is private: only [`Actuator::step`] changes it.
#[derive(Debug)]
pub struct Actuator {
    phase: PulsePhase,
    channel: ChannelState,
}

impl View for Actuator {
    type V = ActuatorModel;

    closed spec fn view(&self) -> ActuatorModel {
        ActuatorModel { phase: self.phase, channel: self.channel }
    }
}

impl Actuator {
    /// A controller at rest, its channel disengaged.
    pub fn new() -> (actuator: Self)
        ensures
            actuator@ == (ActuatorModel {
                phase: PulsePhase::Idle,
                channel: ChannelState::Disengaged,
            }),
    {
        Actuator { phase: PulsePhase::Idle, channel: ChannelState::Disengaged }
    }

    /// Takes in `event` and says what to do next.
    pub fn step(&mut self, event: PulseEvent) -> (action: PulseAction)
        ensures
            (final(self)@, action) == next(old(self)@, event),
    {
        match (self.phase, event) {
            (PulsePhase::Idle, PulseEvent::Requested { hold_ms }) => {
                self.phase = PulsePhase::Engaging { hold_ms };
                PulseAction::Drive(ChannelState::Engaged)
            },
            (PulsePhase::Engaging { hold_ms }, PulseEvent::Driven) => {
                self.phase = PulsePhase::Holding { hold_ms };
                self.channel = ChannelState::Engaged;
                PulseAction::Hold { hold_ms }
            },
            (PulsePhase::Engaging { hold_ms: _ }, PulseEvent::DriveFailed) => {
                self.phase = PulsePhase::Releasing { fault: Some(ActuatorFault::EngageFailed) };
                PulseAction::Drive(ChannelState::Disengaged)
            },
            (PulsePhase::Holding { hold_ms: _ }, PulseEvent::HoldElapsed) => {
                self.phase = PulsePhase::Releasing { fault: None };
                PulseAction::Drive(ChannelState::Disengaged)
            },
            (PulsePhase::Holding { hold_ms: _ }, PulseEvent::HoldInterrupted) => {
                self.phase = PulsePhase::Releasing { fault: Some(ActuatorFault::HoldInterrupted) };
                PulseAction::Drive(ChannelState::Disengaged)
            },
            (PulsePhase::Releasing { fault }, PulseEvent::Driven) => {
                self.phase = PulsePhase::Idle;
                self.channel = ChannelState::Disengaged;
                match fault {
                    None => PulseAction::Finish(Ok(())),
                    Some(fault) => PulseAction::Finish(Err(fault)),
                }
            },
            (PulsePhase::Releasing { fault: _ }, PulseEvent::DriveFailed) => {
                self.phase = PulsePhase::Idle;
                PulseAction::Finish(Err(ActuatorFault::ReleaseFailed))
            },
            _ => PulseAction::Rejected,
        }
    }

    /// The logical state of the channel.
    pub fn channel(&self) -> (state: ChannelState)
        ensures
            state == self@.channel,
    {
        self.channel
    }

    /// Whether no pulse is in flight.
    pub fn is_idle(&self) -> (idle: bool)
        ensures
            idle == (self@.phase is Idle),
    {
        match self.phase {
            PulsePhase::Idle => true,
            _ => false,
        }
    }
}

/// The controller's course over a run of events: the state at the end and the
/// actions it asked for, one per event.
pub open spec fn run(state: ActuatorModel, events: Seq<PulseEvent>) -> (
    ActuatorModel,
    Seq<PulseAction>,
)
    decreases events.len(),
{
    if events.len() == 0 {
        (state, Seq::<PulseAction>::empty())
    } else {
        let before = run(state, events.drop_last());
        let last = next(before.0, events.last());
        (last.0, before.1.push(last.1))
    }
}

/// How many times the actions command the channel to engage.
pub open spec fn engagements(actions: Seq<PulseAction>) -> nat
    decreases actions.len(),
{
    if actions.len() == 0 {
        0
    } else {
        let rest = engagements(actions.drop_last());
        if actions.last() == PulseAction::Drive(ChannelState::Engaged) {
            rest + 1
        } else {
            rest
        }
    }
}

/// How many pulses the actions bring to an end.
pub open spec fn completions(actions: Seq<PulseAction>) -> nat
    decreases actions.len(),
{
    if actions.len() == 0 {
        0
    } else {
        let rest = completions(actions.drop_last());
        if actions.last() is Finish {
            rest + 1
        } else {
            rest
        }
    }
}

/// Whether no event of the run reports a failed drive.
pub open spec fn drives_succeed(events: Seq<PulseEvent>) -> bool {
    forall|i: int| 0 <= i < events.len() ==> !(#[trigger] events[i] is DriveFailed)
}

/// Whether `event` is a report that `action` asks the caller for.
pub open spec fn answers(action: PulseAction, event: PulseEvent) -> bool {
    match action {
        PulseAction::Drive(_) => event is Driven || event is DriveFailed,
        PulseAction::Hold { .. } => event is HoldElapsed || event is HoldInterrupted,
        _ => false,
    }
}

/// The most steps that a pulse in this phase still takes.
pub open spec fn steps_left(phase: PulsePhase) -> nat {
    match phase {
        PulsePhase::Idle => 0,
        PulsePhase::Engaging { .. } => 3,
        PulsePhase::Holding { .. } => 2,
        PulsePhase::Releasing { .. } => 1,
    }
}

/// A pulse always comes to its end.  A request at rest is accepted, and a
/// caller that answers each action with a report that the action asks for is
/// never rejected and brings the pulse a step nearer its end each time, so
/// that the pulse finishes within four steps of the request.
pub proof fn lemma_pulse_makes_progress(state: ActuatorModel, event: PulseEvent, report: PulseEvent)
    ensures
        state.phase is Idle && event is Requested ==> next(state, event).1 == PulseAction::Drive(
            ChannelState::Engaged,
        ) && steps_left(next(state, event).0.phase) == 3,
        answers(next(state, event).1, report) ==> !(next(next(state, event).0, report).1
            is Rejected) && steps_left(next(next(state, event).0, report).0.phase) < steps_left(
            next(state, event).0.phase,
        ),
        steps_left(next(state, event).0.phase) == 0 && !(state.phase is Idle) ==> next(
            state,
            event,
        ).1 is Finish,
{
}

/// A pulse on working hardware, step by step: from rest the controller
/// engages the channel, holds it for exactly the time asked for, releases it
/// and reports success.  The channel is disengaged before the pulse, engaged
/// throughout the hold, and disengaged once the pulse has returned.
pub proof fn lemma_pulse_engages_holds_releases(hold_ms: u32)
    ensures
        ({
            let rest = ActuatorModel { phase: PulsePhase::Idle, channel: ChannelState::Disengaged };
            let asked = next(rest, PulseEvent::Requested { hold_ms });
            let engaged = next(asked.0, PulseEvent::Driven);
            let held = next(engaged.0, PulseEvent::HoldElapsed);
            let released = next(held.0, PulseEvent::Driven);
            &&& asked.1 == PulseAction::Drive(ChannelState::Engaged)
            &&& asked.0.channel == ChannelState::Disengaged
            &&& engaged.1 == PulseAction::Hold { hold_ms }
            &&& engaged.0.channel == ChannelState::Engaged
            &&& held.1 == PulseAction::Drive(ChannelState::Disengaged)
            &&& held.0.channel == ChannelState::Engaged
            &&& released.1 == PulseAction::Finish(Ok(()))
            &&& released.0 == rest
        }),
{
}

/// Whatever the state and the event: a pulse that ends in success leaves the
/// controller at rest with the channel disengaged; a hold is only ever
/// commanded for the time that was asked for and with the channel engaged;
/// and a pulse ends only from the releasing phase, which is entered only
/// together with a command to disengage the channel.
pub proof fn lemma_success_leaves_channel_disengaged(state: ActuatorModel, event: PulseEvent)
    ensures
        next(state, event).1 == PulseAction::Finish(Ok(())) ==> next(state, event).0
            == (ActuatorModel { phase: PulsePhase::Idle, channel: ChannelState::Disengaged }),
        next(state, event).1 is Hold ==> next(state, event).0.channel == ChannelState::Engaged
            && state.phase == (PulsePhase::Engaging { hold_ms: next(state, event).1->hold_ms }),
        next(state, event).1 is Finish ==> state.phase is Releasing,
        !(state.phase is Releasing) && next(state, event).0.phase is Releasing ==> next(
            state,
            event,
        ).1 == PulseAction::Drive(ChannelState::Disengaged),
{
}

/// A request during a pulse is rejected and changes nothing, and the channel
/// is commanded to engage only from rest.
pub proof fn lemma_request_in_flight_is_rejected(state: ActuatorModel, event: PulseEvent)
    ensures
        !(state.phase is Idle) && event is Requested ==> next(state, event) == (
            state,
            PulseAction::Rejected,
        ),
        next(state, event).1 == PulseAction::Drive(ChannelState::Engaged) ==> state.phase is Idle
            && !(next(state, event).0.phase is Idle),
{
}

/// Pulses never overlap.  Over any run of events from rest, each command to
/// engage the channel is matched by the end of that pulse before the next
/// such command: the engagements outnumber the completed pulses by one while
/// a pulse is in flight, and by none at rest.
pub proof fn lemma_pulses_never_overlap(start: ActuatorModel, events: Seq<PulseEvent>)
    requires
        start.phase is Idle,
    ensures
        run(start, events).1.len() == events.len(),
        engagements(run(start, events).1) == completions(run(start, events).1) + (if run(
            start,
            events,
        ).0.phase is Idle {
            0nat
        } else {
            1nat
        }),
    decreases events.len(),
{
    if events.len() > 0 {
        lemma_pulses_never_overlap(start, events.drop_last());
        let before = run(start, events.drop_last());
        let last = next(before.0, events.last());
        assert(run(start, events).1.drop_last() =~= before.1);
    }
}

/// On hardware whose drives all succeed, the channel is engaged exactly
/// while a hold is running or its release is pending, and disengaged at all
/// other times; in particular it is disengaged whenever no pulse is in
/// flight.
pub proof fn lemma_channel_engaged_only_within_pulse(start: ActuatorModel, events: Seq<PulseEvent>)
    requires
        start.phase is Idle,
        start.channel == ChannelState::Disengaged,
        drives_succeed(events),
    ensures
        ({
            let end = run(start, events).0;
            match end.phase {
                PulsePhase::Idle => end.channel == ChannelState::Disengaged,
                PulsePhase::Engaging { .. } => end.channel == ChannelState::Disengaged,
                PulsePhase::Holding { .. } => end.channel == ChannelState::Engaged,
                PulsePhase::Releasing { .. } => end.channel == ChannelState::Engaged,
            }
        }),
    decreases events.len(),
{
    if events.len() > 0 {
        assert(drives_succeed(events.drop_last())) by {
            assert forall|i: int| 0 <= i < events.drop_last().len() implies !(
            #[trigger] events.drop_last()[i] is DriveFailed) by {
                assert(events.drop_last()[i] == events[i]);
            }
        }
        lemma_channel_engaged_only_within_pulse(start, events.drop_last());
        assert(!(events[events.len() - 1] is DriveFailed));
    }
}

} // verus!
