use vstd::prelude::*;

use crate::interval::{Interval, NANOS_PER_SEC};

verus! {

/// Seconds that pass between the start of the reporter and its first report.
pub const STARTUP_DELAY_SECS: u64 = 10;

/// Where the report loop stands.
#[derive(Clone, Copy, Debug, PartialEq, Eq)]
pub enum Phase {
    /// Just started: waiting out the start-up delay.
    Starting,
    /// The regular report of a cycle is being delivered.
    Reporting,
    /// The regular report failed: waiting half an interval before the retry.
    RetryWaiting,
    /// The single retry of a cycle is being delivered.
    Retrying,
    /// Waiting a full interval before the next cycle.
    Resting,
    /// Ended by its owner: the loop does nothing more.
    Stopped,
}

/// What the driver of the loop observed after performing the last action.
#[derive(Clone, Copy, Debug, PartialEq, Eq)]
pub enum Event {
    /// A sleep ran to its end.
    Slept,
    /// A report was delivered and accepted.
    Delivered,
    /// A report could not be delivered or was refused.
    Failed,
    /// The owner of the loop asked it to end.
    Cancelled,
}

/// What the driver of the loop must do next.
#[derive(Clone, Copy, Debug, PartialEq, Eq)]
pub enum Action {
    /// Sleep for the given span.
    Sleep(Interval),
    /// Sample the host and deliver one report.
    Deliver,
    /// Leave the loop.
    Stop,
}

/// The spec view of an action: sleeps are compared by their length.
pub enum ActionModel {
    Sleep(nat),
    Deliver,
    Stop,
}

impl View for Action {
    type V = ActionModel;

    open spec fn view(&self) -> ActionModel {
        match self {
            Action::Sleep(d) => ActionModel::Sleep(d@),
            Action::Deliver => ActionModel::Deliver,
            Action::Stop => ActionModel::Stop,
        }
    }
}

/// The start-up delay, in nanoseconds.
pub open spec fn startup_delay() -> nat {
    STARTUP_DELAY_SECS as nat * NANOS_PER_SEC as nat
}

/// One move of the report loop, for a loop whose interval is `interval`
/// nanoseconds: from a phase and the event that ended its action, the next
/// phase and the action that it performs.
///
/// A cycle delivers a report; if that fails it sleeps half an interval and
/// delivers once more, whatever comes of it; then it sleeps a full interval.
/// A cancellation stops the loop from any phase, for good. An event that
/// does not fit the phase changes nothing.
pub open spec fn next(interval: nat, phase: Phase, event: Event) -> (Phase, ActionModel) {
    match (phase, event) {
        (_, Event::Cancelled) => (Phase::Stopped, ActionModel::Stop),
        (Phase::Starting, Event::Slept) => (Phase::Reporting, ActionModel::Deliver),
        (Phase::Reporting, Event::Delivered) => (Phase::Resting, ActionModel::Sleep(interval)),
        (Phase::Reporting, Event::Failed) => (Phase::RetryWaiting, ActionModel::Sleep(interval / 2)),
        (Phase::RetryWaiting, Event::Slept) => (Phase::Retrying, ActionModel::Deliver),
        (Phase::Retrying, Event::Delivered) => (Phase::Resting, ActionModel::Sleep(interval)),
        (Phase::Retrying, Event::Failed) => (Phase::Resting, ActionModel::Sleep(interval)),
        (Phase::Resting, Event::Slept) => (Phase::Reporting, ActionModel::Deliver),
        _ => (phase, pending(interval, phase)),
    }
}

/// The action that a phase performs.
pub open spec fn pending(interval: nat, phase: Phase) -> ActionModel {
    match phase {
        Phase::Starting => ActionModel::Sleep(startup_delay()),
        Phase::Reporting => ActionModel::Deliver,
        Phase::RetryWaiting => ActionModel::Sleep(interval / 2),
        Phase::Retrying => ActionModel::Deliver,
        Phase::Resting => ActionModel::Sleep(interval),
        Phase::Stopped => ActionModel::Stop,
    }
}

/// The actions performed, in order, when `events` are fed one by one to a
/// loop that stands in `phase`, and the phase where it ends.
pub open spec fn run(interval: nat, phase: Phase, events: Seq<Event>) -> (Phase, Seq<ActionModel>)
    decreases events.len(),
{
    if events.len() == 0 {
        (phase, Seq::empty())
    } else {
        let (p, a) = next(interval, phase, events[0]);
        let (end, rest) = run(interval, p, events.drop_first());
        (end, seq![a] + rest)
    }
}

/// The number of deliveries among `actions`.
pub open spec fn deliveries(actions: Seq<ActionModel>) -> nat
    decreases actions.len(),
{
    if actions.len() == 0 {
        0
    } else {
        (if actions[0] is Deliver { 1nat } else { 0nat }) + deliveries(actions.drop_first())
    }
}

/// A cycle whose report fails delivers exactly twice: the report, then,
/// after half an interval, one retry; whatever the retry's outcome, the loop
/// then sleeps a full interval and stands ready for the next cycle.
pub proof fn lemma_failed_cycle(interval: nat, phase: Phase, retry: Event)
    requires
        phase is Starting || phase is Resting,
        retry is Delivered || retry is Failed,
    ensures
        ({
            let (end, actions) = run(interval, phase, seq![Event::Slept, Event::Failed, Event::Slept, retry]);
            &&& end == Phase::Resting
            &&& actions == seq![
                ActionModel::Deliver,
                ActionModel::Sleep(interval / 2),
                ActionModel::Deliver,
                ActionModel::Sleep(interval),
            ]
            &&& deliveries(actions) == 2
        }),
{
    let events = seq![Event::Slept, Event::Failed, Event::Slept, retry];
    reveal_with_fuel(run, 5);
    reveal_with_fuel(deliveries, 5);
    assert(events.drop_first() =~= seq![Event::Failed, Event::Slept, retry]);
    assert(events.drop_first().drop_first() =~= seq![Event::Slept, retry]);
    assert(events.drop_first().drop_first().drop_first() =~= seq![retry]);
    assert(seq![retry].drop_first() =~= Seq::<Event>::empty());
    let actions = seq![
        ActionModel::Deliver,
        ActionModel::Sleep(interval / 2),
        ActionModel::Deliver,
        ActionModel::Sleep(interval),
    ];
    assert(run(interval, phase, events).1 =~= actions);
    assert(actions.drop_first().drop_first().drop_first().drop_first() =~= Seq::<ActionModel>::empty());
}

/// A cycle whose report is delivered delivers exactly once, then sleeps a
/// full interval and stands ready for the next cycle.
pub proof fn lemma_delivered_cycle(interval: nat, phase: Phase)
    requires
        phase is Starting || phase is Resting,
    ensures
        ({
            let (end, actions) = run(interval, phase, seq![Event::Slept, Event::Delivered]);
            &&& end == Phase::Resting
            &&& actions == seq![ActionModel::Deliver, ActionModel::Sleep(interval)]
            &&& deliveries(actions) == 1
        }),
{
    let events = seq![Event::Slept, Event::Delivered];
    reveal_with_fuel(run, 3);
    reveal_with_fuel(deliveries, 3);
    assert(events.drop_first() =~= seq![Event::Delivered]);
    assert(seq![Event::Delivered].drop_first() =~= Seq::<Event>::empty());
    let actions = seq![ActionModel::Deliver, ActionModel::Sleep(interval)];
    assert(run(interval, phase, events).1 =~= actions);
    assert(actions.drop_first().drop_first() =~= Seq::<ActionModel>::empty());
}

/// A loop that was cancelled stays stopped whatever it is fed afterwards,
/// and performs no action but stopping.
pub proof fn lemma_stopped_stays_stopped(interval: nat, events: Seq<Event>)
    ensures
        run(interval, Phase::Stopped, events).0 == Phase::Stopped,
        forall|i: int|
            0 <= i < run(interval, Phase::Stopped, events).1.len() ==> #[trigger] run(
                interval,
                Phase::Stopped,
                events,
            ).1[i] == ActionModel::Stop,
        run(interval, Phase::Stopped, events).1.len() == events.len(),
    decreases events.len(),
{
    if events.len() > 0 {
        lemma_stopped_stays_stopped(interval, events.drop_first());
        let rest = run(interval, Phase::Stopped, events.drop_first()).1;
        let all = run(interval, Phase::Stopped, events).1;
        assert(all == seq![ActionModel::Stop] + rest);
        assert forall|i: int| 0 <= i < all.len() implies all[i] == ActionModel::Stop by {
            if i > 0 {
                assert(all[i] == rest[i - 1]);
            }
        }
    }
}

/// The report loop of one reporter: its interval and the phase it stands in.
pub struct Schedule {
    interval: Interval,
    phase: Phase,
}

impl Schedule {
    /// The interval of the loop, in nanoseconds.
    pub closed spec fn interval_spec(&self) -> nat {
        self.interval@
    }

    /// The phase the loop stands in.
    pub closed spec fn phase_spec(&self) -> Phase {
        self.phase
    }

    /// A loop that has just started, and its first action: the start-up
    /// delay.
    pub fn start(interval: Interval) -> (r: (Schedule, Action))
        ensures
            r.0.interval_spec() == interval@,
            r.0.phase_spec() == Phase::Starting,
            r.1@ == ActionModel::Sleep(startup_delay()),
    {
        (Schedule { interval, phase: Phase::Starting }, Action::Sleep(Interval::from_secs(STARTUP_DELAY_SECS)))
    }

    /// The phase the loop stands in.
    pub fn phase(&self) -> (r: Phase)
        ensures
            r == self.phase_spec(),
    {
        self.phase
    }

    /// Moves the loop on by the event that ended its last action, and
    /// returns the action to perform next.
    pub fn step(&mut self, event: Event) -> (r: Action)
        ensures
            final(self).interval_spec() == old(self).interval_spec(),
            (final(self).phase_spec(), r@) == next(old(self).interval_spec(), old(self).phase_spec(), event),
    {
        let (phase, action) = match (self.phase, event) {
            (_, Event::Cancelled) => (Phase::Stopped, Action::Stop),
            (Phase::Starting, Event::Slept) => (Phase::Reporting, Action::Deliver),
            (Phase::Reporting, Event::Delivered) => (Phase::Resting, Action::Sleep(self.interval)),
            (Phase::Reporting, Event::Failed) => (Phase::RetryWaiting, Action::Sleep(self.interval.half())),
            (Phase::RetryWaiting, Event::Slept) => (Phase::Retrying, Action::Deliver),
            (Phase::Retrying, Event::Delivered) => (Phase::Resting, Action::Sleep(self.interval)),
            (Phase::Retrying, Event::Failed) => (Phase::Resting, Action::Sleep(self.interval)),
            (Phase::Resting, Event::Slept) => (Phase::Reporting, Action::Deliver),
            (phase, _) => (phase, self.pending()),
        };
        self.phase = phase;
        action
    }

    /// The action of the phase the loop stands in.
    pub fn pending(&self) -> (r: Action)
        ensures
            r@ == pending(self.interval_spec(), self.phase_spec()),
    {
        match self.phase {
            Phase::Starting => Action::Sleep(Interval::from_secs(STARTUP_DELAY_SECS)),
            Phase::Reporting => Action::Deliver,
            Phase::RetryWaiting => Action::Sleep(self.interval.half()),
            Phase::Retrying => Action::Deliver,
            Phase::Resting => Action::Sleep(self.interval),
            Phase::Stopped => Action::Stop,
        }
    }
}

} // verus!
