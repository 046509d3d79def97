//! Operations on the display as exchanges with its hardware.
//!
//! An operation never touches the hardware itself. It is a [Step]: either it is finished, or it
//! names one [Action] to perform next. The caller performs that action and hands the result to
//! [Waiting::resume], which gives the next step. The first action that fails ends the operation.
//!
//! The mathematical model of a step is a [Plan]: the effects that are still to come, in order, and
//! what the operation yields once all of them have happened.
use std::collections::VecDeque;

use vstd::prelude::*;

use crate::command::Command;

verus! {

/// The level of a digital pin.
#[derive(Debug, Clone, Copy, PartialEq, Eq, Structural)]
pub enum PinState {
    Low,
    High,
}

/// The data that goes with a command.
#[derive(Debug)]
pub enum Payload<'a> {
    /// Bytes that are kept elsewhere, such as a framebuffer.
    Borrowed(&'a [u8]),
    /// Bytes that were computed for the command.
    Computed(Vec<u8>),
}

impl<'a> View for Payload<'a> {
    type V = Seq<u8>;

    open spec fn view(&self) -> Seq<u8> {
        match self {
            Payload::Borrowed(bytes) => bytes@,
            Payload::Computed(bytes) => bytes@,
        }
    }
}

impl<'a> Payload<'a> {
    /// Returns the bytes to send.
    pub fn as_slice(&self) -> (bytes: &[u8])
        ensures
            bytes@ == self@,
    {
        match self {
            Payload::Borrowed(bytes) => bytes,
            Payload::Computed(bytes) => bytes.as_slice(),
        }
    }
}

/// Something that the display's hardware has to do.
#[derive(Debug)]
pub enum Action<'a> {
    /// Drive the reset pin to the given level.
    SetReset(PinState),
    /// Wait for the given number of milliseconds.
    DelayMs(u32),
    /// Wait until the display is no longer busy, then send the command and its data.
    Send(Command, Payload<'a>),
}

/// What an action does, as a mathematical value.
#[verifier::ext_equal]
pub enum Effect {
    SetReset(PinState),
    DelayMs(u32),
    Send(Command, Seq<u8>),
}

impl<'a> View for Action<'a> {
    type V = Effect;

    open spec fn view(&self) -> Effect {
        match self {
            Action::SetReset(level) => Effect::SetReset(*level),
            Action::DelayMs(ms) => Effect::DelayMs(*ms),
            Action::Send(command, payload) => Effect::Send(*command, payload@),
        }
    }
}

/// The effects that an operation has, in order, and what it yields when all have happened.
#[verifier::ext_equal]
pub struct Plan<T> {
    pub effects: Seq<Effect>,
    pub outcome: T,
}

/// An operation that has either finished or needs an action to be performed.
#[must_use]
#[derive(Debug)]
pub enum Step<'a, T> {
    /// Perform the action, then resume the rest of the operation with the action's result.
    Perform(Action<'a>, Waiting<'a, T>),
    /// The operation is finished.
    Finished(T),
}

/// The rest of an operation, which waits for the result of an action.
#[must_use]
#[derive(Debug)]
pub struct Waiting<'a, T> {
    rest: Script<'a>,
    outcome: T,
}

impl<'a, T> View for Waiting<'a, T> {
    type V = Plan<T>;

    /// What is left of the operation after the action that it waits for.
    closed spec fn view(&self) -> Plan<T> {
        Plan { effects: self.rest@, outcome: self.outcome }
    }
}

impl<'a, T> View for Step<'a, T> {
    type V = Plan<T>;

    open spec fn view(&self) -> Plan<T> {
        match self {
            Step::Perform(action, waiting) => Plan {
                effects: seq![action@] + waiting@.effects,
                outcome: waiting@.outcome,
            },
            Step::Finished(outcome) => Plan { effects: Seq::empty(), outcome: *outcome },
        }
    }
}

impl<'a, T> Waiting<'a, T> {
    /// Goes on with the operation after the action that it waited for. If the action failed, the
    /// operation ends with that error.
    pub fn resume<E>(self, result: Result<(), E>) -> (next: Result<Step<'a, T>, E>)
        ensures
            match result {
                Ok(_) => next is Ok && next->Ok_0@ == self@,
                Err(error) => next == Err::<Step<'a, T>, E>(error),
            },
    {
        match result {
            Ok(_) => Ok(self.rest.into_step(self.outcome)),
            Err(error) => Err(error),
        }
    }

    /// Returns what the operation will yield, for use while an action is performed.
    pub(crate) fn outcome_mut(&mut self) -> (outcome: &mut T)
        ensures
            *outcome == old(self)@.outcome,
            final(self)@ == (Plan { effects: old(self)@.effects, outcome: *final(outcome) }),
    {
        &mut self.outcome
    }
}

/// A list of actions to perform one after the other.
#[derive(Debug)]
pub(crate) struct Script<'a> {
    actions: VecDeque<Action<'a>>,
}

impl<'a> View for Script<'a> {
    type V = Seq<Effect>;

    closed spec fn view(&self) -> Seq<Effect> {
        self.actions@.map_values(|action: Action<'a>| action@)
    }
}

impl<'a> Script<'a> {
    pub(crate) fn new() -> (script: Self)
        ensures
            script@ == Seq::<Effect>::empty(),
    {
        Script { actions: VecDeque::new() }
    }

    pub(crate) fn push(&mut self, action: Action<'a>)
        ensures
            final(self)@ == old(self)@.push(action@),
    {
        self.actions.push_back(action);
    }

    /// Adds a command whose data is kept elsewhere.
    pub(crate) fn send(&mut self, command: Command, data: &'a [u8])
        ensures
            final(self)@ == old(self)@.push(Effect::Send(command, data@)),
    {
        self.push(Action::Send(command, Payload::Borrowed(data)));
    }

    /// Adds a command whose data was computed for it.
    pub(crate) fn send_computed(&mut self, command: Command, data: Vec<u8>)
        ensures
            final(self)@ == old(self)@.push(Effect::Send(command, data@)),
    {
        self.push(Action::Send(command, Payload::Computed(data)));
    }

    /// The operation that performs the script and then yields `outcome`.
    pub(crate) fn into_step<T>(self, outcome: T) -> (step: Step<'a, T>)
        ensures
            step@ == (Plan { effects: self@, outcome }),
    {
        let mut actions = self.actions;
        match actions.pop_front() {
            Some(action) => {
                let waiting = Waiting { rest: Script { actions }, outcome };
                assert(self@ =~= seq![action@] + waiting@.effects);
                Step::Perform(action, waiting)
            },
            None => {
                assert(self@ =~= Seq::<Effect>::empty());
                Step::Finished(outcome)
            },
        }
    }
}

/// The effects that have happened when a plan has met the given results of its actions, and how it
/// ended. See [lemma_run_is_repeated_resume].
pub open spec fn run<T, E>(plan: Plan<T>, results: Seq<Result<(), E>>) -> (Seq<Effect>, Result<T, E>)
    recommends
        plan.effects.len() <= results.len(),
    decreases plan.effects.len(),
{
    if plan.effects.len() == 0 {
        (Seq::empty(), Ok(plan.outcome))
    } else {
        match results[0] {
            Err(error) => (seq![plan.effects[0]], Err(error)),
            Ok(_) => {
                let rest = Plan { effects: plan.effects.drop_first(), outcome: plan.outcome };
                let (happened, end) = run(rest, results.drop_first());
                (seq![plan.effects[0]] + happened, end)
            },
        }
    }
}

/// [run] is what happens to an operation whose steps are taken with [Waiting::resume]: a finished one
/// yields its outcome; one that needs an action performs it and goes on as `resume` says.
pub proof fn lemma_run_is_repeated_resume<'a, T, E>(
    step: Step<'a, T>,
    results: Seq<Result<(), E>>,
    next: Result<Step<'a, T>, E>,
)
    requires
        0 < results.len(),
        step matches Step::Perform(_, waiting) ==> call_ensures(
            Waiting::<'a, T>::resume::<E>,
            (waiting, results[0]),
            next,
        ),
    ensures
        run(step@, results) == match step {
            Step::Finished(outcome) => (Seq::<Effect>::empty(), Ok::<T, E>(outcome)),
            Step::Perform(action, _) => match next {
                Err(error) => (seq![action@], Err::<T, E>(error)),
                Ok(rest) => {
                    let (happened, end) = run(rest@, results.drop_first());
                    (seq![action@] + happened, end)
                },
            },
        },
{
    if let Step::Perform(action, waiting) = step {
        assert(step@.effects.drop_first() =~= waiting@.effects);
    }
}

/// An operation whose actions all succeed performs exactly the effects of its plan, in order, and
/// yields the outcome of its plan.
pub proof fn lemma_run_succeeds<T, E>(plan: Plan<T>, results: Seq<Result<(), E>>)
    requires
        plan.effects.len() <= results.len(),
        forall|i: int| 0 <= i < plan.effects.len() ==> (#[trigger] results[i]) is Ok,
    ensures
        run(plan, results) == (plan.effects, Ok::<T, E>(plan.outcome)),
    decreases plan.effects.len(),
{
    if plan.effects.len() > 0 {
        let rest = Plan { effects: plan.effects.drop_first(), outcome: plan.outcome };
        assert(results[0] is Ok);
        assert forall|i: int| 0 <= i < rest.effects.len() implies (
        #[trigger] results.drop_first()[i]) is Ok by {
            assert(results[i + 1] is Ok);
        }
        lemma_run_succeeds(rest, results.drop_first());
        assert(seq![plan.effects[0]] + rest.effects =~= plan.effects);
    } else {
        assert(plan.effects =~= Seq::empty());
    }
}

/// An operation ends with the error of its first action that fails: that action is the last one
/// that it performs, and it yields nothing.
pub proof fn lemma_run_stops_at_first_error<T, E>(
    plan: Plan<T>,
    results: Seq<Result<(), E>>,
    failed: int,
)
    requires
        0 <= failed < plan.effects.len() <= results.len(),
        results[failed] is Err,
        forall|i: int| 0 <= i < failed ==> (#[trigger] results[i]) is Ok,
    ensures
        run(plan, results) == (
            plan.effects.take(failed + 1),
            Err::<T, E>(results[failed]->Err_0),
        ),
    decreases plan.effects.len(),
{
    if failed == 0 {
        assert(plan.effects.take(1) =~= seq![plan.effects[0]]);
    } else {
        let rest = Plan { effects: plan.effects.drop_first(), outcome: plan.outcome };
        assert(results[0] is Ok);
        assert forall|i: int| 0 <= i < failed - 1 implies (
        #[trigger] results.drop_first()[i]) is Ok by {
            assert(results[i + 1] is Ok);
        }
        lemma_run_stops_at_first_error(rest, results.drop_first(), failed - 1);
        assert(seq![plan.effects[0]] + rest.effects.take(failed) =~= plan.effects.take(failed + 1));
    }
}

} // verus!
