//! The generic peripheral contract and the history ("Karma") wrapper.
//!
//! Any peripheral plugs into the request machinery by giving its command
//! and response messages the two-state contract of [`PeripheralMsg`] and
//! itself the [`Peripheral`] contract. [`Karma`] pairs one peripheral with
//! an append-only log of every event that changed peripheral state, so that
//! state lost on a reset could be replayed back into consistency.

use vstd::prelude::*;
use core::marker::PhantomData;

verus! {

/// The contract every command and response message of a peripheral obeys:
/// a message names the device state that must hold before it is accepted
/// or emitted, and the device state that holds once it has taken effect.
pub trait PeripheralMsg<S>: Sized {
    /// The device state required before this message may be accepted or
    /// emitted.
    spec fn spec_required_initial_state(&self) -> S;

    /// The device state that results once this message has taken effect.
    spec fn spec_resulting_state(&self) -> S;

    fn required_initial_state(&self) -> (s: S)
        ensures
            s == self.spec_required_initial_state(),
    ;

    fn resulting_state(&self) -> (s: S)
        ensures
            s == self.spec_resulting_state(),
    ;

    /// Whether the message carries a durable state effect: exactly when its
    /// required and resulting states differ.
    fn changes_state(&self) -> (b: bool)
        ensures
            b == (self.spec_required_initial_state() != self.spec_resulting_state()),
    ;
}

/// A simulated device: it owns the authoritative copy of its state and is
/// driven through typed command and response messages.
pub trait Peripheral<S>: Sized {
    type InputMsg: PeripheralMsg<S>;

    type OutputMsg: PeripheralMsg<S>;

    spec fn spec_id(&self) -> u64;

    /// A snapshot of the device state, as observed from outside.
    spec fn spec_current_state(&self) -> S;

    /// How a power cycle relates the device before the cycle to the device
    /// after it.
    spec fn spec_power_cycle_post(pre: Self, post: Self) -> bool;

    fn get_id(&self) -> (id: u64)
        ensures
            id == self.spec_id(),
    ;

    fn get_current_state(&self) -> (s: S)
        ensures
            s == self.spec_current_state(),
    ;

    /// Power-cycle (reset) the device.
    fn power_cycle(&mut self)
        ensures
            Self::spec_power_cycle_post(*old(self), *final(self)),
    ;
}

/// A logged protocol event: a command accepted from the CPU side, or a
/// response emitted by the peripheral.
#[derive(Debug, PartialEq, Eq)]
pub enum InputOrOutput<I, O> {
    Input(I),
    Output(O),
}

/// Whether a protocol event carries a durable state effect: exactly when
/// the message's required and resulting states differ.
pub open spec fn event_changes_state<S, I: PeripheralMsg<S>, O: PeripheralMsg<S>>(
    event: InputOrOutput<I, O>,
) -> bool {
    match event {
        InputOrOutput::Input(i) => i.spec_required_initial_state() != i.spec_resulting_state(),
        InputOrOutput::Output(o) => o.spec_required_initial_state() != o.spec_resulting_state(),
    }
}

/// Append `event` to a history log exactly when it has a durable state
/// effect; a no-op message is filtered out and leaves the log untouched.
pub fn record_event<S, I: PeripheralMsg<S>, O: PeripheralMsg<S>>(
    log: &mut Vec<InputOrOutput<I, O>>,
    event: InputOrOutput<I, O>,
)
    ensures
        event_changes_state(event) ==> final(log)@ == old(log)@.push(event),
        !event_changes_state(event) ==> final(log)@ == old(log)@,
{
    let has_effect = match &event {
        InputOrOutput::Input(input) => input.changes_state(),
        InputOrOutput::Output(output) => output.changes_state(),
    };
    if has_effect {
        log.push(event);
    }
}

/// The input commands of a history log, in log order: what a replay after
/// a reset would re-issue.
pub open spec fn input_events<I, O>(log: Seq<InputOrOutput<I, O>>) -> Seq<I>
    decreases log.len(),
{
    if log.len() == 0 {
        Seq::empty()
    } else {
        match log.last() {
            InputOrOutput::Input(i) => input_events(log.drop_last()).push(i),
            InputOrOutput::Output(_) => input_events(log.drop_last()),
        }
    }
}

/// Pairs a peripheral with an append-only log of the input and output
/// events that changed its state. Every request spawned against one
/// `Karma` appends to the same log, in the order the events occur.
pub struct Karma<P, S> where P: Peripheral<S> {
    pub peripheral: P,
    pub support_queue: Vec<InputOrOutput<P::InputMsg, P::OutputMsg>>,
    pub state_marker: PhantomData<S>,
}

impl<P, S> Karma<P, S> where P: Peripheral<S> {
    pub fn new(peripheral: P) -> (k: Karma<P, S>)
        ensures
            k.peripheral == peripheral,
            k.support_queue@.len() == 0,
    {
        Karma { peripheral, support_queue: Vec::new(), state_marker: PhantomData }
    }

    /// The commands to re-issue, in order, after the peripheral lost its
    /// state. The log is unbounded and never pruned; replay here is a plain
    /// ordered re-issue of every logged input command, while logged outputs
    /// are the device's own responses and are not re-issued.
    pub fn replay_support_queue(&self) -> (cmds: Vec<&P::InputMsg>)
        ensures
            cmds@.len() == input_events(self.support_queue@).len(),
            forall|i: int|
                0 <= i < cmds@.len() ==> *cmds@[i] == input_events(self.support_queue@)[i],
    {
        let mut cmds: Vec<&P::InputMsg> = Vec::new();
        let n = self.support_queue.len();
        let mut idx: usize = 0;
        while idx < n
            invariant
                idx <= n,
                n == self.support_queue@.len(),
                cmds@.len() == input_events(self.support_queue@.take(idx as int)).len(),
                forall|i: int|
                    0 <= i < cmds@.len() ==> *cmds@[i] == input_events(
                        self.support_queue@.take(idx as int),
                    )[i],
            decreases n - idx,
        {
            proof {
                assert(self.support_queue@.take(idx + 1).drop_last() =~= self.support_queue@.take(
                    idx as int,
                ));
                assert(self.support_queue@.take(idx + 1).last() == self.support_queue@[idx as int]);
            }
            match &self.support_queue[idx] {
                InputOrOutput::Input(input) => {
                    cmds.push(input);
                },
                InputOrOutput::Output(_) => {},
            }
            idx = idx + 1;
        }
        proof {
            assert(self.support_queue@.take(n as int) =~= self.support_queue@);
        }
        cmds
    }
}

} // verus!
