//! The simulated radio: its states, its command and response messages, the
//! authoritative state table, and a sequential model of the hardware loop.
//!
//! The state table:
//!
//! | Command         | Required state | Resulting state            | Response   |
//! |-----------------|----------------|----------------------------|------------|
//! | `Init`          | `NotInit`      | `Receive`                  | `InitDone` |
//! | `StateTransmit` | `Receive`      | `Transmit`                 | —          |
//! | `StateReceive`  | `Transmit`     | `Receive`                  | —          |
//! | `Send(bytes)`   | `Transmit`     | `SendInProgress`→`Transmit`| `SendDone` |
//!
//! A command whose required state does not match the current state is a
//! protocol violation by the caller and is fatal to the hardware loop.

use vstd::prelude::*;
use crate::karma::{InputOrOutput, Peripheral, PeripheralMsg};

verus! {

/// The discrete states of the radio. Exactly one authoritative copy exists,
/// owned by the hardware side; everything else observes snapshots.
#[derive(Clone, Copy, Debug, Hash, PartialEq, Eq, Structural)]
pub enum RadioState {
    NotInit,
    Receive,
    Transmit,
    SendInProgress,
}

/// Commands the CPU side sends to the radio.
#[derive(Debug, PartialEq, Eq)]
pub enum RadioInputMsg {
    Init,
    StateTransmit,
    StateReceive,
    Send(Vec<u8>),
}

/// Responses the radio emits back to the CPU side.
#[derive(Debug, PartialEq, Eq)]
pub enum RadioOutputMsg {
    DataReceived(Vec<u8>),
    InitDone,
    SendDone,
}

/// Spec-level equality of commands: the same variant and, for a send, the
/// same payload contents.
pub open spec fn input_eq(a: RadioInputMsg, b: RadioInputMsg) -> bool {
    match (a, b) {
        (RadioInputMsg::Init, RadioInputMsg::Init) => true,
        (RadioInputMsg::StateTransmit, RadioInputMsg::StateTransmit) => true,
        (RadioInputMsg::StateReceive, RadioInputMsg::StateReceive) => true,
        (RadioInputMsg::Send(x), RadioInputMsg::Send(y)) => x@ == y@,
        _ => false,
    }
}

/// Spec-level equality of responses: the same variant and, for a data
/// arrival, the same payload contents.
pub open spec fn output_eq(a: RadioOutputMsg, b: RadioOutputMsg) -> bool {
    match (a, b) {
        (RadioOutputMsg::DataReceived(x), RadioOutputMsg::DataReceived(y)) => x@ == y@,
        (RadioOutputMsg::InitDone, RadioOutputMsg::InitDone) => true,
        (RadioOutputMsg::SendDone, RadioOutputMsg::SendDone) => true,
        _ => false,
    }
}

/// The state a command requires before the hardware accepts it.
pub open spec fn input_required_state(m: RadioInputMsg) -> RadioState {
    match m {
        RadioInputMsg::Init => RadioState::NotInit,
        RadioInputMsg::StateTransmit => RadioState::Receive,
        RadioInputMsg::StateReceive => RadioState::Transmit,
        RadioInputMsg::Send(_) => RadioState::Transmit,
    }
}

/// The state a command puts the hardware in when accepted.
pub open spec fn input_resulting_state(m: RadioInputMsg) -> RadioState {
    match m {
        RadioInputMsg::Init => RadioState::Receive,
        RadioInputMsg::StateTransmit => RadioState::Transmit,
        RadioInputMsg::StateReceive => RadioState::Receive,
        RadioInputMsg::Send(_) => RadioState::SendInProgress,
    }
}

/// The state the hardware is in when it emits a response.
pub open spec fn output_required_state(m: RadioOutputMsg) -> RadioState {
    match m {
        RadioOutputMsg::SendDone => RadioState::SendInProgress,
        RadioOutputMsg::DataReceived(_) => RadioState::Receive,
        RadioOutputMsg::InitDone => RadioState::NotInit,
    }
}

/// The state a response leaves the hardware in.
pub open spec fn output_resulting_state(m: RadioOutputMsg) -> RadioState {
    match m {
        RadioOutputMsg::SendDone => RadioState::Transmit,
        RadioOutputMsg::DataReceived(_) => RadioState::Receive,
        RadioOutputMsg::InitDone => RadioState::Receive,
    }
}

impl PeripheralMsg<RadioState> for RadioInputMsg {
    open spec fn spec_required_initial_state(&self) -> RadioState {
        input_required_state(*self)
    }

    open spec fn spec_resulting_state(&self) -> RadioState {
        input_resulting_state(*self)
    }

    fn required_initial_state(&self) -> RadioState {
        match self {
            RadioInputMsg::Init => RadioState::NotInit,
            RadioInputMsg::StateTransmit => RadioState::Receive,
            RadioInputMsg::StateReceive => RadioState::Transmit,
            RadioInputMsg::Send(_) => RadioState::Transmit,
        }
    }

    fn resulting_state(&self) -> RadioState {
        match self {
            RadioInputMsg::Init => RadioState::Receive,
            RadioInputMsg::StateTransmit => RadioState::Transmit,
            RadioInputMsg::StateReceive => RadioState::Receive,
            RadioInputMsg::Send(_) => RadioState::SendInProgress,
        }
    }

    fn changes_state(&self) -> bool {
        true
    }
}

impl PeripheralMsg<RadioState> for RadioOutputMsg {
    open spec fn spec_required_initial_state(&self) -> RadioState {
        output_required_state(*self)
    }

    open spec fn spec_resulting_state(&self) -> RadioState {
        output_resulting_state(*self)
    }

    fn required_initial_state(&self) -> RadioState {
        match self {
            RadioOutputMsg::SendDone => RadioState::SendInProgress,
            RadioOutputMsg::DataReceived(_) => RadioState::Receive,
            RadioOutputMsg::InitDone => RadioState::NotInit,
        }
    }

    fn resulting_state(&self) -> RadioState {
        match self {
            RadioOutputMsg::SendDone => RadioState::Transmit,
            RadioOutputMsg::DataReceived(_) => RadioState::Receive,
            RadioOutputMsg::InitDone => RadioState::Receive,
        }
    }

    fn changes_state(&self) -> bool {
        match self {
            RadioOutputMsg::DataReceived(_) => false,
            _ => true,
        }
    }
}

/// Copy a byte payload.
fn clone_bytes(data: &Vec<u8>) -> (r: Vec<u8>)
    ensures
        r@ == data@,
{
    let mut r: Vec<u8> = Vec::new();
    let mut i: usize = 0;
    while i < data.len()
        invariant
            i <= data@.len(),
            r@ == data@.take(i as int),
        decreases data@.len() - i,
    {
        r.push(data[i]);
        proof {
            assert(data@.take(i + 1) =~= data@.take(i as int).push(data@[i as int]));
        }
        i = i + 1;
    }
    proof {
        assert(data@.take(data@.len() as int) =~= data@);
    }
    r
}

impl Clone for RadioInputMsg {
    fn clone(&self) -> (r: Self)
        ensures
            input_eq(r, *self),
    {
        match self {
            RadioInputMsg::Init => RadioInputMsg::Init,
            RadioInputMsg::StateTransmit => RadioInputMsg::StateTransmit,
            RadioInputMsg::StateReceive => RadioInputMsg::StateReceive,
            RadioInputMsg::Send(data) => RadioInputMsg::Send(clone_bytes(data)),
        }
    }
}

impl Clone for RadioOutputMsg {
    fn clone(&self) -> (r: Self)
        ensures
            output_eq(r, *self),
    {
        match self {
            RadioOutputMsg::DataReceived(data) => RadioOutputMsg::DataReceived(clone_bytes(data)),
            RadioOutputMsg::InitDone => RadioOutputMsg::InitDone,
            RadioOutputMsg::SendDone => RadioOutputMsg::SendDone,
        }
    }
}

/// Simulated transfer rate: sending one byte takes this many milliseconds.
pub const MS_PER_BYTE: u64 = 500;

/// Simulated busy time of a command, in milliseconds: a send is paced at
/// one byte per [`MS_PER_BYTE`] milliseconds; every other command is
/// instantaneous.
pub open spec fn spec_latency_ms(m: RadioInputMsg) -> int {
    match m {
        RadioInputMsg::Send(data) => data@.len() * (MS_PER_BYTE as int),
        _ => 0,
    }
}

/// Simulated busy time of a command, in milliseconds.
pub fn send_latency_ms(m: &RadioInputMsg) -> (ms: u64)
    requires
        spec_latency_ms(*m) <= u64::MAX,
    ensures
        ms == spec_latency_ms(*m),
{
    match m {
        RadioInputMsg::Send(data) => (data.len() as u64) * MS_PER_BYTE,
        _ => 0,
    }
}

/// The state the hardware settles in once a command has fully retired: the
/// command's resulting state, except that a send passes through
/// `SendInProgress` and settles back in `Transmit` when the transfer ends.
pub open spec fn spec_settle_state(m: RadioInputMsg) -> RadioState {
    match m {
        RadioInputMsg::Init => RadioState::Receive,
        RadioInputMsg::StateTransmit => RadioState::Transmit,
        RadioInputMsg::StateReceive => RadioState::Receive,
        RadioInputMsg::Send(_) => RadioState::Transmit,
    }
}

/// The response a command emits once retired, if any: the two switch
/// commands emit none.
pub open spec fn spec_response(m: RadioInputMsg) -> Option<RadioOutputMsg> {
    match m {
        RadioInputMsg::Init => Some(RadioOutputMsg::InitDone),
        RadioInputMsg::StateTransmit => None,
        RadioInputMsg::StateReceive => None,
        RadioInputMsg::Send(_) => Some(RadioOutputMsg::SendDone),
    }
}

/// A command arrived while the device was not in the state it requires: a
/// protocol violation by the caller, fatal to the hardware loop.
#[derive(Clone, Copy, Debug, PartialEq, Eq, Structural)]
pub struct ProtocolViolation;

/// How the hardware retires one accepted command: the state entered on
/// acceptance, the simulated busy time, the state it settles in once the
/// busy time has elapsed, and the response it then emits, if any.
#[derive(Debug, PartialEq, Eq)]
pub struct CommandPlan {
    pub enter_state: RadioState,
    pub latency_ms: u64,
    pub settle_state: RadioState,
    pub response: Option<RadioOutputMsg>,
}

/// Decide what the hardware does with `cmd` in state `current`: the command
/// is accepted exactly when `current` is its required state, in which case
/// the device passes through the command's resulting state and settles with
/// its response; otherwise the command is a protocol violation and nothing
/// may change.
pub fn command_plan(current: RadioState, cmd: &RadioInputMsg) -> (r: Result<
    CommandPlan,
    ProtocolViolation,
>)
    requires
        spec_latency_ms(*cmd) <= u64::MAX,
    ensures
        r is Ok <==> current == input_required_state(*cmd),
        r matches Ok(plan) ==> {
            &&& plan.enter_state == input_resulting_state(*cmd)
            &&& plan.latency_ms == spec_latency_ms(*cmd)
            &&& plan.settle_state == spec_settle_state(*cmd)
            &&& plan.response == spec_response(*cmd)
        },
{
    let required = cmd.required_initial_state();
    if current == required {
        let enter_state = cmd.resulting_state();
        let latency_ms = send_latency_ms(cmd);
        let (settle_state, response) = match cmd {
            RadioInputMsg::Init => (RadioState::Receive, Some(RadioOutputMsg::InitDone)),
            RadioInputMsg::StateTransmit => (RadioState::Transmit, None),
            RadioInputMsg::StateReceive => (RadioState::Receive, None),
            RadioInputMsg::Send(_) => (RadioState::Transmit, Some(RadioOutputMsg::SendDone)),
        };
        Ok(CommandPlan { enter_state, latency_ms, settle_state, response })
    } else {
        Err(ProtocolViolation)
    }
}

/// Decide what the hardware does with inbound data arriving over the air
/// in state `current`: delivered as a `DataReceived` response exactly when
/// the device is receiving; in any other state the data is dropped, not
/// buffered.
pub fn data_plan(current: RadioState, data: Vec<u8>) -> (r: Option<RadioOutputMsg>)
    ensures
        current == RadioState::Receive ==> r == Some(RadioOutputMsg::DataReceived(data)),
        current != RadioState::Receive ==> r is None,
{
    if matches!(current, RadioState::Receive) {
        Some(RadioOutputMsg::DataReceived(data))
    } else {
        None
    }
}

/// The sequential model of the radio hardware: the authoritative device
/// state, the commands sent from the CPU side but not yet processed, the
/// emitted responses not yet consumed by a request, and a clock counting
/// simulated milliseconds of busy time.
pub struct Radio {
    pub id: u64,
    pub state: RadioState,
    pub command_queue: Vec<RadioInputMsg>,
    pub interrupt_queue: Vec<RadioOutputMsg>,
    pub clock_ms: u64,
    pub halted: bool,
}

/// Does a command sequence obey the state table starting from `s`: each
/// command's required state is the state the previous one settled in.
pub open spec fn obeys_table(s: RadioState, cmds: Seq<RadioInputMsg>) -> bool
    decreases cmds.len(),
{
    cmds.len() == 0 || (s == input_required_state(cmds[0]) && obeys_table(
        spec_settle_state(cmds[0]),
        cmds.skip(1),
    ))
}

/// The device state after an accepted command sequence is fully processed.
pub open spec fn run_commands(s: RadioState, cmds: Seq<RadioInputMsg>) -> RadioState
    decreases cmds.len(),
{
    if cmds.len() == 0 {
        s
    } else {
        run_commands(spec_settle_state(cmds[0]), cmds.skip(1))
    }
}

/// The responses an accepted command sequence emits, in order.
pub open spec fn run_responses(cmds: Seq<RadioInputMsg>) -> Seq<RadioOutputMsg>
    decreases cmds.len(),
{
    if cmds.len() == 0 {
        Seq::empty()
    } else {
        match spec_response(cmds[0]) {
            Some(resp) => seq![resp] + run_responses(cmds.skip(1)),
            None => run_responses(cmds.skip(1)),
        }
    }
}

/// Total simulated busy time of a command sequence, in milliseconds.
pub open spec fn total_latency_ms(cmds: Seq<RadioInputMsg>) -> int
    decreases cmds.len(),
{
    if cmds.len() == 0 {
        0
    } else {
        spec_latency_ms(cmds[0]) + total_latency_ms(cmds.skip(1))
    }
}

/// Fold of `resulting_state` over a message trace: each message leaves the
/// device in its resulting state.
pub open spec fn fold_resulting(
    s: RadioState,
    events: Seq<InputOrOutput<RadioInputMsg, RadioOutputMsg>>,
) -> RadioState
    decreases events.len(),
{
    if events.len() == 0 {
        s
    } else {
        let next = match events[0] {
            InputOrOutput::Input(i) => input_resulting_state(i),
            InputOrOutput::Output(o) => output_resulting_state(o),
        };
        fold_resulting(next, events.skip(1))
    }
}

/// The message trace of a command run: each command followed by the
/// response it emits, if any.
pub open spec fn run_events(cmds: Seq<RadioInputMsg>) -> Seq<
    InputOrOutput<RadioInputMsg, RadioOutputMsg>,
>
    decreases cmds.len(),
{
    if cmds.len() == 0 {
        Seq::empty()
    } else {
        (match spec_response(cmds[0]) {
            Some(resp) => seq![
                InputOrOutput::Input(cmds[0]),
                InputOrOutput::Output(resp),
            ],
            None => seq![InputOrOutput::Input(cmds[0])],
        }) + run_events(cmds.skip(1))
    }
}

pub proof fn lemma_fold_concat(
    s: RadioState,
    a: Seq<InputOrOutput<RadioInputMsg, RadioOutputMsg>>,
    b: Seq<InputOrOutput<RadioInputMsg, RadioOutputMsg>>,
)
    ensures
        fold_resulting(s, a + b) == fold_resulting(fold_resulting(s, a), b),
    decreases a.len(),
{
    if a.len() == 0 {
        assert(a + b =~= b);
    } else {
        assert((a + b)[0] == a[0]);
        assert((a + b).skip(1) =~= a.skip(1) + b);
        let next = match a[0] {
            InputOrOutput::Input(i) => input_resulting_state(i),
            InputOrOutput::Output(o) => output_resulting_state(o),
        };
        lemma_fold_concat(next, a.skip(1), b);
    }
}

/// Law: after any command sequence that obeys the state table, the final
/// device state equals the fold of `resulting_state` over the run's
/// message trace — each command followed by the response it emitted.
pub proof fn lemma_final_state_is_fold(s: RadioState, cmds: Seq<RadioInputMsg>)
    requires
        obeys_table(s, cmds),
    ensures
        run_commands(s, cmds) == fold_resulting(s, run_events(cmds)),
    decreases cmds.len(),
{
    reveal_with_fuel(fold_resulting, 3);
    if cmds.len() > 0 {
        let c = cmds[0];
        match spec_response(c) {
            Some(resp) => {
                let head = seq![InputOrOutput::Input(c), InputOrOutput::Output(resp)];
                let tail = seq![
                    InputOrOutput::<RadioInputMsg, RadioOutputMsg>::Output(resp),
                ];
                assert(head.skip(1) =~= tail);
                assert(tail.skip(1) =~= Seq::<
                    InputOrOutput<RadioInputMsg, RadioOutputMsg>,
                >::empty());
                assert(fold_resulting(s, head) == output_resulting_state(resp));
                assert(output_resulting_state(resp) == spec_settle_state(c));
                lemma_fold_concat(s, head, run_events(cmds.skip(1)));
            },
            None => {
                let head = seq![
                    InputOrOutput::<RadioInputMsg, RadioOutputMsg>::Input(c),
                ];
                assert(head.skip(1) =~= Seq::<
                    InputOrOutput<RadioInputMsg, RadioOutputMsg>,
                >::empty());
                assert(fold_resulting(s, head) == input_resulting_state(c));
                assert(input_resulting_state(c) == spec_settle_state(c));
                lemma_fold_concat(s, head, run_events(cmds.skip(1)));
            },
        }
        lemma_final_state_is_fold(spec_settle_state(c), cmds.skip(1));
    }
}

pub proof fn lemma_total_latency_nonneg(cmds: Seq<RadioInputMsg>)
    ensures
        total_latency_ms(cmds) >= 0,
    decreases cmds.len(),
{
    if cmds.len() > 0 {
        lemma_total_latency_nonneg(cmds.skip(1));
    }
}

impl Radio {
    /// A fresh radio: not initialized, with nothing queued in either
    /// direction.
    pub fn new(id: u64) -> (r: Radio)
        ensures
            r.id == id,
            r.state == RadioState::NotInit,
            r.command_queue@.len() == 0,
            r.interrupt_queue@.len() == 0,
            r.clock_ms == 0,
            !r.halted,
    {
        Radio {
            id,
            state: RadioState::NotInit,
            command_queue: Vec::new(),
            interrupt_queue: Vec::new(),
            clock_ms: 0,
            halted: false,
        }
    }

    /// The CPU side sends `cmd` into the command channel; commands are
    /// processed in send order.
    pub fn enqueue_command(&mut self, cmd: RadioInputMsg)
        ensures
            final(self).command_queue@ == old(self).command_queue@.push(cmd),
            final(self).id == old(self).id,
            final(self).state == old(self).state,
            final(self).interrupt_queue@ == old(self).interrupt_queue@,
            final(self).clock_ms == old(self).clock_ms,
            final(self).halted == old(self).halted,
    {
        self.command_queue.push(cmd);
    }

    /// Process the oldest pending command, if any: assert its precondition
    /// state (fatal if violated — the hardware halts), pass through its
    /// resulting state for the command's full simulated busy time, settle,
    /// and emit its response. Returns whether a command was processed, or
    /// the protocol violation that halted the hardware.
    pub fn step(&mut self) -> (r: Result<bool, ProtocolViolation>)
        requires
            !old(self).halted && old(self).command_queue@.len() > 0 ==> old(self).clock_ms
                + spec_latency_ms(old(self).command_queue@[0]) <= u64::MAX,
        ensures
            final(self).id == old(self).id,
            old(self).halted || old(self).command_queue@.len() == 0 ==> (r == Ok::<
                bool,
                ProtocolViolation,
            >(false) && *final(self) == *old(self)),
            !old(self).halted && old(self).command_queue@.len() > 0 ==> {
                let cmd = old(self).command_queue@[0];
                &&& final(self).command_queue@ == old(self).command_queue@.skip(1)
                &&& if old(self).state == input_required_state(cmd) {
                    &&& r == Ok::<bool, ProtocolViolation>(true)
                    &&& final(self).state == spec_settle_state(cmd)
                    &&& final(self).clock_ms == old(self).clock_ms + spec_latency_ms(cmd)
                    &&& !final(self).halted
                    &&& match spec_response(cmd) {
                        Some(resp) => final(self).interrupt_queue@ == old(
                            self,
                        ).interrupt_queue@.push(resp),
                        None => final(self).interrupt_queue@ == old(self).interrupt_queue@,
                    }
                } else {
                    &&& r == Err::<bool, ProtocolViolation>(ProtocolViolation)
                    &&& final(self).state == old(self).state
                    &&& final(self).interrupt_queue@ == old(self).interrupt_queue@
                    &&& final(self).clock_ms == old(self).clock_ms
                    &&& final(self).halted
                }
            },
    {
        if self.halted || self.command_queue.len() == 0 {
            return Ok(false);
        }
        let ghost pre_queue = self.command_queue@;
        let cmd = self.command_queue.remove(0);
        proof {
            assert(self.command_queue@ =~= pre_queue.skip(1));
        }
        match command_plan(self.state, &cmd) {
            Ok(plan) => {
                self.state = plan.enter_state;
                self.clock_ms = self.clock_ms + plan.latency_ms;
                self.state = plan.settle_state;
                match plan.response {
                    Some(resp) => {
                        self.interrupt_queue.push(resp);
                    },
                    None => {},
                }
                Ok(true)
            },
            Err(violation) => {
                self.halted = true;
                Err(violation)
            },
        }
    }

    /// Process every pending command in send order. The whole pending
    /// sequence is accepted exactly when it obeys the state table from the
    /// current state; the first violating command halts the hardware.
    pub fn run_to_completion(&mut self) -> (r: Result<(), ProtocolViolation>)
        requires
            old(self).clock_ms + total_latency_ms(old(self).command_queue@) <= u64::MAX,
        ensures
            final(self).id == old(self).id,
            old(self).halted ==> (r == Ok::<(), ProtocolViolation>(()) && *final(self) == *old(
                self,
            )),
            !old(self).halted && obeys_table(old(self).state, old(self).command_queue@) ==> {
                &&& r == Ok::<(), ProtocolViolation>(())
                &&& final(self).state == run_commands(old(self).state, old(self).command_queue@)
                &&& final(self).command_queue@.len() == 0
                &&& final(self).interrupt_queue@ == old(self).interrupt_queue@ + run_responses(
                    old(self).command_queue@,
                )
                &&& final(self).clock_ms == old(self).clock_ms + total_latency_ms(
                    old(self).command_queue@,
                )
                &&& !final(self).halted
            },
            !old(self).halted && !obeys_table(old(self).state, old(self).command_queue@) ==> (
            r == Err::<(), ProtocolViolation>(ProtocolViolation) && final(self).halted),
        decreases old(self).command_queue@.len(),
    {
        if self.halted || self.command_queue.len() == 0 {
            proof {
                assert(self.interrupt_queue@ =~= self.interrupt_queue@ + Seq::<
                    RadioOutputMsg,
                >::empty());
            }
            return Ok(());
        }
        let ghost pre = *self;
        proof {
            lemma_total_latency_nonneg(pre.command_queue@.skip(1));
        }
        match self.step() {
            Ok(_) => {
                let ghost mid = *self;
                let r = self.run_to_completion();
                proof {
                    if obeys_table(pre.state, pre.command_queue@) {
                        match spec_response(pre.command_queue@[0]) {
                            Some(resp) => {
                                assert(pre.interrupt_queue@.push(resp) =~= pre.interrupt_queue@
                                    + seq![resp]);
                                assert(pre.interrupt_queue@ + seq![resp] + run_responses(
                                    pre.command_queue@.skip(1),
                                ) =~= pre.interrupt_queue@ + run_responses(pre.command_queue@));
                            },
                            None => {
                                assert(pre.interrupt_queue@ + run_responses(
                                    pre.command_queue@.skip(1),
                                ) =~= pre.interrupt_queue@ + run_responses(pre.command_queue@));
                            },
                        }
                    }
                }
                r
            },
            Err(violation) => Err(violation),
        }
    }

    /// Inbound data arrived over the air: delivered as a `DataReceived`
    /// response exactly when the device is receiving; in any other state
    /// the data is silently dropped, not buffered.
    pub fn inbound_data(&mut self, data: Vec<u8>) -> (delivered: bool)
        ensures
            delivered == (old(self).state == RadioState::Receive && !old(self).halted),
            delivered ==> final(self).interrupt_queue@ == old(self).interrupt_queue@.push(
                RadioOutputMsg::DataReceived(data),
            ),
            !delivered ==> final(self).interrupt_queue@ == old(self).interrupt_queue@,
            final(self).id == old(self).id,
            final(self).state == old(self).state,
            final(self).command_queue@ == old(self).command_queue@,
            final(self).clock_ms == old(self).clock_ms,
            final(self).halted == old(self).halted,
    {
        if self.halted {
            return false;
        }
        match data_plan(self.state, data) {
            Some(resp) => {
                self.interrupt_queue.push(resp);
                true
            },
            None => false,
        }
    }
}

impl Peripheral<RadioState> for Radio {
    type InputMsg = RadioInputMsg;

    type OutputMsg = RadioOutputMsg;

    open spec fn spec_id(&self) -> u64 {
        self.id
    }

    open spec fn spec_current_state(&self) -> RadioState {
        self.state
    }

    /// A power cycle forces the state back to `NotInit` unconditionally and
    /// silently: no response is emitted, nothing queued is disturbed. A
    /// halted radio is dead and ignores the signal.
    open spec fn spec_power_cycle_post(pre: Radio, post: Radio) -> bool {
        if pre.halted {
            post == pre
        } else {
            &&& post.state == RadioState::NotInit
            &&& post.id == pre.id
            &&& post.command_queue == pre.command_queue
            &&& post.interrupt_queue == pre.interrupt_queue
            &&& post.clock_ms == pre.clock_ms
            &&& post.halted == pre.halted
        }
    }

    fn get_id(&self) -> u64 {
        self.id
    }

    fn get_current_state(&self) -> RadioState {
        self.state
    }

    fn power_cycle(&mut self) {
        if !self.halted {
            self.state = RadioState::NotInit;
        }
    }
}

} // verus!
