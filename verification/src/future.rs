//! Request futures: one-shot bridges between a pending command (or a wait
//! for unsolicited inbound data) and the response that completes it.
//!
//! Construction transmits the command and logs it; each check drains the
//! buffered responses, completes on the first one of the matching kind, and
//! otherwise stays pending so the caller can register for a wake-up.

use vstd::prelude::*;
use crate::karma::{event_changes_state, record_event, InputOrOutput, Karma};
use crate::radio::{
    input_eq, input_required_state, output_eq, spec_response, Radio, RadioInputMsg, RadioOutputMsg,
    RadioState,
};

verus! {

/// What a request is created from: a command to transmit, or a wait for
/// the next unsolicited inbound data.
#[derive(Debug)]
pub enum RadioFutureCreateArg {
    InputMsg(RadioInputMsg),
    AwaitReceive,
}

/// Spec-level equality of request arguments.
pub open spec fn arg_eq(a: RadioFutureCreateArg, b: RadioFutureCreateArg) -> bool {
    match (a, b) {
        (RadioFutureCreateArg::InputMsg(x), RadioFutureCreateArg::InputMsg(y)) => input_eq(x, y),
        (RadioFutureCreateArg::AwaitReceive, RadioFutureCreateArg::AwaitReceive) => true,
        _ => false,
    }
}

impl Clone for RadioFutureCreateArg {
    fn clone(&self) -> (r: Self)
        ensures
            arg_eq(r, *self),
    {
        match self {
            RadioFutureCreateArg::InputMsg(input) => RadioFutureCreateArg::InputMsg(input.clone()),
            RadioFutureCreateArg::AwaitReceive => RadioFutureCreateArg::AwaitReceive,
        }
    }
}

/// A request that completes immediately with no response: the two switch
/// commands emit none, so there is nothing to wait for.
pub open spec fn spec_no_response_expected(arg: RadioFutureCreateArg) -> bool {
    match arg {
        RadioFutureCreateArg::InputMsg(RadioInputMsg::StateTransmit) => true,
        RadioFutureCreateArg::InputMsg(RadioInputMsg::StateReceive) => true,
        _ => false,
    }
}

pub(crate) fn no_response_expected(arg: &RadioFutureCreateArg) -> (b: bool)
    ensures
        b == spec_no_response_expected(*arg),
{
    match arg {
        RadioFutureCreateArg::InputMsg(RadioInputMsg::StateTransmit) => true,
        RadioFutureCreateArg::InputMsg(RadioInputMsg::StateReceive) => true,
        _ => false,
    }
}

/// Kind-based matching: any response of the kind the request awaits
/// satisfies it; payload contents are not compared.
pub open spec fn spec_matches(arg: RadioFutureCreateArg, msg: RadioOutputMsg) -> bool {
    match (arg, msg) {
        (
            RadioFutureCreateArg::InputMsg(RadioInputMsg::Init),
            RadioOutputMsg::InitDone,
        ) => true,
        (
            RadioFutureCreateArg::InputMsg(RadioInputMsg::Send(_)),
            RadioOutputMsg::SendDone,
        ) => true,
        (RadioFutureCreateArg::AwaitReceive, RadioOutputMsg::DataReceived(_)) => true,
        _ => false,
    }
}

fn matches_request(arg: &RadioFutureCreateArg, msg: &RadioOutputMsg) -> (b: bool)
    ensures
        b == spec_matches(*arg, *msg),
{
    match (arg, msg) {
        (
            RadioFutureCreateArg::InputMsg(RadioInputMsg::Init),
            RadioOutputMsg::InitDone,
        ) => true,
        (
            RadioFutureCreateArg::InputMsg(RadioInputMsg::Send(_)),
            RadioOutputMsg::SendDone,
        ) => true,
        (RadioFutureCreateArg::AwaitReceive, RadioOutputMsg::DataReceived(_)) => true,
        _ => false,
    }
}

/// Is some buffered response of the matching kind?
pub open spec fn spec_has_match(arg: RadioFutureCreateArg, msgs: Seq<RadioOutputMsg>) -> bool {
    exists|i: int| 0 <= i < msgs.len() && spec_matches(arg, msgs[i])
}

/// The index of the first buffered response of the matching kind.
pub open spec fn spec_first_match_idx(arg: RadioFutureCreateArg, msgs: Seq<RadioOutputMsg>) -> int
    decreases msgs.len(),
{
    if msgs.len() == 0 {
        0
    } else if spec_matches(arg, msgs[0]) {
        0
    } else {
        1 + spec_first_match_idx(arg, msgs.skip(1))
    }
}

pub proof fn lemma_first_match_idx(arg: RadioFutureCreateArg, msgs: Seq<RadioOutputMsg>)
    requires
        spec_has_match(arg, msgs),
    ensures
        0 <= spec_first_match_idx(arg, msgs) < msgs.len(),
        spec_matches(arg, msgs[spec_first_match_idx(arg, msgs)]),
        forall|j: int| 0 <= j < spec_first_match_idx(arg, msgs) ==> !spec_matches(arg, msgs[j]),
    decreases msgs.len(),
{
    if !spec_matches(arg, msgs[0]) {
        assert(spec_has_match(arg, msgs.skip(1))) by {
            let i = choose|i: int| 0 <= i < msgs.len() && spec_matches(arg, msgs[i]);
            assert(msgs.skip(1)[i - 1] == msgs[i]);
        }
        lemma_first_match_idx(arg, msgs.skip(1));
        let k = spec_first_match_idx(arg, msgs.skip(1));
        assert(msgs[1 + k] == msgs.skip(1)[k]);
        assert forall|j: int| 0 <= j < 1 + k implies !spec_matches(arg, msgs[j]) by {
            if j > 0 {
                assert(msgs[j] == msgs.skip(1)[j - 1]);
            }
        }
    }
}

/// What one check does to the response buffer: with a match, exactly the
/// first matching response is taken out and returned; without one, the
/// buffer is untouched and nothing is returned.
pub open spec fn spec_take_matching_post(
    arg: RadioFutureCreateArg,
    pre: Seq<RadioOutputMsg>,
    post: Seq<RadioOutputMsg>,
    r: Option<RadioOutputMsg>,
) -> bool {
    if spec_has_match(arg, pre) {
        let i = spec_first_match_idx(arg, pre);
        &&& r == Some(pre[i])
        &&& post == pre.remove(i)
    } else {
        &&& r is None
        &&& post == pre
    }
}

/// Take the first response in `buf` of the kind matching `arg`, removing
/// exactly it; every other buffered response stays for other requests.
pub fn take_matching(arg: &RadioFutureCreateArg, buf: &mut Vec<RadioOutputMsg>) -> (r: Option<
    RadioOutputMsg,
>)
    ensures
        spec_take_matching_post(*arg, old(buf)@, final(buf)@, r),
{
    let mut i: usize = 0;
    while i < buf.len()
        invariant
            i <= buf@.len(),
            buf@ == old(buf)@,
            forall|j: int| 0 <= j < i ==> !spec_matches(*arg, buf@[j]),
        decreases buf@.len() - i,
    {
        if matches_request(arg, &buf[i]) {
            proof {
                assert(spec_has_match(*arg, buf@));
                lemma_first_match_idx(*arg, buf@);
                let k = spec_first_match_idx(*arg, buf@);
                assert(!(k < i) && !(i < k));
            }
            let msg = buf.remove(i);
            return Some(msg);
        }
        i = i + 1;
    }
    proof {
        assert(!spec_has_match(*arg, buf@));
    }
    None
}

/// How one check may change the history log: a consumed response with a
/// state effect is appended; a no-op response leaves the log untouched.
pub open spec fn spec_log_after_output(
    pre: Seq<InputOrOutput<RadioInputMsg, RadioOutputMsg>>,
    post: Seq<InputOrOutput<RadioInputMsg, RadioOutputMsg>>,
    msg: RadioOutputMsg,
) -> bool {
    if msg is DataReceived {
        post == pre
    } else {
        &&& post.len() == pre.len() + 1
        &&& post.drop_last() == pre
        &&& match post.last() {
            InputOrOutput::Output(o) => output_eq(o, msg),
            InputOrOutput::Input(_) => false,
        }
    }
}

/// The result of one non-blocking check of a request.
#[derive(Debug, PartialEq, Eq)]
pub enum RadioPoll {
    Ready(Option<RadioOutputMsg>),
    Pending,
}

/// A one-shot pending request against the radio: either a command, already
/// transmitted when the future was created, or a wait for the next
/// unsolicited inbound data.
pub struct RadioFuture {
    pub orig_arg: RadioFutureCreateArg,
}

impl RadioFuture {
    /// Record a protocol event in the history log shared by every future of
    /// this `Karma`; events without a state effect are filtered out.
    pub fn push_to_support_queue(
        karma: &mut Karma<Radio, RadioState>,
        event: InputOrOutput<RadioInputMsg, RadioOutputMsg>,
    )
        ensures
            event_changes_state(event) ==> final(karma).support_queue@ == old(
                karma,
            ).support_queue@.push(event),
            !event_changes_state(event) ==> final(karma).support_queue@ == old(
                karma,
            ).support_queue@,
            final(karma).peripheral == old(karma).peripheral,
    {
        record_event(&mut karma.support_queue, event);
    }

    /// Create a request against the peripheral wrapped by `karma`. A
    /// command is transmitted into the command channel and logged before
    /// the future is returned; a wait-for-data request transmits nothing.
    pub fn new(karma: &mut Karma<Radio, RadioState>, arg: RadioFutureCreateArg) -> (f: RadioFuture)
        ensures
            f.orig_arg == arg,
            match arg {
                RadioFutureCreateArg::InputMsg(input) => {
                    let queue = final(karma).peripheral.command_queue@;
                    let log = final(karma).support_queue@;
                    &&& queue.len() == old(karma).peripheral.command_queue@.len() + 1
                    &&& queue.drop_last() == old(karma).peripheral.command_queue@
                    &&& input_eq(queue.last(), input)
                    &&& log.len() == old(karma).support_queue@.len() + 1
                    &&& log.drop_last() == old(karma).support_queue@
                    &&& match log.last() {
                        InputOrOutput::Input(i) => input_eq(i, input),
                        InputOrOutput::Output(_) => false,
                    }
                },
                RadioFutureCreateArg::AwaitReceive => *final(karma) == *old(karma),
            },
            final(karma).peripheral.id == old(karma).peripheral.id,
            final(karma).peripheral.state == old(karma).peripheral.state,
            final(karma).peripheral.interrupt_queue@ == old(karma).peripheral.interrupt_queue@,
            final(karma).peripheral.clock_ms == old(karma).peripheral.clock_ms,
            final(karma).peripheral.halted == old(karma).peripheral.halted,
    {
        match &arg {
            RadioFutureCreateArg::InputMsg(input) => {
                let sent = input.clone();
                karma.peripheral.enqueue_command(sent);
                let logged = input.clone();
                record_event(&mut karma.support_queue, InputOrOutput::Input(logged));
            },
            RadioFutureCreateArg::AwaitReceive => {},
        }
        RadioFuture { orig_arg: arg }
    }

    /// One non-blocking check of the request. A switch command completes at
    /// once with no response. Otherwise the buffered responses are searched
    /// in arrival order: the first one of the matching kind is consumed,
    /// logged, and returned, and every other response stays buffered; with
    /// no match the request reports pending, and the caller registers its
    /// wake-handle to be revisited after the next notification.
    pub fn poll(&self, karma: &mut Karma<Radio, RadioState>) -> (r: RadioPoll)
        ensures
            spec_no_response_expected(self.orig_arg) ==> (r == RadioPoll::Ready(
                None::<RadioOutputMsg>,
            ) && *final(karma) == *old(karma)),
            !spec_no_response_expected(self.orig_arg) ==> {
                let pre = old(karma).peripheral.interrupt_queue@;
                &&& if spec_has_match(self.orig_arg, pre) {
                    let m = pre[spec_first_match_idx(self.orig_arg, pre)];
                    &&& r == RadioPoll::Ready(Some(m))
                    &&& final(karma).peripheral.interrupt_queue@ == pre.remove(
                        spec_first_match_idx(self.orig_arg, pre),
                    )
                    &&& spec_log_after_output(
                        old(karma).support_queue@,
                        final(karma).support_queue@,
                        m,
                    )
                } else {
                    &&& r == RadioPoll::Pending
                    &&& final(karma).peripheral.interrupt_queue@ == pre
                    &&& final(karma).support_queue@ == old(karma).support_queue@
                }
                &&& final(karma).peripheral.id == old(karma).peripheral.id
                &&& final(karma).peripheral.state == old(karma).peripheral.state
                &&& final(karma).peripheral.command_queue@ == old(
                    karma,
                ).peripheral.command_queue@
                &&& final(karma).peripheral.clock_ms == old(karma).peripheral.clock_ms
                &&& final(karma).peripheral.halted == old(karma).peripheral.halted
            },
    {
        if no_response_expected(&self.orig_arg) {
            return RadioPoll::Ready(None);
        }
        let ghost pre = karma.peripheral.interrupt_queue@;
        let ghost pre_log = karma.support_queue@;
        match take_matching(&self.orig_arg, &mut karma.peripheral.interrupt_queue) {
            Some(msg) => {
                proof {
                    lemma_first_match_idx(self.orig_arg, pre);
                    lemma_history_filter();
                }
                let logged = msg.clone();
                record_event(&mut karma.support_queue, InputOrOutput::Output(logged));
                proof {
                    if !(logged is DataReceived) {
                        assert(karma.support_queue@.drop_last() =~= pre_log);
                    }
                }
                RadioPoll::Ready(Some(msg))
            },
            None => RadioPoll::Pending,
        }
    }
}

/// Law: an initialization request is satisfied exactly by an `InitDone`
/// response; the hardware emits `InitDone` only when it accepts `Init` —
/// which it does exactly from the uninitialized state — and in that very
/// step it settles in `Receive`. So the request completes with an
/// `InitDone`-shaped response if and only if the device reaches `Receive`.
pub proof fn lemma_init_completion(s: RadioState)
    ensures
        forall|m: RadioOutputMsg|
            spec_matches(RadioFutureCreateArg::InputMsg(RadioInputMsg::Init), m) <==> m
                is InitDone,
        forall|c: RadioInputMsg|
            spec_response(c) == Some(RadioOutputMsg::InitDone) ==> c is Init,
        spec_response(RadioInputMsg::Init) == Some(RadioOutputMsg::InitDone),
        crate::radio::spec_settle_state(RadioInputMsg::Init) == RadioState::Receive,
        s == input_required_state(RadioInputMsg::Init) <==> s == RadioState::NotInit,
{
    assert forall|c: RadioInputMsg|
        spec_response(c) == Some(RadioOutputMsg::InitDone) implies c is Init by {
        match c {
            RadioInputMsg::Init => {},
            RadioInputMsg::StateTransmit => {},
            RadioInputMsg::StateReceive => {},
            RadioInputMsg::Send(_) => {},
        }
    }
}

/// Law: a send request is satisfied exactly by a send-completion response;
/// the hardware emits `SendDone` only when it retires a send — in the very
/// step that advances the simulated clock by the payload's full transfer
/// latency. So the request cannot complete before that latency has elapsed,
/// and completes with a `SendDone`-shaped response once it has.
pub proof fn lemma_send_latency(data: Vec<u8>)
    ensures
        crate::radio::spec_latency_ms(RadioInputMsg::Send(data)) == data@.len() * (
        crate::radio::MS_PER_BYTE as int),
        spec_response(RadioInputMsg::Send(data)) == Some(RadioOutputMsg::SendDone),
        crate::radio::spec_settle_state(RadioInputMsg::Send(data)) == RadioState::Transmit,
        forall|m: RadioOutputMsg|
            spec_matches(RadioFutureCreateArg::InputMsg(RadioInputMsg::Send(data)), m) <==> m
                is SendDone,
        forall|c: RadioInputMsg| spec_response(c) == Some(RadioOutputMsg::SendDone) ==> c is Send,
{
    assert forall|c: RadioInputMsg|
        spec_response(c) == Some(RadioOutputMsg::SendDone) implies c is Send by {
        match c {
            RadioInputMsg::Init => {},
            RadioInputMsg::StateTransmit => {},
            RadioInputMsg::StateReceive => {},
            RadioInputMsg::Send(_) => {},
        }
    }
}

/// Law: the two switch commands complete their request immediately with
/// "no response": a request expects no response exactly when the command
/// emits none, which for inputs is exactly the two switch commands.
pub proof fn lemma_switch_commands_complete_immediately()
    ensures
        forall|c: RadioInputMsg|
            spec_no_response_expected(RadioFutureCreateArg::InputMsg(c)) <==> spec_response(c)
                is None,
        !spec_no_response_expected(RadioFutureCreateArg::AwaitReceive),
        spec_no_response_expected(RadioFutureCreateArg::InputMsg(RadioInputMsg::StateTransmit)),
        spec_no_response_expected(RadioFutureCreateArg::InputMsg(RadioInputMsg::StateReceive)),
{
    assert forall|c: RadioInputMsg|
        spec_no_response_expected(RadioFutureCreateArg::InputMsg(c)) <==> spec_response(c)
            is None by {
        match c {
            RadioInputMsg::Init => {},
            RadioInputMsg::StateTransmit => {},
            RadioInputMsg::StateReceive => {},
            RadioInputMsg::Send(_) => {},
        }
    }
}

/// Law: a response that never entered the response buffer can never be
/// what a request completes with: a completed check always hands back an
/// element of the buffer.
pub proof fn lemma_unbuffered_never_completes(
    arg: RadioFutureCreateArg,
    msgs: Seq<RadioOutputMsg>,
    m: RadioOutputMsg,
)
    requires
        !msgs.contains(m),
        spec_has_match(arg, msgs),
    ensures
        msgs[spec_first_match_idx(arg, msgs)] != m,
{
    lemma_first_match_idx(arg, msgs);
}

/// Law: every command carries a state effect and is always logged; among
/// responses exactly the data-arrival message is a pure no-op and is
/// filtered out. So a history log fed only no-op messages stays empty,
/// while each state-changing input and each matched state-changing output
/// grows it by exactly one.
pub proof fn lemma_history_filter()
    ensures
        forall|i: RadioInputMsg|
            #[trigger] event_changes_state::<RadioState, RadioInputMsg, RadioOutputMsg>(
                InputOrOutput::Input(i),
            ),
        forall|o: RadioOutputMsg|
            #[trigger] event_changes_state::<RadioState, RadioInputMsg, RadioOutputMsg>(
                InputOrOutput::Output(o),
            ) <==> !(o is DataReceived),
{
    assert forall|i: RadioInputMsg|
        #[trigger] event_changes_state::<RadioState, RadioInputMsg, RadioOutputMsg>(
            InputOrOutput::Input(i),
        ) by {
        match i {
            RadioInputMsg::Init => {},
            RadioInputMsg::StateTransmit => {},
            RadioInputMsg::StateReceive => {},
            RadioInputMsg::Send(_) => {},
        }
    }
    assert forall|o: RadioOutputMsg|
        #[trigger] event_changes_state::<RadioState, RadioInputMsg, RadioOutputMsg>(
            InputOrOutput::Output(o),
        ) <==> !(o is DataReceived) by {
        match o {
            RadioOutputMsg::DataReceived(_) => {},
            RadioOutputMsg::InitDone => {},
            RadioOutputMsg::SendDone => {},
        }
    }
}

} // verus!
