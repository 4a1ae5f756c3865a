//! The live bridge to the hardware threads: typed channels carry commands
//! to the radio and responses back, and wake notifications make suspended
//! requests re-check. The channel operations themselves are trusted; the
//! logic around them — opening a request, draining arrivals, matching —
//! is verified.

use vstd::prelude::*;
use crate::future::{
    no_response_expected, spec_first_match_idx, spec_has_match, take_matching, RadioFutureCreateArg,
    RadioPoll, lemma_history_filter,
};
use crate::karma::{record_event, InputOrOutput};
use crate::radio::{input_eq, RadioInputMsg, RadioOutputMsg};

verus! {

#[verifier::external_type_specification]
#[verifier::external_body]
#[verifier::reject_recursive_types(T)]
pub struct ExSender<T>(crossbeam::channel::Sender<T>);

#[verifier::external_type_specification]
#[verifier::external_body]
#[verifier::reject_recursive_types(T)]
pub struct ExReceiver<T>(crossbeam::channel::Receiver<T>);

/// Relies on crossbeam_channel::Sender::send: queues the message for the
/// receiving side and fails exactly when every receiver is gone. What the
/// other side then holds is invisible here, so no more is claimed.
#[verifier::external_body]
fn send_input(tx: &crossbeam::channel::Sender<RadioInputMsg>, msg: RadioInputMsg) -> (ok: bool) {
    match tx.send(msg) {
        Ok(()) => true,
        Err(_) => false,
    }
}

/// Relies on crossbeam_channel::Receiver::try_recv: hands out a message
/// already sent into the channel, without blocking, or nothing when the
/// channel is empty or disconnected. Which message arrives depends on the
/// sending threads, so nothing is claimed about the value.
#[verifier::external_body]
fn try_recv_response(rx: &crossbeam::channel::Receiver<RadioOutputMsg>) -> (r: Option<
    RadioOutputMsg,
>) {
    match rx.try_recv() {
        Ok(msg) => Some(msg),
        Err(_) => None,
    }
}

/// Move up to `max` responses already arrived on the channel into `buf`,
/// in arrival order, after what was already buffered. The bound keeps one
/// check from being starved by a sender that never pauses.
pub fn drain_responses(
    rx: &crossbeam::channel::Receiver<RadioOutputMsg>,
    buf: &mut Vec<RadioOutputMsg>,
    max: usize,
)
    ensures
        old(buf)@.is_prefix_of(final(buf)@),
        final(buf)@.len() <= old(buf)@.len() + max,
{
    let mut taken: usize = 0;
    while taken < max
        invariant
            old(buf)@.is_prefix_of(buf@),
            buf@.len() <= old(buf)@.len() + taken,
            taken <= max,
        decreases max - taken,
    {
        match try_recv_response(rx) {
            Some(msg) => {
                let ghost k = old(buf)@.len() as int;
                buf.push(msg);
                proof {
                    assert(buf@.take(k) =~= old(buf)@);
                }
            },
            None => {
                return ;
            },
        }
        taken = taken + 1;
    }
}

/// What one live check does, given the responses that had arrived by the
/// time it looked: the buffer first grows by the new arrivals, then the
/// first response of the matching kind — if any — is taken out and
/// returned, every other response staying buffered for other requests.
pub open spec fn spec_live_check_post(
    arg: RadioFutureCreateArg,
    pre: Seq<RadioOutputMsg>,
    arrived: Seq<RadioOutputMsg>,
    post: Seq<RadioOutputMsg>,
    r: RadioPoll,
) -> bool {
    let full = pre + arrived;
    if spec_has_match(arg, full) {
        let i = spec_first_match_idx(arg, full);
        &&& r == RadioPoll::Ready(Some(full[i]))
        &&& post == full.remove(i)
    } else {
        &&& r == RadioPoll::Pending
        &&& post == full
    }
}

/// One live check of an outstanding request. A switch command completes at
/// once with no response and touches nothing. Otherwise the newly arrived
/// responses are drained into the shared buffer and the first buffered
/// response of the matching kind completes the request; with no match the
/// request is pending, and the caller registers its wake-handle before
/// returning control.
pub fn check_live_request(
    arg: &RadioFutureCreateArg,
    rx: &crossbeam::channel::Receiver<RadioOutputMsg>,
    buf: &mut Vec<RadioOutputMsg>,
    max_drain: usize,
) -> (r: RadioPoll)
    ensures
        crate::future::spec_no_response_expected(*arg) ==> (r == RadioPoll::Ready(
            None::<RadioOutputMsg>,
        ) && final(buf)@ == old(buf)@),
        !crate::future::spec_no_response_expected(*arg) ==> exists|arrived: Seq<RadioOutputMsg>|
            spec_live_check_post(*arg, old(buf)@, arrived, final(buf)@, r),
{
    if no_response_expected(arg) {
        return RadioPoll::Ready(None);
    }
    drain_responses(rx, buf, max_drain);
    let ghost full = buf@;
    let ghost arrived = buf@.skip(old(buf)@.len() as int);
    proof {
        assert(old(buf)@ + arrived =~= full);
    }
    let r = match take_matching(arg, buf) {
        Some(msg) => RadioPoll::Ready(Some(msg)),
        None => RadioPoll::Pending,
    };
    proof {
        assert(spec_live_check_post(*arg, old(buf)@, arrived, buf@, r));
    }
    r
}

/// Open a live request: a command is transmitted to the hardware over the
/// command channel and recorded in the shared history log before the
/// caller ever polls; a wait-for-data request transmits nothing. The send
/// fails only when the hardware side is gone, which the caller treats as
/// fatal; nothing is then logged.
pub fn open_live_request(
    tx: &crossbeam::channel::Sender<RadioInputMsg>,
    log: &mut Vec<InputOrOutput<RadioInputMsg, RadioOutputMsg>>,
    arg: &RadioFutureCreateArg,
) -> (sent: bool)
    ensures
        match *arg {
            RadioFutureCreateArg::InputMsg(input) => {
                if sent {
                    &&& final(log)@.len() == old(log)@.len() + 1
                    &&& final(log)@.drop_last() == old(log)@
                    &&& match final(log)@.last() {
                        InputOrOutput::Input(i) => input_eq(i, input),
                        InputOrOutput::Output(_) => false,
                    }
                } else {
                    final(log)@ == old(log)@
                }
            },
            RadioFutureCreateArg::AwaitReceive => sent && final(log)@ == old(log)@,
        },
{
    match arg {
        RadioFutureCreateArg::InputMsg(input) => {
            let msg = input.clone();
            if send_input(tx, msg) {
                let ghost pre_log = log@;
                let logged = input.clone();
                proof {
                    lemma_history_filter();
                }
                record_event(log, InputOrOutput::Input(logged));
                proof {
                    assert(log@.drop_last() =~= pre_log);
                }
                true
            } else {
                false
            }
        },
        RadioFutureCreateArg::AwaitReceive => true,
    }
}

} // verus!
