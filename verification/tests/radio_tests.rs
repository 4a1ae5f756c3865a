use async_runtime::karma::{Peripheral, PeripheralMsg};
use async_runtime::radio::{
    command_plan, send_latency_ms, ProtocolViolation, Radio, RadioInputMsg, RadioOutputMsg,
    RadioState,
};

#[test]
fn state_table_required_states() {
    assert_eq!(RadioInputMsg::Init.required_initial_state(), RadioState::NotInit);
    assert_eq!(RadioInputMsg::StateTransmit.required_initial_state(), RadioState::Receive);
    assert_eq!(RadioInputMsg::StateReceive.required_initial_state(), RadioState::Transmit);
    assert_eq!(RadioInputMsg::Send(vec![1]).required_initial_state(), RadioState::Transmit);
}

#[test]
fn state_table_resulting_states() {
    assert_eq!(RadioInputMsg::Init.resulting_state(), RadioState::Receive);
    assert_eq!(RadioInputMsg::StateTransmit.resulting_state(), RadioState::Transmit);
    assert_eq!(RadioInputMsg::StateReceive.resulting_state(), RadioState::Receive);
    assert_eq!(RadioInputMsg::Send(vec![1]).resulting_state(), RadioState::SendInProgress);
}

#[test]
fn response_side_states() {
    assert_eq!(RadioOutputMsg::SendDone.required_initial_state(), RadioState::SendInProgress);
    assert_eq!(RadioOutputMsg::SendDone.resulting_state(), RadioState::Transmit);
    assert_eq!(RadioOutputMsg::InitDone.resulting_state(), RadioState::Receive);
    assert_eq!(
        RadioOutputMsg::DataReceived(vec![1, 2]).required_initial_state(),
        RadioState::Receive
    );
    assert_eq!(RadioOutputMsg::DataReceived(vec![1, 2]).resulting_state(), RadioState::Receive);
}

/// The final observed state of an accepted command sequence equals the
/// fold of the resulting states over the run's messages.
#[test]
fn final_state_is_fold_of_run() {
    let mut radio = Radio::new(1);
    radio.enqueue_command(RadioInputMsg::Init);
    radio.enqueue_command(RadioInputMsg::StateTransmit);
    radio.enqueue_command(RadioInputMsg::Send(vec![1, 2]));
    radio.enqueue_command(RadioInputMsg::StateReceive);
    assert_eq!(radio.run_to_completion(), Ok(()));

    // Fold the resulting states over the trace: Init, InitDone,
    // StateTransmit, Send, SendDone, StateReceive.
    let trace_fold = RadioInputMsg::StateReceive.resulting_state();
    assert_eq!(radio.get_current_state(), trace_fold);
    assert_eq!(radio.get_current_state(), RadioState::Receive);
    assert_eq!(
        radio.interrupt_queue,
        vec![RadioOutputMsg::InitDone, RadioOutputMsg::SendDone]
    );
}

/// A command whose required state mismatches the current state always
/// aborts the hardware, never silently succeeds.
#[test]
fn mismatched_command_aborts() {
    let mut radio = Radio::new(2);
    radio.enqueue_command(RadioInputMsg::StateTransmit);
    let r = radio.step();
    assert_eq!(r, Err(ProtocolViolation));
    assert!(radio.halted);
    assert_eq!(radio.state, RadioState::NotInit);
    assert!(radio.interrupt_queue.is_empty());
    // The halted hardware processes nothing further.
    let mut dead = Radio::new(3);
    dead.enqueue_command(RadioInputMsg::Send(vec![1]));
    dead.enqueue_command(RadioInputMsg::Init);
    assert_eq!(dead.run_to_completion(), Err(ProtocolViolation));
    assert!(dead.halted);
}

#[test]
fn send_in_wrong_state_aborts() {
    let mut radio = Radio::new(4);
    radio.enqueue_command(RadioInputMsg::Init);
    assert_eq!(radio.step(), Ok(true));
    // Receiving, not transmitting: a send is a protocol violation.
    radio.enqueue_command(RadioInputMsg::Send(vec![5, 6]));
    assert_eq!(radio.step(), Err(ProtocolViolation));
}

#[test]
fn command_plan_matches_table() {
    let plan = command_plan(RadioState::NotInit, &RadioInputMsg::Init).unwrap();
    assert_eq!(plan.enter_state, RadioState::Receive);
    assert_eq!(plan.settle_state, RadioState::Receive);
    assert_eq!(plan.latency_ms, 0);
    assert_eq!(plan.response, Some(RadioOutputMsg::InitDone));

    let plan = command_plan(RadioState::Transmit, &RadioInputMsg::Send(vec![0; 4])).unwrap();
    assert_eq!(plan.enter_state, RadioState::SendInProgress);
    assert_eq!(plan.settle_state, RadioState::Transmit);
    assert_eq!(plan.latency_ms, 2000);
    assert_eq!(plan.response, Some(RadioOutputMsg::SendDone));

    let plan = command_plan(RadioState::Receive, &RadioInputMsg::StateTransmit).unwrap();
    assert_eq!(plan.response, None);

    assert_eq!(
        command_plan(RadioState::Receive, &RadioInputMsg::Init),
        Err(ProtocolViolation)
    );
}

/// One byte of payload costs 500 simulated milliseconds.
#[test]
fn latency_formula() {
    assert_eq!(send_latency_ms(&RadioInputMsg::Send(vec![1, 2, 3])), 1500);
    assert_eq!(send_latency_ms(&RadioInputMsg::Send(Vec::new())), 0);
    assert_eq!(send_latency_ms(&RadioInputMsg::Init), 0);
    assert_eq!(send_latency_ms(&RadioInputMsg::StateTransmit), 0);
}

/// Inbound data arriving while the device is not receiving is dropped.
#[test]
fn data_dropped_when_not_receiving() {
    let mut radio = Radio::new(5);
    assert!(!radio.inbound_data(vec![1, 2, 3]));
    assert!(radio.interrupt_queue.is_empty());
    radio.enqueue_command(RadioInputMsg::Init);
    assert_eq!(radio.step(), Ok(true));
    assert!(radio.inbound_data(vec![4, 5]));
    assert_eq!(
        radio.interrupt_queue,
        vec![RadioOutputMsg::InitDone, RadioOutputMsg::DataReceived(vec![4, 5])]
    );
}

/// A power cycle silently forces the state back to uninitialized.
#[test]
fn power_cycle_is_silent() {
    let mut radio = Radio::new(6);
    radio.enqueue_command(RadioInputMsg::Init);
    assert_eq!(radio.step(), Ok(true));
    assert_eq!(radio.get_current_state(), RadioState::Receive);
    let responses_before = radio.interrupt_queue.len();
    radio.power_cycle();
    assert_eq!(radio.get_current_state(), RadioState::NotInit);
    assert_eq!(radio.interrupt_queue.len(), responses_before);
    assert_eq!(radio.get_id(), 6);
}

/// An empty payload costs no simulated time but still completes with
/// `SendDone`.
#[test]
fn empty_send_takes_no_time() {
    let mut radio = Radio::new(8);
    radio.state = RadioState::Transmit;
    radio.enqueue_command(RadioInputMsg::Send(Vec::new()));
    assert_eq!(radio.step(), Ok(true));
    assert_eq!(radio.clock_ms, 0);
    assert_eq!(radio.state, RadioState::Transmit);
    assert_eq!(radio.interrupt_queue, vec![RadioOutputMsg::SendDone]);
}

#[test]
fn empty_queue_step_is_noop() {
    let mut radio = Radio::new(7);
    assert_eq!(radio.step(), Ok(false));
    assert_eq!(radio.run_to_completion(), Ok(()));
    assert_eq!(radio.state, RadioState::NotInit);
    assert_eq!(radio.clock_ms, 0);
}
