use async_runtime::channel::{check_live_request, drain_responses, open_live_request};
use async_runtime::future::{RadioFutureCreateArg, RadioPoll};
use async_runtime::karma::InputOrOutput;
use async_runtime::radio::{RadioInputMsg, RadioOutputMsg};
use crossbeam::channel::unbounded;

#[test]
fn drain_pulls_arrivals_in_order() {
    let (tx, rx) = unbounded::<RadioOutputMsg>();
    tx.send(RadioOutputMsg::InitDone).unwrap();
    tx.send(RadioOutputMsg::DataReceived(vec![1, 2])).unwrap();
    tx.send(RadioOutputMsg::SendDone).unwrap();
    let mut buf = vec![RadioOutputMsg::SendDone];
    drain_responses(&rx, &mut buf, 100);
    assert_eq!(
        buf,
        vec![
            RadioOutputMsg::SendDone,
            RadioOutputMsg::InitDone,
            RadioOutputMsg::DataReceived(vec![1, 2]),
            RadioOutputMsg::SendDone,
        ]
    );
    // The channel is now empty: another drain adds nothing.
    drain_responses(&rx, &mut buf, 100);
    assert_eq!(buf.len(), 4);
}

#[test]
fn drain_respects_its_bound() {
    let (tx, rx) = unbounded::<RadioOutputMsg>();
    for _ in 0..5 {
        tx.send(RadioOutputMsg::SendDone).unwrap();
    }
    let mut buf = Vec::new();
    drain_responses(&rx, &mut buf, 3);
    assert_eq!(buf.len(), 3);
    drain_responses(&rx, &mut buf, 3);
    assert_eq!(buf.len(), 5);
}

#[test]
fn live_check_takes_first_match_and_keeps_rest() {
    let (tx, rx) = unbounded::<RadioOutputMsg>();
    tx.send(RadioOutputMsg::DataReceived(vec![9])).unwrap();
    tx.send(RadioOutputMsg::SendDone).unwrap();
    let mut buf = Vec::new();
    let arg = RadioFutureCreateArg::InputMsg(RadioInputMsg::Send(vec![1, 2, 3]));
    let r = check_live_request(&arg, &rx, &mut buf, 100);
    assert_eq!(r, RadioPoll::Ready(Some(RadioOutputMsg::SendDone)));
    assert_eq!(buf, vec![RadioOutputMsg::DataReceived(vec![9])]);
}

#[test]
fn live_check_pends_without_match() {
    let (tx, rx) = unbounded::<RadioOutputMsg>();
    tx.send(RadioOutputMsg::InitDone).unwrap();
    let mut buf = Vec::new();
    let r = check_live_request(&RadioFutureCreateArg::AwaitReceive, &rx, &mut buf, 100);
    assert_eq!(r, RadioPoll::Pending);
    assert_eq!(buf, vec![RadioOutputMsg::InitDone]);
}

#[test]
fn live_check_switch_completes_without_draining() {
    let (tx, rx) = unbounded::<RadioOutputMsg>();
    tx.send(RadioOutputMsg::InitDone).unwrap();
    let mut buf = Vec::new();
    let arg = RadioFutureCreateArg::InputMsg(RadioInputMsg::StateTransmit);
    let r = check_live_request(&arg, &rx, &mut buf, 100);
    assert_eq!(r, RadioPoll::Ready(None));
    assert!(buf.is_empty());
}

#[test]
fn open_request_transmits_and_logs() {
    let (tx, rx) = unbounded::<RadioInputMsg>();
    let mut log = Vec::new();
    let arg = RadioFutureCreateArg::InputMsg(RadioInputMsg::Send(vec![5]));
    assert!(open_live_request(&tx, &mut log, &arg));
    assert_eq!(rx.try_recv(), Ok(RadioInputMsg::Send(vec![5])));
    assert_eq!(log, vec![InputOrOutput::Input(RadioInputMsg::Send(vec![5]))]);
}

#[test]
fn open_await_receive_transmits_nothing() {
    let (tx, rx) = unbounded::<RadioInputMsg>();
    let mut log = Vec::new();
    assert!(open_live_request(&tx, &mut log, &RadioFutureCreateArg::AwaitReceive));
    assert!(rx.try_recv().is_err());
    assert!(log.is_empty());
}

#[test]
fn open_request_fails_when_hardware_gone() {
    let (tx, rx) = unbounded::<RadioInputMsg>();
    drop(rx);
    let mut log = Vec::new();
    let arg = RadioFutureCreateArg::InputMsg(RadioInputMsg::Init);
    assert!(!open_live_request(&tx, &mut log, &arg));
    assert!(log.is_empty());
}
