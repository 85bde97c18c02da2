use monitor_controller::param_events::ParamEventDispatcher;
use std::sync::mpsc;

#[test]
fn messages_reach_the_installed_sender() {
    let mut d: ParamEventDispatcher<u32> = ParamEventDispatcher::default();
    assert!(d.sender().is_none());
    d.send_with(|| panic!("no message is built without a sender"));
    let (tx, rx) = mpsc::channel();
    d.set_sender(tx);
    assert!(d.sender().is_some());
    d.send_with(|| 7);
    assert_eq!(rx.try_recv(), Ok(7));
    let copy = d.clone();
    copy.send_with(|| 9);
    assert_eq!(rx.try_recv(), Ok(9));
}
