use appimagezip::event::{must_wait, NotifyFlag};

#[test]
fn wait_returns_after_earlier_notify() {
    let flag = NotifyFlag::new();
    flag.notify_all();
    flag.wait();
    flag.wait();
}

#[test]
fn three_holders_are_released_by_one_notify() {
    let flag = NotifyFlag::new();
    let first = flag.clone();
    let second = flag.clone();
    let third = flag.clone();
    second.notify_all();
    first.wait();
    second.wait();
    third.wait();
    flag.wait();
}

#[test]
fn notify_twice_is_harmless() {
    let flag = NotifyFlag::new();
    flag.notify_all();
    flag.notify_all();
    flag.wait();
}

#[test]
fn waiting_goes_on_exactly_while_lowered() {
    assert!(must_wait(false));
    assert!(!must_wait(true));
}
