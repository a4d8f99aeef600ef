use atomics_lab::channel::Channel;

#[test]
fn new_channel_has_nothing() {
    let c: Channel<&str> = Channel::new();
    assert!(!c.is_ready_now());
    assert_eq!(c.close(), None);
}

#[test]
fn send_then_receive_gives_message() {
    let mut c = Channel::new();
    let (sender, receiver) = c.split();
    assert_eq!(receiver.try_receive(&mut c), None);
    sender.send(&mut c, "hello_world");
    assert!(c.is_ready_now());
    assert_eq!(receiver.receive(&mut c), "hello_world");
    assert!(!c.is_ready_now());
    assert_eq!(c.close(), None);
}

#[test]
fn message_is_received_once() {
    let mut c = Channel::new();
    let (sender, receiver) = c.split();
    sender.send(&mut c, 7u32);
    assert_eq!(receiver.try_receive(&mut c), Some(7));
    assert_eq!(receiver.try_receive(&mut c), None);
}

#[test]
fn unreceived_message_is_dropped_on_close() {
    let mut c = Channel::new();
    let (sender, _receiver) = c.split();
    sender.send(&mut c, String::from("left"));
    assert_eq!(c.close(), Some(String::from("left")));
}

#[test]
fn split_resets_a_pending_message() {
    let mut c = Channel::new();
    let (sender, _r) = c.split();
    sender.send(&mut c, 1);
    assert!(c.is_ready_now());
    let (_s, receiver) = c.split();
    assert!(!c.is_ready_now());
    assert_eq!(receiver.try_receive(&mut c), None);
}
