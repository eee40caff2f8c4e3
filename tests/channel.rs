use server::channel::Channel;
use server::signal::{poll_message, poll_signal, ErrorType, Message};

#[test]
fn values_come_out_in_order_once() {
    let mut c: Channel<u32> = Channel::new(1);
    assert!(c.send(1).is_ok());
    assert!(c.send(2).is_ok());
    assert_eq!(c.len(), 2);
    assert_eq!(c.try_recv(), Some(1));
    assert_eq!(c.try_recv(), Some(2));
    assert_eq!(c.try_recv(), None);
    assert_eq!(c.len(), 0);
}

#[test]
fn send_fails_without_receivers() {
    let mut c: Channel<u32> = Channel::new(2);
    c.detach();
    assert!(c.send(5).is_ok());
    c.detach();
    assert_eq!(c.receiver_count(), 0);
    assert_eq!(c.send(7), Err(7));
    assert_eq!(c.len(), 1);
}

#[test]
fn empty_polls_yield_placeholders() {
    let mut e: Channel<ErrorType> = Channel::new(1);
    match poll_signal(&mut e) {
        ErrorType::Nothing(s) => assert_eq!(s, "Nothing"),
        _ => panic!("expected the placeholder"),
    }
    let mut m: Channel<Message<u8>> = Channel::new(1);
    match poll_message(&mut m) {
        Message::Nothing(s) => assert_eq!(s, "Nothing"),
        _ => panic!("expected the placeholder"),
    }
    let _ = m.send(Message::NewMessage(9));
    match poll_message(&mut m) {
        Message::NewMessage(v) => assert_eq!(v, 9),
        _ => panic!("expected the job"),
    }
}

#[test]
fn fatal_is_recognised() {
    assert!(ErrorType::Fatal(String::new()).is_fatal());
    assert!(!ErrorType::NonFatal(String::new()).is_fatal());
    assert!(!ErrorType::Nothing(String::new()).is_fatal());
}
