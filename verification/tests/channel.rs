use ps_payload_injector::channel::{channel, Message};
use ps_payload_injector::ui::InjectionStatus;

#[test]
fn fresh_channel_is_empty() {
    let (sender, mut receiver) = channel(7);
    assert_eq!(sender.channel(), 7);
    assert_eq!(receiver.channel(), 7);
    assert_eq!(receiver.pending(), 0);
    assert!(receiver.try_receive().is_none());
}

#[test]
fn reports_come_out_in_the_order_of_sending() {
    let (sender, mut receiver) = channel(1);
    for n in 0..100usize {
        assert!(receiver.deliver(sender.send(InjectionStatus::Success(n))));
    }
    assert_eq!(receiver.pending(), 100);
    for n in 0..100usize {
        match receiver.try_receive() {
            Some(InjectionStatus::Success(got)) => assert_eq!(got, n),
            other => panic!("unexpected {:?}", other),
        }
    }
    assert!(receiver.try_receive().is_none());
    assert_eq!(receiver.pending(), 0);
}

#[test]
fn send_stamps_the_channel_and_keeps_the_report() {
    let (sender, _receiver) = channel(42);
    let message = sender.send(InjectionStatus::Error("x".to_string()));
    assert_eq!(message.channel, 42);
    assert!(matches!(message.event, InjectionStatus::Error(text) if text == "x"));
}

#[test]
fn messages_of_other_channels_are_dropped() {
    let (_old_sender, _old_receiver) = channel(1);
    let (sender, mut receiver) = channel(2);
    assert!(!receiver.deliver(Message { channel: 1, event: InjectionStatus::Success(1) }));
    assert!(receiver.deliver(sender.send(InjectionStatus::InProgress("a".to_string()))));
    assert!(!receiver.deliver(Message { channel: 3, event: InjectionStatus::Idle }));
    assert!(receiver.deliver(sender.send(InjectionStatus::Success(2))));
    assert_eq!(receiver.pending(), 2);
    assert!(matches!(receiver.try_receive(), Some(InjectionStatus::InProgress(text)) if text == "a"));
    assert!(matches!(receiver.try_receive(), Some(InjectionStatus::Success(2))));
    assert!(receiver.try_receive().is_none());
}

#[test]
fn receive_and_deliver_may_alternate() {
    let (sender, mut receiver) = channel(0);
    receiver.deliver(sender.send(InjectionStatus::Success(1)));
    assert!(matches!(receiver.try_receive(), Some(InjectionStatus::Success(1))));
    assert!(receiver.try_receive().is_none());
    receiver.deliver(sender.send(InjectionStatus::Success(2)));
    receiver.deliver(sender.send(InjectionStatus::Success(3)));
    assert!(matches!(receiver.try_receive(), Some(InjectionStatus::Success(2))));
    receiver.deliver(sender.send(InjectionStatus::Success(4)));
    assert!(matches!(receiver.try_receive(), Some(InjectionStatus::Success(3))));
    assert!(matches!(receiver.try_receive(), Some(InjectionStatus::Success(4))));
    assert!(receiver.try_receive().is_none());
}
