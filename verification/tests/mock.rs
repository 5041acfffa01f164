use discord_hook::MockSender;

#[test]
fn default_is_empty() {
    let sender: MockSender<()> = MockSender::default();
    assert!(sender.is_empty());
}

#[test]
fn send_captures_message() {
    let mut sender: MockSender<String> = MockSender::new();
    assert!(sender.is_empty());
    sender.record(&"hello".to_string());
    assert_eq!(sender.len(), 1);
    assert_eq!(sender.messages(), vec!["hello".to_string()]);
}

#[test]
fn send_preserves_order() {
    let mut sender: MockSender<i32> = MockSender::new();
    for i in 0..5 {
        sender.record(&i);
    }
    assert_eq!(sender.messages(), vec![0, 1, 2, 3, 4]);
}

#[test]
fn clear_empties_captured_messages() {
    let mut sender: MockSender<i32> = MockSender::new();
    sender.record(&1);
    sender.record(&2);
    assert_eq!(sender.len(), 2);
    sender.clear();
    assert!(sender.is_empty());
    assert_eq!(sender.len(), 0);
}
