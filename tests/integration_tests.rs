use unai::model::{Message, Part, Role};

#[test]
fn test_message_construction() {
    let msg = Message::User(vec![Part::Text {
        content: "Hello".to_string(),
        finished: true,
    }]);

    assert_eq!(msg.role(), Role::User);
    if let Message::User(parts) = msg {
        assert_eq!(parts.len(), 1);
        if let Part::Text { content, .. } = &parts[0] {
            assert_eq!(content, "Hello");
        } else {
            panic!("Expected Text part");
        }
    } else {
        panic!("Expected User message");
    }
}
