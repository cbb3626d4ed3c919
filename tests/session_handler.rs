use relay_bus::session::{
    frame_line, on_delivery, on_inbound, on_trimmed, Delivery, InboundAction, InboundRead,
    OutboundAction,
};

fn published(a: InboundAction) -> Option<String> {
    match a {
        InboundAction::Publish(m) => Some(m),
        _ => None,
    }
}

#[test]
fn inbound_line_is_trimmed_and_published() {
    let a = on_inbound(InboundRead::Line("  hello world \r\n".to_string()));
    assert_eq!(published(a), Some("hello world".to_string()));
}

#[test]
fn inbound_blank_line_is_ignored() {
    assert!(matches!(on_inbound(InboundRead::Line(" \t\n".to_string())), InboundAction::Ignore));
    assert!(matches!(on_inbound(InboundRead::Line(String::new())), InboundAction::Ignore));
}

#[test]
fn inbound_end_or_error_closes() {
    assert!(matches!(on_inbound(InboundRead::EndOfStream), InboundAction::Close));
    assert!(matches!(on_inbound(InboundRead::Failed), InboundAction::Close));
}

#[test]
fn trimmed_message_decision() {
    assert!(matches!(on_trimmed(String::new()), InboundAction::Ignore));
    assert_eq!(published(on_trimmed("x".to_string())), Some("x".to_string()));
}

#[test]
fn frame_adds_terminator() {
    assert_eq!(frame_line("hello"), "hello\n");
    assert_eq!(frame_line(""), "\n");
}

#[test]
fn delivery_reactions() {
    match on_delivery(Delivery::Message("hello".to_string())) {
        OutboundAction::Write(f) => assert_eq!(f, "hello\n"),
        _ => panic!("a message must be written"),
    }
    assert!(matches!(on_delivery(Delivery::Lagged(42)), OutboundAction::Wait));
    assert!(matches!(on_delivery(Delivery::Closed), OutboundAction::Close));
}

#[test]
fn message_from_one_session_reaches_another_framed() {
    // client A sends "hello"; the hub hands it to client B, who writes it out
    let msg = match on_inbound(InboundRead::Line("hello\n".to_string())) {
        InboundAction::Publish(m) => m,
        _ => panic!("a line must be published"),
    };
    match on_delivery(Delivery::Message(msg)) {
        OutboundAction::Write(f) => assert_eq!(f, "hello\n"),
        _ => panic!("a message must be written"),
    }
}
