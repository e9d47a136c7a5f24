use backend::chat_server::{
    ChatMessageToServer, DeliveryAction, DeliveryEvent, Disconnect, Join, JoinAction, JoinFlow,
    MessageDelivery, SessionRegistry,
};
use backend::decimal::render_i32;

fn message() -> ChatMessageToServer {
    ChatMessageToServer { sender_id: 1, receiver_id: 2, chat_id: 10, content: "hello".to_string() }
}

#[test]
fn decimal_rendering() {
    assert_eq!(render_i32(0), "0");
    assert_eq!(render_i32(7), "7");
    assert_eq!(render_i32(42), "42");
    assert_eq!(render_i32(-5), "-5");
    assert_eq!(render_i32(1000), "1000");
    assert_eq!(render_i32(i32::MAX), "2147483647");
    assert_eq!(render_i32(i32::MIN), "-2147483648");
}

#[test]
fn connect_registers_session_without_room() {
    let mut sessions: SessionRegistry<&str> = SessionRegistry::new();
    assert_eq!(sessions.recipient(5), None);
    sessions.connect(5, "addr-5");
    assert_eq!(sessions.recipient(5), Some(&"addr-5"));
    assert_eq!(sessions.room(5), Some(None));
    sessions.connect(5, "addr-5b");
    assert_eq!(sessions.recipient(5), Some(&"addr-5b"));
}

#[test]
fn disconnect_removes_only_that_session() {
    let mut sessions: SessionRegistry<&str> = SessionRegistry::new();
    sessions.connect(1, "a");
    sessions.connect(2, "b");
    let leaving = Disconnect { user_id: 1 };
    assert!(sessions.disconnect(leaving.user_id));
    assert_eq!(sessions.recipient(1), None);
    assert_eq!(sessions.recipient(2), Some(&"b"));
    assert!(!sessions.disconnect(1));
    assert_eq!(sessions.recipient(2), Some(&"b"));
}

#[test]
fn connect_then_disconnect_restores_sessions() {
    let mut sessions: SessionRegistry<&str> = SessionRegistry::new();
    sessions.connect(2, "b");
    sessions.connect(3, "c");
    assert!(sessions.disconnect(3));
    assert_eq!(sessions.recipient(3), None);
    assert_eq!(sessions.recipient(2), Some(&"b"));
    assert_eq!(sessions.room(2), Some(None));
}

#[test]
fn enter_room_needs_a_session() {
    let mut sessions: SessionRegistry<&str> = SessionRegistry::new();
    assert!(!sessions.enter_room(4, 9));
    assert_eq!(sessions.room(4), None);
    sessions.connect(4, "d");
    sessions.connect(6, "f");
    assert!(sessions.enter_room(4, 9));
    assert_eq!(sessions.room(4), Some(Some(9)));
    assert_eq!(sessions.recipient(4), Some(&"d"));
    assert_eq!(sessions.room(6), Some(None));
}

#[test]
fn message_forwarded_only_to_connected_receiver() {
    let mut sessions: SessionRegistry<&str> = SessionRegistry::new();
    let msg = message();
    assert!(MessageDelivery::live_recipient(&sessions, &msg).is_none());
    sessions.connect(2, "receiver");
    let (addr, content) = MessageDelivery::live_recipient(&sessions, &msg).unwrap();
    assert_eq!(*addr, "receiver");
    assert_eq!(content, "hello");
}

#[test]
fn delivery_full_path_sends_notification() {
    let (mut delivery, action) = MessageDelivery::start(message());
    match action {
        DeliveryAction::InsertChatMessage { sender_id, chat_id, content } => {
            assert_eq!((sender_id, chat_id, content.as_str()), (1, 10, "hello"));
        }
        other => panic!("unexpected {:?}", other),
    }
    match delivery.advance(DeliveryEvent::Succeeded) {
        DeliveryAction::IncrementUnreadCount { chat_id, sender_id } => {
            assert_eq!((chat_id, sender_id), (10, 1));
        }
        other => panic!("unexpected {:?}", other),
    }
    match delivery.advance(DeliveryEvent::Succeeded) {
        DeliveryAction::FetchPushToken { sender_id, chat_id } => {
            assert_eq!((sender_id, chat_id), (1, 10));
        }
        other => panic!("unexpected {:?}", other),
    }
    match delivery.advance(DeliveryEvent::PushToken(Some("ExponentPushToken[x]".to_string()))) {
        DeliveryAction::SendNotification(n) => {
            assert_eq!(n.to, "ExponentPushToken[x]");
            assert_eq!(n.title, "New Message");
            assert_eq!(n.body, "hello");
        }
        other => panic!("unexpected {:?}", other),
    }
    assert!(matches!(delivery.advance(DeliveryEvent::Succeeded), DeliveryAction::Stop));
    assert!(matches!(delivery.advance(DeliveryEvent::Succeeded), DeliveryAction::Stop));
}

#[test]
fn delivery_stops_when_storing_fails() {
    let (mut delivery, _) = MessageDelivery::start(message());
    assert!(matches!(delivery.advance(DeliveryEvent::Failed), DeliveryAction::Stop));
    assert!(matches!(delivery.advance(DeliveryEvent::Succeeded), DeliveryAction::Stop));
}

#[test]
fn delivery_stops_when_increment_fails() {
    let (mut delivery, _) = MessageDelivery::start(message());
    delivery.advance(DeliveryEvent::Succeeded);
    assert!(matches!(delivery.advance(DeliveryEvent::Failed), DeliveryAction::Stop));
}

#[test]
fn delivery_stops_without_push_token() {
    let (mut delivery, _) = MessageDelivery::start(message());
    delivery.advance(DeliveryEvent::Succeeded);
    delivery.advance(DeliveryEvent::Succeeded);
    assert!(matches!(delivery.advance(DeliveryEvent::PushToken(None)), DeliveryAction::Stop));
}

#[test]
fn delivery_stops_when_token_fetch_fails() {
    let (mut delivery, _) = MessageDelivery::start(message());
    delivery.advance(DeliveryEvent::Succeeded);
    delivery.advance(DeliveryEvent::Succeeded);
    assert!(matches!(delivery.advance(DeliveryEvent::Failed), DeliveryAction::Stop));
}

fn reply_error(action: JoinAction) -> String {
    match action {
        JoinAction::Reply(Err(text)) => text,
        other => panic!("unexpected {:?}", other),
    }
}

#[test]
fn join_succeeds_and_sets_room() {
    let mut sessions: SessionRegistry<&str> = SessionRegistry::new();
    sessions.connect(3, "c");
    let (mut flow, action) = JoinFlow::start(Join { user_id: 3, chat_id: 8 });
    assert!(matches!(action, JoinAction::CheckMembership { user_id: 3, chat_id: 8 }));
    let action = flow.on_membership(&mut sessions, Ok(Some(4)));
    assert!(matches!(action, JoinAction::ClearUnreadCount { user_id: 3, chat_id: 8 }));
    assert_eq!(sessions.room(3), Some(Some(8)));
    let action = flow.on_unread_cleared(Ok(()));
    assert!(matches!(action, JoinAction::Reply(Ok(4))));
}

#[test]
fn join_by_non_member_is_refused() {
    let mut sessions: SessionRegistry<&str> = SessionRegistry::new();
    sessions.connect(3, "c");
    let (mut flow, _) = JoinFlow::start(Join { user_id: 3, chat_id: 8 });
    let text = reply_error(flow.on_membership(&mut sessions, Ok(None)));
    assert_eq!(text, "You are not part of this chat group");
    assert_eq!(sessions.room(3), Some(None));
}

#[test]
fn join_membership_check_failure() {
    let mut sessions: SessionRegistry<&str> = SessionRegistry::new();
    let (mut flow, _) = JoinFlow::start(Join { user_id: 3, chat_id: 8 });
    let text = reply_error(flow.on_membership(&mut sessions, Err("timeout".to_string())));
    assert_eq!(text, "Failed to check if user is part of chat group: timeout\n");
}

#[test]
fn join_without_session() {
    let mut sessions: SessionRegistry<&str> = SessionRegistry::new();
    sessions.connect(1, "a");
    let (mut flow, _) = JoinFlow::start(Join { user_id: -12, chat_id: 8 });
    let text = reply_error(flow.on_membership(&mut sessions, Ok(Some(4))));
    assert_eq!(text, "Session with id -12 does not exist");
    assert_eq!(sessions.room(1), Some(None));
}

#[test]
fn join_clear_failure_keeps_room() {
    let mut sessions: SessionRegistry<&str> = SessionRegistry::new();
    sessions.connect(3, "c");
    let (mut flow, _) = JoinFlow::start(Join { user_id: 3, chat_id: 8 });
    flow.on_membership(&mut sessions, Ok(Some(4)));
    let text = reply_error(flow.on_unread_cleared(Err("db down".to_string())));
    assert_eq!(text, "Failed to clear unread count: db down\n");
    assert_eq!(sessions.room(3), Some(Some(8)));
}
