use backend::connection::{next_action, Action, Event, Message};

#[test]
fn binary_payload_is_echoed_as_binary() {
    let msg = Message::Binary(vec![0x01, 0x02, 0x03]);
    assert_eq!(
        next_action(Event::Received(msg)),
        Action::Send(Message::Binary(vec![0x01, 0x02, 0x03]))
    );
}

#[test]
fn ping_is_not_echoed() {
    assert_eq!(next_action(Event::Received(Message::Ping(vec![9]))), Action::Skip);
}

#[test]
fn text_is_echoed_unchanged() {
    let msg = Message::Text("hello, world".to_string());
    assert_eq!(
        next_action(Event::Received(msg)),
        Action::Send(Message::Text("hello, world".to_string()))
    );
}

#[test]
fn empty_data_messages_are_still_echoed() {
    assert_eq!(
        next_action(Event::Received(Message::Text(String::new()))),
        Action::Send(Message::Text(String::new()))
    );
    assert_eq!(
        next_action(Event::Received(Message::Binary(Vec::new()))),
        Action::Send(Message::Binary(Vec::new()))
    );
}

#[test]
fn pong_and_close_are_not_echoed() {
    assert_eq!(next_action(Event::Received(Message::Pong(vec![1, 2]))), Action::Skip);
    assert_eq!(next_action(Event::Received(Message::Close)), Action::Skip);
}

#[test]
fn failed_read_stops_the_handler() {
    assert_eq!(next_action(Event::ReadFailed), Action::Stop);
}

#[test]
fn echoes_keep_order_and_drop_control_messages() {
    let incoming = vec![
        Message::Text("a".to_string()),
        Message::Ping(vec![]),
        Message::Binary(vec![7]),
        Message::Pong(vec![]),
        Message::Text("b".to_string()),
    ];
    let mut sent = Vec::new();
    for m in incoming {
        if let Action::Send(out) = next_action(Event::Received(m)) {
            sent.push(out);
        }
    }
    assert_eq!(
        sent,
        vec![
            Message::Text("a".to_string()),
            Message::Binary(vec![7]),
            Message::Text("b".to_string()),
        ]
    );
}

#[test]
fn kind_queries() {
    assert!(Message::Text("x".to_string()).is_text());
    assert!(!Message::Text("x".to_string()).is_binary());
    assert!(Message::Binary(vec![]).is_binary());
    assert!(!Message::Ping(vec![]).is_text());
    assert!(!Message::Close.is_binary());
}
