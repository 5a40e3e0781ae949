use paykit::websocket::{
    Alert, AlertLevel, ChatMessage, ConnectionInfo, LiveUpdate, MessageType, Notification, Presence,
    PresenceStatus, UpdateAction, WsError, WsHub, WsMessage, WsServerConfig,
};

#[test]
fn message_builders() {
    let m = WsMessage::new_at(MessageType::Json, "{}", 5).channel("orders").with_id("m1");
    assert_eq!(m.msg_type, MessageType::Json);
    assert_eq!(m.channel.as_deref(), Some("orders"));
    assert_eq!(m.id.as_deref(), Some("m1"));
    assert_eq!(m.timestamp, 5);
    let a = WsMessage::ack("ok", "m1");
    assert_eq!(a.msg_type, MessageType::Ack);
    assert_eq!(a.id.as_deref(), Some("m1"));
    assert_eq!(WsMessage::error("bad").msg_type, MessageType::Error);
}

#[test]
fn subscribing_twice_keeps_one_entry() {
    let mut c = ConnectionInfo::new_at("c1", 0);
    c.subscribe("news");
    c.subscribe("news");
    c.subscribe("sport");
    assert_eq!(c.channels, vec!["news".to_string(), "sport".to_string()]);
    c.unsubscribe("news");
    assert_eq!(c.channels, vec!["sport".to_string()]);
}

#[test]
fn hub_tracks_connections_and_users() {
    let mut hub = WsHub::new(WsServerConfig::default());
    hub.register_connection(ConnectionInfo::new_at("c1", 0).with_user("u1"));
    hub.register_connection(ConnectionInfo::new_at("c2", 0).with_user("u1"));
    hub.register_connection(ConnectionInfo::new_at("c3", 0).with_user("u2"));
    assert_eq!(hub.connected_count(), 3);
    let mut ids = hub.get_user_connections("u1");
    ids.sort();
    assert_eq!(ids, vec!["c1".to_string(), "c2".to_string()]);
    assert!(hub.remove_connection("c2").is_some());
    assert_eq!(hub.get_user_connections("u1"), vec!["c1".to_string()]);
    assert!(hub.get_connection("c2").is_none());
}

#[test]
fn hub_channels_and_broadcast() {
    let mut hub = WsHub::new(WsServerConfig::default());
    hub.register_connection(ConnectionInfo::new_at("c1", 0));
    hub.subscribe("c1", "news");
    assert_eq!(hub.get_connection("c1").unwrap().channels, vec!["news".to_string()]);
    let sub = hub.get_or_create_channel("news");
    let mut rx = sub.subscribe();
    assert_eq!(hub.channel_subscriber_count("news"), 1);
    assert_eq!(hub.broadcast_to_channel("news", WsMessage::text("hi")).unwrap(), 1);
    assert_eq!(rx.try_recv().unwrap().payload, "hi");
    assert_eq!(hub.broadcast_to_channel("nothing", WsMessage::text("x")).unwrap(), 0);
    hub.unsubscribe("c1", "news");
    assert!(hub.get_connection("c1").unwrap().channels.is_empty());
}

#[test]
fn payloads() {
    let n = Notification::new("T", "B").with_icon("i");
    assert_eq!(n.icon.as_deref(), Some("i"));
    assert_eq!(Alert::warning("t", "m").level, AlertLevel::Warning);
    let c = ChatMessage::new("s", "hello").to_user("r");
    assert_eq!(c.recipient_id.as_deref(), Some("r"));
    assert_eq!(LiveUpdate::deleted("order", "1").action, UpdateAction::Delete);
    assert_eq!(Presence::offline("u").status, PresenceStatus::Offline);
}

#[test]
fn server_config_and_errors() {
    let c = WsServerConfig::new("127.0.0.1", 9000).path("/socket").max_connections(5);
    assert_eq!(c.port, 9000);
    assert_eq!(c.path, "/socket");
    assert_eq!(c.max_connections, 5);
    assert_eq!(WsError::Internal("x".to_string()).to_string(), "Internal: x");
    assert_eq!(WsError::ChannelClosed.to_string(), "Channel closed");
}

#[test]
fn ack_at_is_stamped_with_the_given_time() {
    let a = WsMessage::ack_at("ok", "m7", 42);
    assert_eq!(a.msg_type, MessageType::Ack);
    assert_eq!(a.payload, "ok");
    assert_eq!(a.id.as_deref(), Some("m7"));
    assert!(a.channel.is_none());
    assert_eq!(a.timestamp, 42);
}

#[test]
fn subscribe_then_unsubscribe_restores_channels() {
    let mut c = ConnectionInfo::new_at("c1", 0);
    c.subscribe("a");
    c.subscribe("b");
    c.subscribe("news");
    c.unsubscribe("news");
    assert_eq!(c.channels, vec!["a".to_string(), "b".to_string()]);
}
