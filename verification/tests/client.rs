use sotm_client::client::Client;
use sotm_client::message::{
    expected_reply_kind, ClientMessage, Connected, Error, Message, MessageKind, RoomInfo,
};
use sotm_client::state::RawSlotData;

fn room_info() -> RoomInfo {
    RoomInfo {
        seed_name: "seed-1".to_string(),
        datapackage_checksums: vec![
            ("Sentinels of the Multiverse".to_string(), "abc123".to_string()),
        ],
    }
}

fn connected() -> Connected {
    Connected {
        slot: 1,
        players: vec![],
        slot_info: vec![],
        slot_data: RawSlotData {
            required_scions: 10,
            required_villains: 0,
            required_variants: 0,
            villain_difficulty_points: vec![1, 0, 0, 0],
            locations_per: vec![1, 1, 1, 1, 1, 1],
        },
        checked_locations: vec![],
        missing_locations: vec![],
    }
}

#[test]
fn connect_returns_room_info_and_empty_buffer() {
    let batch = vec![Message::RoomInfo(room_info())];
    let (mut client, info) = Client::connect(batch).unwrap();
    assert_eq!(info.seed_name, "seed-1");
    assert_eq!(info.datapackage_checksums.len(), 1);
    assert!(client.recv().is_none());
}

#[test]
fn connect_retains_rest_of_first_batch() {
    let batch = vec![
        Message::RoomInfo(room_info()),
        Message::Print("hello".to_string()),
        Message::RoomUpdate,
    ];
    let (mut client, _info) = Client::connect(batch).unwrap();
    assert!(matches!(client.recv(), Some(Message::Print(t)) if t == "hello"));
    assert!(matches!(client.recv(), Some(Message::RoomUpdate)));
    assert!(client.recv().is_none());
}

#[test]
fn connect_rejects_other_first_message() {
    let batch = vec![Message::Print("nope".to_string())];
    match Client::connect(batch) {
        Err(Error::IllegalResponse { received, expected }) => {
            assert!(matches!(received, Message::Print(t) if t == "nope"));
            assert_eq!(expected, MessageKind::RoomInfo);
        }
        _ => panic!("expected an illegal-response error"),
    }
}

#[test]
fn connect_rejects_empty_first_batch() {
    match Client::connect(vec![]) {
        Err(Error::ConnectionClosed) => {}
        _ => panic!("expected a connection-closed error"),
    }
}

#[test]
fn message_order_preserved_across_batches() {
    let batch = vec![Message::RoomInfo(room_info())];
    let (mut client, _info) = Client::connect(batch).unwrap();
    client.accept_batch(vec![
        Message::Print("a".to_string()),
        Message::Print("b".to_string()),
    ]);
    client.accept_batch(vec![Message::Print("c".to_string())]);
    client.accept_batch(vec![
        Message::Print("d".to_string()),
        Message::Print("e".to_string()),
    ]);
    let mut seen = Vec::new();
    while let Some(m) = client.recv() {
        match m {
            Message::Print(t) => seen.push(t),
            _ => panic!("unexpected message"),
        }
    }
    assert_eq!(seen, vec!["a", "b", "c", "d", "e"]);
}

#[test]
fn buffering_round_trip_keeps_unrelated_messages_in_order() {
    let (mut client, _info) = Client::connect(vec![Message::RoomInfo(room_info())]).unwrap();
    // The reply to a request arrives behind two unrelated messages.
    client.accept_batch(vec![
        Message::Print("first".to_string()),
        Message::Print("second".to_string()),
        Message::ReceivedItems(vec![7, 8]),
    ]);
    let reply = client.take_reply(MessageKind::ReceivedItems);
    assert!(matches!(reply, Some(Message::ReceivedItems(ids)) if ids == vec![7, 8]));
    assert!(matches!(client.recv(), Some(Message::Print(t)) if t == "first"));
    assert!(matches!(client.recv(), Some(Message::Print(t)) if t == "second"));
    assert!(client.recv().is_none());
}

#[test]
fn correlated_connect_reply_then_buffered_print() {
    let (mut client, _info) = Client::connect(vec![Message::RoomInfo(room_info())]).unwrap();
    // The reply frame to a connect request: Connected followed by PrintJSON.
    client.accept_batch(vec![
        Message::Connected(connected()),
        Message::PrintJson("joined".to_string()),
    ]);
    let reply = client.take_reply(MessageKind::Connected);
    assert!(matches!(reply, Some(Message::Connected(c)) if c.slot == 1));
    assert!(matches!(client.recv(), Some(Message::PrintJson(t)) if t == "joined"));
    assert!(client.recv().is_none());
}

#[test]
fn take_reply_without_match_leaves_buffer_alone() {
    let (mut client, _info) = Client::connect(vec![Message::RoomInfo(room_info())]).unwrap();
    client.accept_batch(vec![Message::Print("x".to_string())]);
    assert!(client.take_reply(MessageKind::Retrieved).is_none());
    assert!(matches!(client.recv(), Some(Message::Print(t)) if t == "x"));
}

#[test]
fn split_moves_buffer_to_receiver() {
    let (mut client, _info) = Client::connect(vec![
        Message::RoomInfo(room_info()),
        Message::Print("kept".to_string()),
    ])
    .unwrap();
    client.accept_batch(vec![Message::RoomUpdate]);
    let (_sender, mut receiver) = client.split();
    assert!(matches!(receiver.recv(), Some(Message::Print(t)) if t == "kept"));
    assert!(matches!(receiver.recv(), Some(Message::RoomUpdate)));
    assert!(receiver.recv().is_none());
    receiver.accept_batch(vec![Message::Bounced]);
    assert!(matches!(receiver.recv(), Some(Message::Bounced)));
}

#[test]
fn expected_reply_kinds_match_the_protocol() {
    assert_eq!(expected_reply_kind(&ClientMessage::Sync), Some(MessageKind::ReceivedItems));
    assert_eq!(
        expected_reply_kind(&ClientMessage::GetDataPackage(vec![])),
        Some(MessageKind::DataPackage)
    );
    assert_eq!(
        expected_reply_kind(&ClientMessage::LocationScouts(vec![1], 0)),
        Some(MessageKind::LocationInfo)
    );
    assert_eq!(expected_reply_kind(&ClientMessage::Get(vec![])), Some(MessageKind::Retrieved));
    assert_eq!(
        expected_reply_kind(&ClientMessage::SetValue {
            key: "k".to_string(),
            default: "0".to_string(),
            want_reply: true,
        }),
        Some(MessageKind::SetReply)
    );
    assert_eq!(expected_reply_kind(&ClientMessage::LocationChecks(vec![1])), None);
    assert_eq!(expected_reply_kind(&ClientMessage::Say("hi".to_string())), None);
    assert_eq!(expected_reply_kind(&ClientMessage::StatusUpdate(30)), None);
}

#[test]
fn sender_builds_fire_and_forget_requests() {
    let (mut client, _info) = Client::connect(vec![Message::RoomInfo(room_info())]).unwrap();
    client.accept_batch(vec![Message::RoomUpdate]);
    let (sender, mut receiver) = client.split();
    assert!(matches!(sender.say("gg".to_string()), ClientMessage::Say(t) if t == "gg"));
    assert!(matches!(
        sender.location_checks(vec![5, 6]),
        ClientMessage::LocationChecks(ids) if ids == vec![5, 6]
    ));
    assert!(matches!(sender.status_update(30), ClientMessage::StatusUpdate(30)));
    assert!(matches!(
        sender.bounce(vec![], vec![], vec![], "null".to_string()),
        ClientMessage::Bounce { .. }
    ));
    // The receive half still drains independently.
    assert!(matches!(receiver.recv(), Some(Message::RoomUpdate)));
}
