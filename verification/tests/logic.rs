use grpc_messaging::attribute::{AttrValue, Item};
use grpc_messaging::dynamo::BatchResponse;
use grpc_messaging::friendship::{
    friend_request_item, friend_request_record, friend_request_written, request_pair, PutAttempt,
};
use grpc_messaging::messaging::FriendRequest;
use grpc_messaging::numeric::{decimal_string, parse_u64};
use grpc_messaging::room_service::{user_room_params, ChatMessage, Room, RoomChannels, UserRoomResponse};
use grpc_messaging::socket::{message_entry_params, new_message_params};
use grpc_messaging::text::{precedes, sorted_pair};

fn s(text: &str) -> String {
    String::from(text)
}

fn pairs(items: &[(&str, &str)]) -> Vec<(String, String)> {
    items.iter().map(|(k, v)| (s(k), s(v))).collect()
}

fn item(fields: Vec<(&str, AttrValue)>) -> Item {
    Item { fields: fields.into_iter().map(|(k, v)| (s(k), v)).collect() }
}

fn text(v: &str) -> AttrValue {
    AttrValue::S(s(v))
}

#[test]
fn parse_u64_accepts_what_std_accepts() {
    assert_eq!(parse_u64("0"), Some(0));
    assert_eq!(parse_u64("42"), Some(42));
    assert_eq!(parse_u64("+42"), Some(42));
    assert_eq!(parse_u64("007"), Some(7));
    assert_eq!(parse_u64("18446744073709551615"), Some(u64::MAX));
    for t in ["42", "+42", "007", "18446744073709551615", "0"] {
        assert_eq!(parse_u64(t), t.parse::<u64>().ok());
    }
}

#[test]
fn parse_u64_rejects_what_std_rejects() {
    for t in ["", "+", "-1", "-0", "4a", " 1", "1 ", "++1", "18446744073709551616", "99999999999999999999", "\u{ff11}"] {
        assert_eq!(parse_u64(t), None, "{}", t);
        assert!(t.parse::<u64>().is_err());
    }
}

#[test]
fn decimal_string_matches_to_string() {
    for n in [0u64, 7, 10, 120, 9999, 1234567890, u64::MAX] {
        assert_eq!(decimal_string(n), n.to_string());
    }
}

#[test]
fn decimal_round_trip() {
    for n in [0u64, 1, 10, 305, u64::MAX - 1, u64::MAX] {
        assert_eq!(parse_u64(&decimal_string(n)), Some(n));
    }
}

#[test]
fn precedes_is_string_order() {
    assert!(precedes("ab", "b"));
    assert!(precedes("a", "ab"));
    assert!(!precedes("ab", "ab"));
    assert!(!precedes("b", "ab"));
    assert!(precedes("", "a"));
    assert!(!precedes("", ""));
    assert!(precedes("Z", "a"));
    assert!(precedes("\u{e9}", "\u{4e2d}"));
    for (a, b) in [("test_sender_12", "test_sender_18"), ("x", "X"), ("a\u{e9}", "az"), ("", "")] {
        assert_eq!(precedes(a, b), s(a) < s(b));
    }
}

#[test]
fn sorted_pair_sorts() {
    assert_eq!(sorted_pair(s("b"), s("a")), vec![s("a"), s("b")]);
    assert_eq!(sorted_pair(s("a"), s("b")), vec![s("a"), s("b")]);
    assert_eq!(sorted_pair(s("a"), s("a")), vec![s("a"), s("a")]);
}

#[test]
fn request_pair_is_the_same_both_ways() {
    let ab = pairs(&[("senderId", "alice"), ("receiverId", "bob")]);
    let ba = pairs(&[("senderId", "bob"), ("receiverId", "alice")]);
    assert_eq!(request_pair(&ab), Some(vec![s("alice"), s("bob")]));
    assert_eq!(request_pair(&ab), request_pair(&ba));
    assert_eq!(request_pair(&pairs(&[("senderId", "bob")])), None);
}

fn id_of(it: &Item) -> Option<String> {
    it.text(&s("id")).cloned()
}

#[test]
fn friend_request_record_adds_decimal_id() {
    let params = pairs(&[("senderId", "a"), ("receiverId", "b"), ("message", "hi"), ("date", "1")]);
    let rec = friend_request_record(&params, 1234);
    assert_eq!(id_of(&rec), Some(s("1234")));
    assert_eq!(rec.text(&s("message")).cloned(), Some(s("hi")));
    assert_eq!(rec.text(&s("senderId")).cloned(), Some(s("a")));
    let over = friend_request_record(&pairs(&[("id", "old")]), 5);
    assert_eq!(id_of(&over), Some(s("5")));
}

#[test]
fn friend_request_item_same_id_both_ways() {
    let ab = pairs(&[("senderId", "test_sender_12"), ("receiverId", "test_sender_18"), ("message", "hi"), ("date", "1")]);
    let ba = pairs(&[("senderId", "test_sender_18"), ("receiverId", "test_sender_12"), ("message", "yo"), ("date", "2")]);
    let x = friend_request_item(&ab).unwrap();
    let y = friend_request_item(&ba).unwrap();
    let id = id_of(&x).unwrap();
    assert_eq!(Some(id.clone()), id_of(&y));
    assert!(parse_u64(&id).is_some());
    assert_eq!(x.text(&s("message")).cloned(), Some(s("hi")));
    assert!(friend_request_item(&pairs(&[("senderId", "a"), ("message", "m")])).is_none());
}

#[test]
fn friend_request_outcomes() {
    assert_eq!(friend_request_written::<String>(PutAttempt::Stored { write_units_reported: true }), Ok(true));
    assert_eq!(friend_request_written::<String>(PutAttempt::Stored { write_units_reported: false }), Ok(false));
    assert_eq!(friend_request_written::<String>(PutAttempt::ConditionFailed), Ok(false));
    assert_eq!(friend_request_written(PutAttempt::Failed(s("throttled"))), Err(s("throttled")));
}

#[test]
fn room_service_rooms_from_response() {
    let mut resp = BatchResponse::new();
    resp.insert(
        s("Rooms"),
        vec![
            item(vec![("roomId", text("3")), ("roomName", text("lobby"))]),
            item(vec![("roomId", text("4")), ("roomName", text("games"))]),
        ],
    );
    let rooms = UserRoomResponse::from_response(&resp, &s("Rooms")).unwrap();
    assert_eq!(rooms.rooms.len(), 2);
    assert_eq!(rooms.rooms[0].room_id, 3);
    assert_eq!(rooms.rooms[1].room_name, s("games"));
    assert!(UserRoomResponse::from_response(&resp, &s("Other")).is_none());
    let r = Room::convert_to_message(&item(vec![("roomId", text("+8")), ("roomName", text("x"))]));
    assert_eq!(r.room_id, 8);
    assert!(!Room::is_record(&item(vec![("roomId", AttrValue::N(s("8"))), ("roomName", text("x"))])));
}

#[test]
fn room_service_user_room_numbers() {
    let mut resp = BatchResponse::new();
    resp.insert(
        s("Users"),
        vec![item(vec![("rooms", AttrValue::L(vec![AttrValue::N(s("3")), AttrValue::N(s("4"))]))])],
    );
    assert_eq!(user_room_params(&resp, &s("Users")), Some(pairs(&[("roomId", "3"), ("roomId", "4")])));
    let mut strings = BatchResponse::new();
    strings.insert(s("Users"), vec![item(vec![("rooms", AttrValue::L(vec![text("3")]))])]);
    assert_eq!(user_room_params(&strings, &s("Users")), None);
    let mut none = BatchResponse::new();
    none.insert(s("Users"), vec![]);
    assert_eq!(user_room_params(&none, &s("Users")), None);
}

#[test]
fn chat_message_params() {
    let m = ChatMessage { user_id: s("u"), room_id: s("r"), username: s("name"), message: s("hello") };
    assert_eq!(
        m.message_params(),
        pairs(&[("userId", "u"), ("roomId", "r"), ("username", "name"), ("message", "hello")])
    );
}

#[test]
fn room_channels_start_empty() {
    let channels: RoomChannels<u32> = RoomChannels::new();
    assert!(channels.get(&s("general")).is_none());
}

#[test]
fn socket_message_params() {
    assert_eq!(
        message_entry_params(s("id-1"), s("room"), s("text")),
        pairs(&[("message_id", "id-1"), ("room_id", "room"), ("message", "text"), ("userId", "test"), ("date", "tuesday")])
    );
    let p = new_message_params(s("room"), s("text"));
    assert_eq!(p.len(), 5);
    let id: Vec<char> = p[0].1.chars().collect();
    assert_eq!(id.len(), 36);
    assert_eq!(id[14], '4');
    assert!(matches!(id[19], '8' | '9' | 'a' | 'b'));
    for (i, c) in id.iter().enumerate() {
        if i == 8 || i == 13 || i == 18 || i == 23 {
            assert_eq!(*c, '-');
        } else {
            assert!(c.is_ascii_hexdigit() && !c.is_ascii_uppercase());
        }
    }
    assert_eq!(p[1], (s("room_id"), s("room")));
    assert_eq!(p[2], (s("message"), s("text")));
}

#[test]
fn every_friend_request_gets_a_record() {
    let req = FriendRequest {
        sender_user_id: s("a"),
        receiver_user_id: s("b"),
        message: s("m"),
        date: s("d"),
    };
    let params = FriendRequest::convert_to_message(&req);
    let rec = friend_request_item(&params).unwrap();
    assert_eq!(rec.text(&s("senderId")).cloned(), Some(s("a")));
    assert_eq!(rec.text(&s("receiverId")).cloned(), Some(s("b")));
    assert!(rec.text(&s("id")).is_some());
}
