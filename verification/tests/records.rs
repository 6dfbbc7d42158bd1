use grpc_messaging::attribute::{AttrValue, Item};
use grpc_messaging::dynamo::{batch_keys, item_from_params, keyed_list_params, table_env_var, BatchResponse};
use grpc_messaging::messaging::{
    prepare_dynamo_params, user_info_query_plan, user_lookup_params, user_profile, Friend,
    FriendRequest, Room, UserListResponse,
};

fn s(text: &str) -> String {
    String::from(text)
}

fn pairs(items: &[(&str, &str)]) -> Vec<(String, String)> {
    items.iter().map(|(k, v)| (s(k), s(v))).collect()
}

fn item(fields: Vec<(&str, AttrValue)>) -> Item {
    Item { fields: fields.into_iter().map(|(k, v)| (s(k), v)).collect() }
}

fn text(v: &str) -> AttrValue {
    AttrValue::S(s(v))
}

fn text_of(a: Option<&AttrValue>) -> Option<String> {
    match a {
        Some(AttrValue::S(t)) => Some(t.clone()),
        _ => None,
    }
}

#[test]
fn attr_value_accessors() {
    let a = text("x");
    let n = AttrValue::N(s("12"));
    let l = AttrValue::L(vec![text("y")]);
    assert_eq!(a.as_s().cloned(), Some(s("x")));
    assert!(a.as_n().is_none());
    assert_eq!(n.as_n().cloned(), Some(s("12")));
    assert!(n.as_s().is_none());
    assert_eq!(l.as_l().map(|v| v.len()), Some(1));
    assert!(AttrValue::Other.as_s().is_none());
    assert!(AttrValue::Other.as_l().is_none());
}

#[test]
fn item_get_last_entry_wins() {
    let mut it = item(vec![("a", text("1")), ("b", text("2")), ("a", text("3"))]);
    assert_eq!(text_of(it.get(&s("a"))), Some(s("3")));
    assert_eq!(text_of(it.get(&s("b"))), Some(s("2")));
    assert!(it.get(&s("c")).is_none());
    it.insert(s("b"), text("4"));
    assert_eq!(text_of(it.get(&s("b"))), Some(s("4")));
    assert_eq!(text_of(it.get(&s("a"))), Some(s("3")));
    it.insert(s("n"), AttrValue::N(s("5")));
    assert!(it.text(&s("n")).is_none());
    assert_eq!(it.text(&s("a")).cloned(), Some(s("3")));
    assert!(Item::new().get(&s("a")).is_none());
}

#[test]
fn batch_keys_one_per_param() {
    let keys = batch_keys(&pairs(&[("roomId", "1"), ("roomId", "2")]));
    assert_eq!(keys.len(), 2);
    assert_eq!(keys[0].fields.len(), 1);
    assert_eq!(keys[0].fields[0].0, s("roomId"));
    assert_eq!(text_of(Some(&keys[1].fields[0].1)), Some(s("2")));
    assert!(batch_keys(&Vec::new()).is_empty());
}

#[test]
fn put_item_holds_last_value_of_each_name() {
    let it = item_from_params(&pairs(&[("userId", "u1"), ("message", "hi"), ("userId", "u2")]));
    assert_eq!(it.fields.len(), 3);
    assert_eq!(text_of(it.get(&s("userId"))), Some(s("u2")));
    assert_eq!(text_of(it.get(&s("message"))), Some(s("hi")));
}

#[test]
fn batch_response_rows() {
    let mut resp = BatchResponse::new();
    assert!(resp.rows(&s("users")).is_none());
    resp.insert(s("users"), vec![Item::new()]);
    resp.insert(s("rooms"), vec![]);
    assert_eq!(resp.rows(&s("users")).map(|r| r.len()), Some(1));
    assert_eq!(resp.rows(&s("rooms")).map(|r| r.len()), Some(0));
    resp.insert(s("rooms"), vec![Item::new(), Item::new()]);
    assert_eq!(resp.rows(&s("rooms")).map(|r| r.len()), Some(2));
    assert_eq!(resp.take_rows(&s("rooms")).map(|r| r.len()), Some(2));
}

#[test]
fn batch_response_take_missing_table() {
    let resp = BatchResponse::new();
    assert!(resp.take_rows(&s("rooms")).is_none());
}

#[test]
fn table_env_var_names() {
    assert_eq!(table_env_var(&s("room")), s("ROOM_TABLE"));
    assert_eq!(table_env_var(&s("user")), s("USER_TABLE"));
    assert_eq!(table_env_var(&s("friend_request")), s("FRIEND_REQUEST_TABLE"));
}

#[test]
fn keyed_list_params_strings_and_numbers() {
    let it = item(vec![
        ("rooms", AttrValue::L(vec![AttrValue::N(s("7")), AttrValue::N(s("9"))])),
        ("friends", AttrValue::L(vec![text("f1"), AttrValue::N(s("2"))])),
    ]);
    let rooms = keyed_list_params(&it, &s("rooms"), &s("roomId"), true).unwrap();
    assert_eq!(rooms, pairs(&[("roomId", "7"), ("roomId", "9")]));
    assert!(keyed_list_params(&it, &s("rooms"), &s("roomId"), false).is_none());
    assert!(keyed_list_params(&it, &s("friends"), &s("userId"), false).is_none());
    assert!(keyed_list_params(&it, &s("missing"), &s("userId"), false).is_none());
    let flat = item(vec![("rooms", text("1"))]);
    assert!(keyed_list_params(&flat, &s("rooms"), &s("roomId"), false).is_none());
}

#[test]
fn prepare_dynamo_params_pairs_key_with_each_string() {
    let it = item(vec![("friends", AttrValue::L(vec![text("a"), text("b"), text("c")]))]);
    assert_eq!(
        prepare_dynamo_params(&it, "friends", "userId"),
        pairs(&[("userId", "a"), ("userId", "b"), ("userId", "c")])
    );
    let empty = item(vec![("rooms", AttrValue::L(vec![]))]);
    assert!(prepare_dynamo_params(&empty, "rooms", "roomId").is_empty());
}

fn room_item(id: &str) -> Item {
    item(vec![("roomId", text(id)), ("roomName", text("general")), ("roomPfp", text("pic.png"))])
}

#[test]
fn room_from_record() {
    let r = Room::convert_to_message(&room_item("42"));
    assert_eq!(r.room_id, 42);
    assert_eq!(r.room_name, s("general"));
    assert_eq!(r.room_pfp, s("pic.png"));
    assert!(Room::is_record(&room_item("+7")));
    assert_eq!(Room::convert_to_message(&room_item("+7")).room_id, 7);
}

#[test]
fn room_record_rejections() {
    assert!(!Room::is_record(&room_item("x1")));
    assert!(!Room::is_record(&room_item("-1")));
    assert!(!Room::is_record(&room_item("18446744073709551616")));
    assert!(!Room::is_record(&item(vec![("roomId", AttrValue::N(s("1"))), ("roomName", text("a")), ("roomPfp", text("b"))])));
    assert!(!Room::is_record(&item(vec![("roomId", text("1")), ("roomName", text("a"))])));
}

fn friend_item(id: &str) -> Item {
    item(vec![("userId", text(id)), ("userName", text("Ann")), ("userPfp", text("ann.png"))])
}

#[test]
fn friend_from_record() {
    let f = Friend::convert_to_message(&friend_item("u9"));
    assert_eq!(f.user_id, s("u9"));
    assert_eq!(f.user_name, s("Ann"));
    assert_eq!(f.user_pfp, s("ann.png"));
    assert!(!Friend::is_record(&item(vec![("userId", text("u9")), ("userName", text("Ann"))])));
}

#[test]
fn user_list_from_tables() {
    let mut tables = BatchResponse::new();
    tables.insert(s("room"), vec![room_item("1"), room_item("2")]);
    tables.insert(s("user"), vec![friend_item("u1")]);
    let list = UserListResponse::convert_to_message(&tables);
    assert_eq!(list.rooms.len(), 2);
    assert_eq!(list.rooms[1].room_id, 2);
    assert_eq!(list.friends.len(), 1);
    assert_eq!(list.friends[0].user_id, s("u1"));
}

#[test]
fn user_list_missing_table_or_bad_row() {
    let mut only_rooms = BatchResponse::new();
    only_rooms.insert(s("room"), vec![room_item("1")]);
    assert!(UserListResponse::from_tables(&only_rooms).is_none());
    let mut bad = BatchResponse::new();
    bad.insert(s("room"), vec![room_item("one")]);
    bad.insert(s("user"), vec![]);
    assert!(UserListResponse::from_tables(&bad).is_none());
}

#[test]
fn friend_request_params() {
    let req = FriendRequest {
        sender_user_id: s("test_sender_12"),
        receiver_user_id: s("test_sender_18"),
        message: s("test message"),
        date: s("1700000000"),
    };
    assert_eq!(
        FriendRequest::convert_to_message(&req),
        pairs(&[
            ("senderId", "test_sender_12"),
            ("receiverId", "test_sender_18"),
            ("message", "test message"),
            ("date", "1700000000"),
        ])
    );
}

#[test]
fn user_lookup_and_plan() {
    assert_eq!(user_lookup_params(s("test")), pairs(&[("userId", "test")]));
    let plan = user_info_query_plan(pairs(&[("roomId", "1")]), pairs(&[("userId", "u")]));
    assert_eq!(plan.len(), 2);
    assert_eq!(plan[0].0, s("room"));
    assert_eq!(plan[0].1, pairs(&[("roomId", "1")]));
    assert_eq!(plan[1].0, s("user"));
    assert_eq!(plan[1].1, pairs(&[("userId", "u")]));
}

fn user_record() -> Item {
    item(vec![
        ("userId", text("test")),
        ("userName", text("Tess")),
        ("profilePic", text("tess.png")),
        ("rooms", AttrValue::L(vec![text("1"), text("2")])),
        ("friends", AttrValue::L(vec![text("u2")])),
    ])
}

#[test]
fn user_profile_from_first_row() {
    let mut resp = BatchResponse::new();
    resp.insert(s("Users"), vec![user_record(), Item::new()]);
    let p = user_profile(&resp, &s("Users")).unwrap();
    assert_eq!(p.user_name, s("Tess"));
    assert_eq!(p.user_pfp, s("tess.png"));
    assert_eq!(p.rooms, pairs(&[("roomId", "1"), ("roomId", "2")]));
    assert_eq!(p.friends, pairs(&[("userId", "u2")]));
}

#[test]
fn user_profile_missing_parts() {
    let mut empty_rows = BatchResponse::new();
    empty_rows.insert(s("Users"), vec![]);
    assert!(user_profile(&empty_rows, &s("Users")).is_none());
    assert!(user_profile(&BatchResponse::new(), &s("Users")).is_none());
    let mut no_pic = BatchResponse::new();
    no_pic.insert(
        s("Users"),
        vec![item(vec![
            ("userName", text("Tess")),
            ("rooms", AttrValue::L(vec![])),
            ("friends", AttrValue::L(vec![])),
        ])],
    );
    assert!(user_profile(&no_pic, &s("Users")).is_none());
}
