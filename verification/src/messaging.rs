//! The chat service's user information: a user's record becomes their name,
//! picture, rooms and friends; room and friend records become the messages
//! the client shows; a friend request becomes the parameters of its record.

use crate::attribute::{list_elements, string_text, text_attr, AttrValue, Item};
use crate::dynamo::{element_text, keyed_list_params, keyed_texts, list_attr, readable_list, BatchResponse};
use crate::numeric::{decimal, lemma_decimal_round_trip, parse_u64, parsed_u64};
use vstd::prelude::*;

verus! {

/// A chat room as the client sees it.
pub struct Room {
    pub room_id: u64,
    pub room_name: String,
    pub room_pfp: String,
}

/// A friend as the client sees them.
pub struct Friend {
    pub user_id: String,
    pub user_name: String,
    pub user_pfp: String,
}

/// A user's friends and rooms.
pub struct UserListResponse {
    pub friends: Vec<Friend>,
    pub rooms: Vec<Room>,
}

/// The answer to a request for a user's information.
pub struct UserInfoResponse {
    pub user_name: String,
    pub user_pfp: String,
    pub user_data: Option<UserListResponse>,
}

/// A request of one user to befriend another.
pub struct FriendRequest {
    pub sender_user_id: String,
    pub receiver_user_id: String,
    pub message: String,
    pub date: String,
}

/// The stored record of a room has a numeric id (as decimal text), a name
/// and a picture, all as strings.
pub open spec fn is_room_record(item: Map<Seq<char>, AttrValue>) -> bool {
    &&& text_attr(item, "roomId"@) is Some
    &&& parsed_u64(text_attr(item, "roomId"@)->0) is Some
    &&& text_attr(item, "roomName"@) is Some
    &&& text_attr(item, "roomPfp"@) is Some
}

/// `room` is the message for the room record `item`.
pub open spec fn room_of_record(room: Room, item: Map<Seq<char>, AttrValue>) -> bool {
    &&& parsed_u64(text_attr(item, "roomId"@)->0) == Some(room.room_id)
    &&& text_attr(item, "roomName"@) == Some(room.room_name@)
    &&& text_attr(item, "roomPfp"@) == Some(room.room_pfp@)
}

/// The stored record of a user, read as a friend, has an id, a name and a
/// picture, all as strings.
pub open spec fn is_friend_record(item: Map<Seq<char>, AttrValue>) -> bool {
    &&& text_attr(item, "userId"@) is Some
    &&& text_attr(item, "userName"@) is Some
    &&& text_attr(item, "userPfp"@) is Some
}

/// `friend` is the message for the user record `item`.
pub open spec fn friend_of_record(friend: Friend, item: Map<Seq<char>, AttrValue>) -> bool {
    &&& text_attr(item, "userId"@) == Some(friend.user_id@)
    &&& text_attr(item, "userName"@) == Some(friend.user_name@)
    &&& text_attr(item, "userPfp"@) == Some(friend.user_pfp@)
}

impl Room {
    /// Whether `item` is a room record that `convert_to_message` accepts.
    pub fn is_record(item: &Item) -> (r: bool)
        ensures
            r == is_room_record(item@),
    {
        let id = match item.text(&String::from_str("roomId")) {
            Some(t) => t,
            None => {
                return false;
            },
        };
        parse_u64(id.as_str()).is_some() && item.text(&String::from_str("roomName")).is_some()
            && item.text(&String::from_str("roomPfp")).is_some()
    }

    /// The room of a room record: its id parsed as a `u64`, its name and its
    /// picture.
    pub fn convert_to_message(to_convert: &Item) -> (r: Room)
        requires
            is_room_record(to_convert@),
        ensures
            room_of_record(r, to_convert@),
    {
        let id_text = to_convert.text(&String::from_str("roomId")).unwrap();
        let room_id = parse_u64(id_text.as_str()).unwrap();
        let room_name = to_convert.text(&String::from_str("roomName")).unwrap().clone();
        let room_pfp = to_convert.text(&String::from_str("roomPfp")).unwrap().clone();
        Room { room_id, room_name, room_pfp }
    }
}

impl Friend {
    /// Whether `item` is a user record that `convert_to_message` accepts.
    pub fn is_record(item: &Item) -> (r: bool)
        ensures
            r == is_friend_record(item@),
    {
        item.text(&String::from_str("userId")).is_some() && item.text(
            &String::from_str("userName"),
        ).is_some() && item.text(&String::from_str("userPfp")).is_some()
    }

    /// The friend of a user record: its id, name and picture.
    pub fn convert_to_message(to_convert: &Item) -> (r: Friend)
        requires
            is_friend_record(to_convert@),
        ensures
            friend_of_record(r, to_convert@),
    {
        let user_id = to_convert.text(&String::from_str("userId")).unwrap().clone();
        let user_name = to_convert.text(&String::from_str("userName")).unwrap().clone();
        let user_pfp = to_convert.text(&String::from_str("userPfp")).unwrap().clone();
        Friend { user_id, user_name, user_pfp }
    }
}

/// The rows read for the query keys `"room"` and `"user"` are all room
/// records and user records.
pub open spec fn is_user_list_tables(tables: Map<Seq<char>, Vec<Item>>) -> bool {
    &&& tables.contains_key("room"@)
    &&& tables.contains_key("user"@)
    &&& forall|i: int|
        0 <= i < tables["room"@]@.len() ==> is_room_record(#[trigger] tables["room"@]@[i]@)
    &&& forall|i: int|
        0 <= i < tables["user"@]@.len() ==> is_friend_record(#[trigger] tables["user"@]@[i]@)
}

/// `r` lists the rooms and friends of those rows, in order.
pub open spec fn user_list_of_tables(r: UserListResponse, tables: Map<Seq<char>, Vec<Item>>) -> bool {
    &&& r.rooms@.len() == tables["room"@]@.len()
    &&& forall|i: int|
        0 <= i < r.rooms@.len() ==> room_of_record(#[trigger] r.rooms@[i], tables["room"@]@[i]@)
    &&& r.friends@.len() == tables["user"@]@.len()
    &&& forall|i: int|
        0 <= i < r.friends@.len() ==> friend_of_record(
            #[trigger] r.friends@[i],
            tables["user"@]@[i]@,
        )
}

fn rooms_of_rows(rows: &Vec<Item>) -> (r: Option<Vec<Room>>)
    ensures
        r is Some <==> forall|i: int| 0 <= i < rows@.len() ==> is_room_record(#[trigger] rows@[i]@),
        r matches Some(rooms) ==> rooms@.len() == rows@.len() && forall|i: int|
            0 <= i < rooms@.len() ==> room_of_record(#[trigger] rooms@[i], rows@[i]@),
{
    let mut rooms: Vec<Room> = Vec::new();
    let mut i: usize = 0;
    while i < rows.len()
        invariant
            i <= rows@.len(),
            rooms@.len() == i,
            forall|j: int| 0 <= j < i ==> is_room_record(#[trigger] rows@[j]@),
            forall|j: int| 0 <= j < i ==> room_of_record(#[trigger] rooms@[j], rows@[j]@),
        decreases rows@.len() - i,
    {
        if !Room::is_record(&rows[i]) {
            return None;
        }
        rooms.push(Room::convert_to_message(&rows[i]));
        i = i + 1;
    }
    Some(rooms)
}

fn friends_of_rows(rows: &Vec<Item>) -> (r: Option<Vec<Friend>>)
    ensures
        r is Some <==> forall|i: int| 0 <= i < rows@.len() ==> is_friend_record(#[trigger] rows@[i]@),
        r matches Some(friends) ==> friends@.len() == rows@.len() && forall|i: int|
            0 <= i < friends@.len() ==> friend_of_record(#[trigger] friends@[i], rows@[i]@),
{
    let mut friends: Vec<Friend> = Vec::new();
    let mut i: usize = 0;
    while i < rows.len()
        invariant
            i <= rows@.len(),
            friends@.len() == i,
            forall|j: int| 0 <= j < i ==> is_friend_record(#[trigger] rows@[j]@),
            forall|j: int| 0 <= j < i ==> friend_of_record(#[trigger] friends@[j], rows@[j]@),
        decreases rows@.len() - i,
    {
        if !Friend::is_record(&rows[i]) {
            return None;
        }
        friends.push(Friend::convert_to_message(&rows[i]));
        i = i + 1;
    }
    Some(friends)
}

impl UserListResponse {
    /// The rooms and friends read for the query keys `"room"` and `"user"`,
    /// or `None` where a table or a field that a message needs is missing.
    pub fn from_tables(tables: &BatchResponse) -> (r: Option<UserListResponse>)
        ensures
            r is Some <==> is_user_list_tables(tables@),
            r matches Some(list) ==> user_list_of_tables(list, tables@),
    {
        let room_rows = match tables.rows(&String::from_str("room")) {
            Some(rows) => rows,
            None => {
                return None;
            },
        };
        let user_rows = match tables.rows(&String::from_str("user")) {
            Some(rows) => rows,
            None => {
                return None;
            },
        };
        let rooms = match rooms_of_rows(room_rows) {
            Some(rooms) => rooms,
            None => {
                return None;
            },
        };
        let friends = match friends_of_rows(user_rows) {
            Some(friends) => friends,
            None => {
                return None;
            },
        };
        Some(UserListResponse { friends, rooms })
    }

    /// The rooms and friends read for the query keys `"room"` and `"user"`.
    pub fn convert_to_message(to_convert: &BatchResponse) -> (r: UserListResponse)
        requires
            is_user_list_tables(to_convert@),
        ensures
            user_list_of_tables(r, to_convert@),
    {
        UserListResponse::from_tables(to_convert).unwrap()
    }
}

impl FriendRequest {
    /// The parameters of the stored record of a friend request: sender,
    /// receiver, message and date, in that order.
    pub fn convert_to_message(to_convert: &FriendRequest) -> (r: Vec<(String, String)>)
        ensures
            r@.len() == 4,
            r@[0].0@ == "senderId"@,
            r@[0].1@ == to_convert.sender_user_id@,
            r@[1].0@ == "receiverId"@,
            r@[1].1@ == to_convert.receiver_user_id@,
            r@[2].0@ == "message"@,
            r@[2].1@ == to_convert.message@,
            r@[3].0@ == "date"@,
            r@[3].1@ == to_convert.date@,
    {
        let mut r: Vec<(String, String)> = Vec::new();
        r.push((String::from_str("senderId"), to_convert.sender_user_id.clone()));
        r.push((String::from_str("receiverId"), to_convert.receiver_user_id.clone()));
        r.push((String::from_str("message"), to_convert.message.clone()));
        r.push((String::from_str("date"), to_convert.date.clone()));
        r
    }
}

/// The parameters `(primary_key, text)` for each string in the list attribute
/// `param_name` of `map`, in order.
pub fn prepare_dynamo_params(map: &Item, param_name: &str, primary_key: &str) -> (r: Vec<
    (String, String),
>)
    requires
        readable_list(map@, param_name@, false),
    ensures
        keyed_texts(r@, primary_key@, list_attr(map@, param_name@), false),
{
    let name = String::from_str(param_name);
    let key = String::from_str(primary_key);
    keyed_list_params(map, &name, &key, false).unwrap()
}

/// The parameters that look a user up by id: `[("userId", user_id)]`.
pub fn user_lookup_params(user_id: String) -> (r: Vec<(String, String)>)
    ensures
        r@.len() == 1,
        r@[0].0@ == "userId"@,
        r@[0].1@ == user_id@,
{
    let mut r: Vec<(String, String)> = Vec::new();
    r.push((String::from_str("userId"), user_id));
    r
}

/// What the service reads from a user's record: name, picture, and the keys
/// of the user's rooms and friends.
pub struct UserProfile {
    pub user_name: String,
    pub user_pfp: String,
    pub rooms: Vec<(String, String)>,
    pub friends: Vec<(String, String)>,
}

/// The response holds at least one row for the user table.
pub open spec fn has_first_row(tables: Map<Seq<char>, Vec<Item>>, table: Seq<char>) -> bool {
    tables.contains_key(table) && tables[table]@.len() > 0
}

/// The first row of the user table.
pub open spec fn first_row(tables: Map<Seq<char>, Vec<Item>>, table: Seq<char>) -> Map<
    Seq<char>,
    AttrValue,
> {
    tables[table]@[0]@
}

/// A user's record has a name and a picture as strings, and lists of strings
/// for its rooms and friends.
pub open spec fn is_user_record(item: Map<Seq<char>, AttrValue>) -> bool {
    &&& text_attr(item, "userName"@) is Some
    &&& text_attr(item, "profilePic"@) is Some
    &&& readable_list(item, "rooms"@, false)
    &&& readable_list(item, "friends"@, false)
}

/// `p` is what the service reads from the user record `item`: the rooms
/// keyed by `"roomId"`, the friends by `"userId"`.
pub open spec fn profile_of_record(p: UserProfile, item: Map<Seq<char>, AttrValue>) -> bool {
    &&& text_attr(item, "userName"@) == Some(p.user_name@)
    &&& text_attr(item, "profilePic"@) == Some(p.user_pfp@)
    &&& keyed_texts(p.rooms@, "roomId"@, list_attr(item, "rooms"@), false)
    &&& keyed_texts(p.friends@, "userId"@, list_attr(item, "friends"@), false)
}

/// The profile in the first row read from the user table, or `None` where
/// that row, or a field of it, is missing.
pub fn user_profile(response: &BatchResponse, user_table: &String) -> (r: Option<UserProfile>)
    ensures
        r is Some <==> has_first_row(response@, user_table@) && is_user_record(
            first_row(response@, user_table@),
        ),
        r matches Some(p) ==> profile_of_record(p, first_row(response@, user_table@)),
{
    let rows = match response.rows(user_table) {
        Some(rows) => rows,
        None => {
            return None;
        },
    };
    if rows.len() == 0 {
        return None;
    }
    let user_info = &rows[0];
    let user_name = match user_info.text(&String::from_str("userName")) {
        Some(t) => t.clone(),
        None => {
            return None;
        },
    };
    let user_pfp = match user_info.text(&String::from_str("profilePic")) {
        Some(t) => t.clone(),
        None => {
            return None;
        },
    };
    let rooms = match keyed_list_params(
        user_info,
        &String::from_str("rooms"),
        &String::from_str("roomId"),
        false,
    ) {
        Some(v) => v,
        None => {
            return None;
        },
    };
    let friends = match keyed_list_params(
        user_info,
        &String::from_str("friends"),
        &String::from_str("userId"),
        false,
    ) {
        Some(v) => v,
        None => {
            return None;
        },
    };
    Some(UserProfile { user_name, user_pfp, rooms, friends })
}

/// The batch reads that complete a user's information: their rooms under
/// the query key `"room"`, their friends under `"user"`.
pub fn user_info_query_plan(rooms: Vec<(String, String)>, friends: Vec<(String, String)>) -> (r: Vec<
    (String, Vec<(String, String)>),
>)
    ensures
        r@.len() == 2,
        r@[0].0@ == "room"@,
        r@[0].1 == rooms,
        r@[1].0@ == "user"@,
        r@[1].1 == friends,
{
    let mut r: Vec<(String, Vec<(String, String)>)> = Vec::new();
    r.push((String::from_str("room"), rooms));
    r.push((String::from_str("user"), friends));
    r
}

/// A room record whose number was written as decimal text, with any name and
/// picture, is read as a room carrying that number, name and picture,
/// whatever the number.
pub proof fn lemma_room_number_read_back(
    item: Map<Seq<char>, AttrValue>,
    n: u64,
    name: Seq<char>,
    pfp: Seq<char>,
    room: Room,
)
    requires
        text_attr(item, "roomId"@) == Some(decimal(n as nat)),
        text_attr(item, "roomName"@) == Some(name),
        text_attr(item, "roomPfp"@) == Some(pfp),
    ensures
        is_room_record(item),
        room_of_record(room, item) ==> room.room_id == n && room.room_name@ == name
            && room.room_pfp@ == pfp,
{
    lemma_decimal_round_trip(n);
}

/// A row is read as a room exactly when its `roomId` is a string that reads
/// as a `u64` and its `roomName` and `roomPfp` are strings, whatever their
/// texts.
pub proof fn lemma_room_record_exactly(item: Map<Seq<char>, AttrValue>)
    ensures
        is_room_record(item) <==> {
            &&& text_attr(item, "roomId"@) is Some
            &&& parsed_u64(text_attr(item, "roomId"@)->0) is Some
            &&& text_attr(item, "roomName"@) is Some
            &&& text_attr(item, "roomPfp"@) is Some
        },
{
}

/// A row is read as a friend exactly when its `userId`, `userName` and
/// `userPfp` are strings, whatever their texts, and the friend carries those
/// three texts.
pub proof fn lemma_friend_record_exactly(
    item: Map<Seq<char>, AttrValue>,
    id: Seq<char>,
    name: Seq<char>,
    pfp: Seq<char>,
    friend: Friend,
)
    ensures
        is_friend_record(item) <==> {
            &&& text_attr(item, "userId"@) is Some
            &&& text_attr(item, "userName"@) is Some
            &&& text_attr(item, "userPfp"@) is Some
        },
        text_attr(item, "userId"@) == Some(id) && text_attr(item, "userName"@) == Some(name)
            && text_attr(item, "userPfp"@) == Some(pfp) ==> is_friend_record(item) && (
        friend_of_record(friend, item) ==> friend.user_id@ == id && friend.user_name@ == name
            && friend.user_pfp@ == pfp),
{
}

/// The friends and rooms are listed exactly when both the `"room"` and the
/// `"user"` rows were read and every row is read as a room or a friend
/// respectively; the lists follow the rows, one entry per row.
pub proof fn lemma_user_list_exactly(tables: Map<Seq<char>, Vec<Item>>, list: UserListResponse)
    ensures
        is_user_list_tables(tables) <==> {
            &&& tables.contains_key("room"@)
            &&& tables.contains_key("user"@)
            &&& forall|i: int|
                0 <= i < tables["room"@]@.len() ==> is_room_record(
                    #[trigger] tables["room"@]@[i]@,
                )
            &&& forall|i: int|
                0 <= i < tables["user"@]@.len() ==> is_friend_record(
                    #[trigger] tables["user"@]@[i]@,
                )
        },
        user_list_of_tables(list, tables) ==> list.rooms@.len() == tables["room"@]@.len()
            && list.friends@.len() == tables["user"@]@.len(),
{
}

/// A user record is one whose `userName` and `profilePic` are strings and
/// whose `rooms` and `friends` are lists of strings, of any length; the
/// profile then holds one `("roomId", text)` per room and one
/// `("userId", text)` per friend, in the lists' order.
pub proof fn lemma_user_record_exactly(item: Map<Seq<char>, AttrValue>, p: UserProfile)
    ensures
        is_user_record(item) <==> {
            &&& text_attr(item, "userName"@) is Some
            &&& text_attr(item, "profilePic"@) is Some
            &&& item.contains_key("rooms"@)
            &&& list_elements(item["rooms"@]) is Some
            &&& forall|i: int|
                0 <= i < list_elements(item["rooms"@])->0.len() ==> (#[trigger] list_elements(
                    item["rooms"@],
                )->0[i]) is S
            &&& item.contains_key("friends"@)
            &&& list_elements(item["friends"@]) is Some
            &&& forall|i: int|
                0 <= i < list_elements(item["friends"@])->0.len() ==> (#[trigger] list_elements(
                    item["friends"@],
                )->0[i]) is S
        },
        profile_of_record(p, item) ==> {
            &&& text_attr(item, "userName"@) == Some(p.user_name@)
            &&& text_attr(item, "profilePic"@) == Some(p.user_pfp@)
            &&& p.rooms@.len() == list_elements(item["rooms"@])->0.len()
            &&& p.friends@.len() == list_elements(item["friends"@])->0.len()
            &&& forall|i: int|
                0 <= i < p.rooms@.len() ==> (#[trigger] p.rooms@[i]).0@ == "roomId"@
                    && string_text(list_elements(item["rooms"@])->0[i]) == Some(p.rooms@[i].1@)
            &&& forall|i: int|
                0 <= i < p.friends@.len() ==> (#[trigger] p.friends@[i]).0@ == "userId"@
                    && string_text(list_elements(item["friends"@])->0[i]) == Some(
                    p.friends@[i].1@,
                )
        },
{
    if item.contains_key("rooms"@) && list_elements(item["rooms"@]) is Some {
        let es = list_elements(item["rooms"@])->0;
        assert((forall|i: int| 0 <= i < es.len() ==> (#[trigger] es[i]) is S) <==> (forall|i: int|
            0 <= i < es.len() ==> (#[trigger] element_text(es[i], false)) is Some)) by {
            if forall|i: int| 0 <= i < es.len() ==> (#[trigger] es[i]) is S {
                assert forall|i: int| 0 <= i < es.len() implies (#[trigger] element_text(
                    es[i],
                    false,
                )) is Some by {
                    assert(es[i] is S);
                }
            }
            if forall|i: int| 0 <= i < es.len() ==> (#[trigger] element_text(es[i], false)) is Some {
                assert forall|i: int| 0 <= i < es.len() implies (#[trigger] es[i]) is S by {
                    assert(element_text(es[i], false) is Some);
                }
            }
        }
    }
    if item.contains_key("friends"@) && list_elements(item["friends"@]) is Some {
        let es = list_elements(item["friends"@])->0;
        assert((forall|i: int| 0 <= i < es.len() ==> (#[trigger] es[i]) is S) <==> (forall|i: int|
            0 <= i < es.len() ==> (#[trigger] element_text(es[i], false)) is Some)) by {
            if forall|i: int| 0 <= i < es.len() ==> (#[trigger] es[i]) is S {
                assert forall|i: int| 0 <= i < es.len() implies (#[trigger] element_text(
                    es[i],
                    false,
                )) is Some by {
                    assert(es[i] is S);
                }
            }
            if forall|i: int| 0 <= i < es.len() ==> (#[trigger] element_text(es[i], false)) is Some {
                assert forall|i: int| 0 <= i < es.len() implies (#[trigger] es[i]) is S by {
                    assert(element_text(es[i], false) is Some);
                }
            }
        }
    }
}

} // verus!
