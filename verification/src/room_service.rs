//! The room service: a user's rooms by number, room records as messages,
//! chat messages as the parameters of their records, and the channels that
//! carry a room's messages to its listeners.

use crate::attribute::{
    entries_map, find_entry, list_elements, number_text, text_attr, AttrValue, Item,
};
use crate::dynamo::{element_text, keyed_list_params, keyed_texts, list_attr, readable_list, BatchResponse};
use crate::messaging::{first_row, has_first_row};
use crate::numeric::{decimal, lemma_decimal_round_trip, parse_u64, parsed_u64};
use vstd::prelude::*;

verus! {

/// A chat room: its number and name.
pub struct Room {
    pub room_id: u64,
    pub room_name: String,
}

/// The rooms of a user.
pub struct UserRoomResponse {
    pub rooms: Vec<Room>,
}

/// A message that a user sends to a room.
pub struct ChatMessage {
    pub user_id: String,
    pub room_id: String,
    pub username: String,
    pub message: String,
}

/// The stored record of a room has a numeric id (as decimal text) and a
/// name, both as strings.
pub open spec fn is_room_record(item: Map<Seq<char>, AttrValue>) -> bool {
    &&& text_attr(item, "roomId"@) is Some
    &&& parsed_u64(text_attr(item, "roomId"@)->0) is Some
    &&& text_attr(item, "roomName"@) is Some
}

/// `room` is the message for the room record `item`.
pub open spec fn room_of_record(room: Room, item: Map<Seq<char>, AttrValue>) -> bool {
    &&& parsed_u64(text_attr(item, "roomId"@)->0) == Some(room.room_id)
    &&& text_attr(item, "roomName"@) == Some(room.room_name@)
}

impl Room {
    /// Whether `item` is a room record that `convert_to_message` accepts.
    pub fn is_record(item: &Item) -> (r: bool)
        ensures
            r == is_room_record(item@),
    {
        let id = match item.text(&String::from_str("roomId")) {
            Some(t) => t,
            None => {
                return false;
            },
        };
        parse_u64(id.as_str()).is_some() && item.text(&String::from_str("roomName")).is_some()
    }

    /// The room of a room record: its id parsed as a `u64`, and its name.
    pub fn convert_to_message(to_convert: &Item) -> (r: Room)
        requires
            is_room_record(to_convert@),
        ensures
            room_of_record(r, to_convert@),
    {
        let id_text = to_convert.text(&String::from_str("roomId")).unwrap();
        let room_id = parse_u64(id_text.as_str()).unwrap();
        let room_name = to_convert.text(&String::from_str("roomName")).unwrap().clone();
        Room { room_id, room_name }
    }
}

/// Every row is a room record.
pub open spec fn all_room_records(rows: Seq<Item>) -> bool {
    forall|i: int| 0 <= i < rows.len() ==> is_room_record(#[trigger] rows[i]@)
}

/// `r` lists the rooms of `rows`, in order.
pub open spec fn rooms_of_rows(r: UserRoomResponse, rows: Seq<Item>) -> bool {
    &&& r.rooms@.len() == rows.len()
    &&& forall|i: int| 0 <= i < rows.len() ==> room_of_record(#[trigger] r.rooms@[i], rows[i]@)
}

impl UserRoomResponse {
    /// The rooms of `rows`, or `None` when one of them is no room record.
    pub fn from_rows(rows: &Vec<Item>) -> (r: Option<UserRoomResponse>)
        ensures
            r is Some <==> all_room_records(rows@),
            r matches Some(resp) ==> rooms_of_rows(resp, rows@),
    {
        let mut rooms: Vec<Room> = Vec::new();
        let mut i: usize = 0;
        while i < rows.len()
            invariant
                i <= rows@.len(),
                rooms@.len() == i,
                forall|j: int| 0 <= j < i ==> is_room_record(#[trigger] rows@[j]@),
                forall|j: int| 0 <= j < i ==> room_of_record(#[trigger] rooms@[j], rows@[j]@),
            decreases rows@.len() - i,
        {
            if !Room::is_record(&rows[i]) {
                return None;
            }
            rooms.push(Room::convert_to_message(&rows[i]));
            i = i + 1;
        }
        Some(UserRoomResponse { rooms })
    }

    /// The rooms of `to_convert`, in order.
    pub fn convert_to_message(to_convert: &Vec<Item>) -> (r: UserRoomResponse)
        requires
            all_room_records(to_convert@),
        ensures
            rooms_of_rows(r, to_convert@),
    {
        UserRoomResponse::from_rows(to_convert).unwrap()
    }

    /// The rooms read from `table` (`get_batch_results`), or `None` when the
    /// response has no rows for it or one of them is no room record.
    pub fn from_response(response: &BatchResponse, table: &String) -> (r: Option<UserRoomResponse>)
        ensures
            r is Some <==> response@.contains_key(table@) && all_room_records(
                response@[table@]@,
            ),
            r matches Some(resp) ==> rooms_of_rows(resp, response@[table@]@),
    {
        match response.rows(table) {
            Some(rows) => UserRoomResponse::from_rows(rows),
            None => None,
        }
    }
}

/// A user's record lists their rooms by number.
pub open spec fn lists_rooms(item: Map<Seq<char>, AttrValue>) -> bool {
    readable_list(item, "rooms"@, true)
}

/// The keys of the rooms of the user in the first row read from the user
/// table: `("roomId", number)` for each number in its `rooms` list; `None`
/// where that row, or its list of room numbers, is missing.
pub fn user_room_params(response: &BatchResponse, user_table: &String) -> (r: Option<
    Vec<(String, String)>,
>)
    ensures
        r is Some <==> has_first_row(response@, user_table@) && lists_rooms(
            first_row(response@, user_table@),
        ),
        r matches Some(params) ==> keyed_texts(
            params@,
            "roomId"@,
            list_attr(first_row(response@, user_table@), "rooms"@),
            true,
        ),
{
    let rows = match response.rows(user_table) {
        Some(rows) => rows,
        None => {
            return None;
        },
    };
    if rows.len() == 0 {
        return None;
    }
    keyed_list_params(&rows[0], &String::from_str("rooms"), &String::from_str("roomId"), true)
}

impl ChatMessage {
    /// The parameters of the stored record of a message: user, room, user
    /// name and text, in that order.
    pub fn message_params(&self) -> (r: Vec<(String, String)>)
        ensures
            r@.len() == 4,
            r@[0].0@ == "userId"@,
            r@[0].1@ == self.user_id@,
            r@[1].0@ == "roomId"@,
            r@[1].1@ == self.room_id@,
            r@[2].0@ == "username"@,
            r@[2].1@ == self.username@,
            r@[3].0@ == "message"@,
            r@[3].1@ == self.message@,
    {
        let mut r: Vec<(String, String)> = Vec::new();
        r.push((String::from_str("userId"), self.user_id.clone()));
        r.push((String::from_str("roomId"), self.room_id.clone()));
        r.push((String::from_str("username"), self.username.clone()));
        r.push((String::from_str("message"), self.message.clone()));
        r
    }
}

/// The channels of the rooms, by room id.
pub struct RoomChannels<C> {
    rooms: Vec<(String, C)>,
}

impl<C> View for RoomChannels<C> {
    type V = Map<Seq<char>, C>;

    closed spec fn view(&self) -> Map<Seq<char>, C> {
        entries_map(self.rooms@)
    }
}

impl<C> RoomChannels<C> {
    /// No room has a channel yet.
    pub fn new() -> (r: RoomChannels<C>)
        ensures
            r@ == Map::<Seq<char>, C>::empty(),
    {
        RoomChannels { rooms: Vec::new() }
    }

    /// The channel of room `room_id`.
    pub fn get(&self, room_id: &String) -> (r: Option<&C>)
        ensures
            r is Some <==> self@.contains_key(room_id@),
            r matches Some(c) ==> *c == self@[room_id@],
    {
        match find_entry(&self.rooms, room_id) {
            Some(i) => Some(&self.rooms[i].1),
            None => None,
        }
    }
}

/// A user's rooms are listed (`UserRoomResponse::from_rows` gives `Some`)
/// exactly when every row has a string `roomId` that reads as a `u64` and a
/// string `roomName`, whatever the number and the name; each listed room then
/// carries the number read from its row and the row's name.
pub proof fn lemma_rooms_listed_exactly_when_readable(rows: Seq<Item>, resp: UserRoomResponse)
    ensures
        all_room_records(rows) <==> forall|i: int|
            0 <= i < rows.len() ==> {
                &&& text_attr(#[trigger] rows[i]@, "roomId"@) is Some
                &&& parsed_u64(text_attr(rows[i]@, "roomId"@)->0) is Some
                &&& text_attr(rows[i]@, "roomName"@) is Some
            },
        rooms_of_rows(resp, rows) ==> resp.rooms@.len() == rows.len() && forall|i: int|
            0 <= i < rows.len() ==> {
                &&& Some(resp.rooms@[i].room_id) == parsed_u64(
                    text_attr(#[trigger] rows[i]@, "roomId"@)->0,
                )
                &&& Some(resp.rooms@[i].room_name@) == text_attr(rows[i]@, "roomName"@)
            },
{
    if rooms_of_rows(resp, rows) {
        assert forall|i: int| 0 <= i < rows.len() implies {
            &&& Some(resp.rooms@[i].room_id) == parsed_u64(
                text_attr(#[trigger] rows[i]@, "roomId"@)->0,
            )
            &&& Some(resp.rooms@[i].room_name@) == text_attr(rows[i]@, "roomName"@)
        } by {
            assert(room_of_record(resp.rooms@[i], rows[i]@));
        }
    }
}

/// A room record whose number was written as decimal text, with any name,
/// is read as a room, and the room carries that number and that name,
/// whatever the number.
pub proof fn lemma_room_number_read_back(
    item: Map<Seq<char>, AttrValue>,
    n: u64,
    name: Seq<char>,
    room: Room,
)
    requires
        text_attr(item, "roomId"@) == Some(decimal(n as nat)),
        text_attr(item, "roomName"@) == Some(name),
    ensures
        is_room_record(item),
        room_of_record(room, item) ==> room.room_id == n && room.room_name@ == name,
{
    lemma_decimal_round_trip(n);
}

/// A user's record lists rooms exactly when its `rooms` attribute is a list
/// of numbers, of any length; the keys then hold one `("roomId", number)`
/// per element, in the list's order.
pub proof fn lemma_room_numbers_exactly(
    item: Map<Seq<char>, AttrValue>,
    params: Seq<(String, String)>,
)
    ensures
        lists_rooms(item) <==> {
            &&& item.contains_key("rooms"@)
            &&& list_elements(item["rooms"@]) is Some
            &&& forall|i: int|
                0 <= i < list_elements(item["rooms"@])->0.len() ==> (#[trigger] list_elements(
                    item["rooms"@],
                )->0[i]) is N
        },
        keyed_texts(params, "roomId"@, list_attr(item, "rooms"@), true) ==> {
            &&& params.len() == list_elements(item["rooms"@])->0.len()
            &&& forall|i: int|
                0 <= i < params.len() ==> (#[trigger] params[i]).0@ == "roomId"@ && number_text(
                    list_elements(item["rooms"@])->0[i],
                ) == Some(params[i].1@)
        },
{
    if item.contains_key("rooms"@) && list_elements(item["rooms"@]) is Some {
        let es = list_elements(item["rooms"@])->0;
        if forall|i: int| 0 <= i < es.len() ==> (#[trigger] es[i]) is N {
            assert forall|i: int| 0 <= i < es.len() implies (#[trigger] element_text(
                es[i],
                true,
            )) is Some by {
                assert(es[i] is N);
            }
        }
        if forall|i: int| 0 <= i < es.len() ==> (#[trigger] element_text(es[i], true)) is Some {
            assert forall|i: int| 0 <= i < es.len() implies (#[trigger] es[i]) is N by {
                assert(element_text(es[i], true) is Some);
            }
        }
    }
}

} // verus!
