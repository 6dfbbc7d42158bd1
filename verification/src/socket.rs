//! The record of a message sent over the socket to a room.

use vstd::prelude::*;

verus! {

/// Whether `c` is a lowercase hexadecimal digit.
pub open spec fn is_lower_hex(c: char) -> bool {
    (48 <= (c as int) <= 57) || (97 <= (c as int) <= 102)
}

/// The hyphenated lowercase text of a random (version 4) UUID:
/// `xxxxxxxx-xxxx-4xxx-yxxx-xxxxxxxxxxxx`, each `x` a hexadecimal digit and
/// `y` one of `8`, `9`, `a`, `b`.
pub open spec fn is_random_uuid_text(s: Seq<char>) -> bool {
    &&& s.len() == 36
    &&& forall|i: int|
        0 <= i < 36 ==> (if i == 8 || i == 13 || i == 18 || i == 23 {
            s[i] == '-'
        } else {
            is_lower_hex(#[trigger] s[i])
        })
    &&& s[14] == '4'
    &&& (s[19] == '8' || s[19] == '9' || s[19] == 'a' || s[19] == 'b')
}

/// `Uuid::new_v4().to_string()`: a random UUID, version 4, in its hyphenated
/// lowercase form.  What is stated holds of every outcome; which UUID comes
/// back is left open.
#[verifier::external_body]
fn random_uuid_text() -> (r: String)
    ensures
        is_random_uuid_text(r@),
{
    uuid::Uuid::new_v4().to_string()
}

/// The parameters of the stored record of a socket message: its id, room
/// and text, the sending user (always `"test"`) and the date (always
/// `"tuesday"`), in that order.
pub fn message_entry_params(message_id: String, room: String, message: String) -> (r: Vec<
    (String, String),
>)
    ensures
        r@.len() == 5,
        r@[0].0@ == "message_id"@,
        r@[0].1@ == message_id@,
        r@[1].0@ == "room_id"@,
        r@[1].1@ == room@,
        r@[2].0@ == "message"@,
        r@[2].1@ == message@,
        r@[3].0@ == "userId"@,
        r@[3].1@ == "test"@,
        r@[4].0@ == "date"@,
        r@[4].1@ == "tuesday"@,
{
    let mut r: Vec<(String, String)> = Vec::new();
    r.push((String::from_str("message_id"), message_id));
    r.push((String::from_str("room_id"), room));
    r.push((String::from_str("message"), message));
    r.push((String::from_str("userId"), String::from_str("test")));
    r.push((String::from_str("date"), String::from_str("tuesday")));
    r
}

/// The parameters of the record of a new message (`new_message_handler`):
/// as `message_entry_params`, with a fresh random UUID as its id.
pub fn new_message_params(room: String, message: String) -> (r: Vec<(String, String)>)
    ensures
        r@.len() == 5,
        r@[0].0@ == "message_id"@,
        is_random_uuid_text(r@[0].1@),
        r@[1].0@ == "room_id"@,
        r@[1].1@ == room@,
        r@[2].0@ == "message"@,
        r@[2].1@ == message@,
        r@[3].0@ == "userId"@,
        r@[3].1@ == "test"@,
        r@[4].0@ == "date"@,
        r@[4].1@ == "tuesday"@,
{
    message_entry_params(random_uuid_text(), room, message)
}

} // verus!
