//! Storing a friend request once per pair of users.
//!
//! The record of a friend request carries an `id` computed from the two user
//! ids sorted, so that a request from A to B and one from B to A hash the
//! same pair of ids; the write is conditional on no record with that id
//! existing yet.

use crate::attribute::{text_attr, AttrValue, Item};
use crate::dynamo::{item_from_params, lemma_params_item_last_wins, param_text, params_item};
use crate::numeric::{decimal, decimal_string};
use crate::text::{lemma_ordered_pair_symmetric, ordered_pair, sorted_pair};
use std::collections::hash_map::DefaultHasher;
use std::hash::{Hash, Hasher};
use vstd::prelude::*;
use vstd::std_specs::hash::DefaultHasherAdditionalSpecFns;

verus! {

/// The request names both users: it has a `senderId` and a `receiverId`.
pub open spec fn names_both_users(params: Seq<(String, String)>) -> bool {
    param_text(params, "senderId"@) is Some && param_text(params, "receiverId"@) is Some
}

/// The two user ids of a request, sorted: what the id of its record is
/// computed from.
pub open spec fn pair_of_request(params: Seq<(String, String)>) -> Seq<Seq<char>> {
    ordered_pair(param_text(params, "senderId"@)->0, param_text(params, "receiverId"@)->0)
}

/// A request from A to B and one from B to A name the same pair.
pub proof fn lemma_pair_of_request_symmetric(a: Seq<(String, String)>, b: Seq<(String, String)>)
    requires
        names_both_users(a),
        names_both_users(b),
        param_text(a, "senderId"@) == param_text(b, "receiverId"@),
        param_text(a, "receiverId"@) == param_text(b, "senderId"@),
    ensures
        pair_of_request(a) == pair_of_request(b),
{
    lemma_ordered_pair_symmetric(
        param_text(a, "senderId"@)->0,
        param_text(a, "receiverId"@)->0,
    );
}

/// The sorted pair of user ids of a request, or `None` when it lacks one.
pub fn request_pair(query_params: &Vec<(String, String)>) -> (r: Option<Vec<String>>)
    ensures
        r is Some <==> names_both_users(query_params@),
        r matches Some(pair) ==> pair@.len() == 2 && seq![pair@[0]@, pair@[1]@] == pair_of_request(
            query_params@,
        ),
{
    let item = item_from_params(query_params);
    let sender = match item.text(&String::from_str("senderId")) {
        Some(s) => s.clone(),
        None => {
            return None;
        },
    };
    let receiver = match item.text(&String::from_str("receiverId")) {
        Some(s) => s.clone(),
        None => {
            return None;
        },
    };
    Some(sorted_pair(sender, receiver))
}

/// `Hash::hash` of a `Vec<String>` into a `DefaultHasher`.  Nothing is
/// stated of the bytes it feeds the hasher: they include the list's length in
/// the machine's word size and byte order, so the same strings can hash
/// differently on different machines.
#[verifier::external_body]
fn hash_strings(values: &Vec<String>, state: &mut DefaultHasher) {
    values.hash(state)
}

/// The `DefaultHasher` hash of a list of strings, as `query_dynamodb_singular`
/// computes the id of a friend request's record: what `finish` gives for the
/// writes that hashing the list made.  Which writes those are is not stated
/// (see `hash_strings`).
fn default_hash(values: &Vec<String>) -> (r: u64)
    ensures
        exists|writes: Seq<Seq<u8>>| r == #[trigger] DefaultHasher::spec_finish(writes),
{
    let mut state = DefaultHasher::new();
    hash_strings(values, &mut state);
    let r = state.finish();
    assert(r == DefaultHasher::spec_finish(state@));
    r
}

/// The record of a request whose pair of user ids hashed to `id_hash`: the
/// request's parameters as string attributes, and `id`, the hash in decimal.
pub fn friend_request_record(query_params: &Vec<(String, String)>, id_hash: u64) -> (r: Item)
    ensures
        r@.remove("id"@) == params_item(query_params@).remove("id"@),
        text_attr(r@, "id"@) == Some(decimal(id_hash as nat)),
{
    let mut item = item_from_params(query_params);
    let id = decimal_string(id_hash);
    let ghost before = item@;
    item.insert(String::from_str("id"), AttrValue::S(id));
    assert(item@.remove("id"@) =~= before.remove("id"@));
    item
}

/// The record that `query_dynamodb_singular` writes for a friend request,
/// or `None` when the request lacks a sender or a receiver.  Its `id` is
/// the decimal hash of the request's sorted pair of user ids.
pub fn friend_request_item(query_params: &Vec<(String, String)>) -> (r: Option<Item>)
    ensures
        r is Some <==> names_both_users(query_params@),
        r matches Some(item) ==> item@.remove("id"@) == params_item(query_params@).remove("id"@),
        r matches Some(item) ==> exists|h: u64|
            text_attr(item@, "id"@) == Some(#[trigger] decimal(h as nat)),
{
    match request_pair(query_params) {
        Some(pair) => {
            let h = default_hash(&pair);
            let item = friend_request_record(query_params, h);
            assert(text_attr(item@, "id"@) == Some(decimal(h as nat)));
            Some(item)
        },
        None => None,
    }
}

/// How the conditional write of a friend request's record went.
pub enum PutAttempt<E> {
    /// The record was written; whether the consumed capacity that came back
    /// reports write units.
    Stored { write_units_reported: bool },
    /// A record with the same id exists already, so nothing was written.
    ConditionFailed,
    /// The write failed otherwise.
    Failed(E),
}

/// The outcome of `query_dynamodb_singular`: whether the request was
/// written, or the error when the write failed for another reason than an
/// existing record.
pub fn friend_request_written<E>(attempt: PutAttempt<E>) -> (r: Result<bool, E>)
    ensures
        match attempt {
            PutAttempt::Stored { write_units_reported } => r == Ok::<bool, E>(write_units_reported),
            PutAttempt::ConditionFailed => r == Ok::<bool, E>(false),
            PutAttempt::Failed(e) => r == Err::<bool, E>(e),
        },
{
    match attempt {
        PutAttempt::Stored { write_units_reported } => Ok(write_units_reported),
        PutAttempt::ConditionFailed => Ok(false),
        PutAttempt::Failed(e) => Err(e),
    }
}

/// The parameters of every friend request (`FriendRequest::convert_to_message`:
/// sender, receiver, message, date) name both users, so a record can be made
/// for every friend request.
pub proof fn lemma_friend_request_params_name_both(params: Seq<(String, String)>)
    requires
        params.len() == 4,
        params[0].0@ == "senderId"@,
        params[1].0@ == "receiverId"@,
        params[2].0@ == "message"@,
        params[3].0@ == "date"@,
    ensures
        names_both_users(params),
        param_text(params, "senderId"@) == Some(params[0].1@),
        param_text(params, "receiverId"@) == Some(params[1].1@),
{
    reveal_strlit("senderId");
    reveal_strlit("receiverId");
    reveal_strlit("message");
    reveal_strlit("date");
    assert("senderId"@.len() == 8);
    assert("message"@.len() == 7);
    assert("date"@.len() == 4);
    assert("message"@ != "senderId"@);
    assert("date"@ != "senderId"@);
    assert("message"@ != "receiverId"@);
    assert("date"@ != "receiverId"@);
    assert("receiverId"@ != "senderId"@);
    lemma_params_item_last_wins(params, 0);
    lemma_params_item_last_wins(params, 1);
}

} // verus!
