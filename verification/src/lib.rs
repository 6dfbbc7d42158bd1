//! Verified core of a chat service whose records live in DynamoDB.
//!
//! The service itself (gRPC handlers, socket events, DynamoDB calls) runs in
//! the application crate; this library holds what those handlers decide:
//! how request parameters become DynamoDB keys and items, how stored records
//! become response messages, how a friend request's record is given an id
//! computed from its two user ids in sorted order, and how decimal numbers are read
//! and written.

pub mod attribute;
pub mod dynamo;
pub mod friendship;
pub mod messaging;
pub mod numeric;
pub mod room_service;
pub mod text;
pub mod socket;
