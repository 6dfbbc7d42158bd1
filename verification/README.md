# grpc-messaging

A chat service whose users, rooms, friend requests and messages are stored in
DynamoDB, split in two:

- `src/` is the verified library (Verus). It holds what the service decides:
  - `attribute`: DynamoDB items as name/value entries where the last entry of
    a name counts, with lookups and inserts;
  - `dynamo`: the keys of a batch read, the item of a write, the rows of a
    batch response, list attributes read as query parameters, and the name of
    the environment variable that holds a table's name;
  - `messaging`: room, friend and user records read as the messages the
    client sees, and the steps of answering a request for a user's
    information;
  - `friendship`: the record of a friend request, whose id is computed from
    the two user ids in sorted order, and the outcome of its conditional
    write;
  - `room_service`: a user's rooms by number, chat messages as records, and
    the channels of the rooms;
  - `socket`: the record of a message sent over the socket;
  - `numeric` and `text`: decimal reading and writing of `u64`, and the order
    of strings.
- `app/` runs the service: DynamoDB calls, socket events, the handlers that
  chain them, and `main`.
