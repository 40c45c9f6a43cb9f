//! The shapes of the messages on the wire, on JSON documents.
//!
//! A value with named fields is an object with a member for each field; a
//! decoder takes the first member of each name and passes over members it
//! does not know. A value of a tagged union is an object with one member,
//! whose name is the tag. A request is `{"Call": [id, {operation: params}]}`
//! or `{"Abort": [id, reason]}`; a reply is `[id, outcome]`, where the
//! outcome is `{"N": {operation: value}}`, `{"Error": reason}`,
//! `{"Complete": notes}` or `{"Aborted": reason}`.
//!
//! For each kind of value there is what it is encoded as, what a document is
//! decoded as, and the proof that decoding an encoded value gives the value
//! back.

pub mod envelope;
pub mod graph;
pub mod text;
