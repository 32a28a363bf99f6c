//! The message envelope: the unit that travels between clients and relay.

use crate::clock::unix_seconds;
use vstd::prelude::*;

verus! {

/// What an envelope carries besides its room and sender.
#[derive(Debug, PartialEq, Eq)]
pub enum MsgData {
    /// The sender enters the room.
    Join,
    /// The sender departs from the room.
    Leave,
    /// The sender posts a text to the room.
    Message(String),
}

/// One message on the wire. Immutable once built.
#[derive(Debug, PartialEq, Eq)]
pub struct Msg {
    /// The room addressed.
    pub room: String,
    /// The identity of the sender.
    pub username: String,
    /// Seconds since the Unix epoch at construction; a hint for clients.
    pub timestamp: u64,
    /// Join, leave or text.
    pub data: MsgData,
}

/// The mathematical value of a payload.
pub enum MsgDataView {
    Join,
    Leave,
    Message(Seq<char>),
}

/// The mathematical value of an envelope.
pub struct MsgView {
    pub room: Seq<char>,
    pub username: Seq<char>,
    pub timestamp: nat,
    pub data: MsgDataView,
}

impl View for MsgData {
    type V = MsgDataView;

    open spec fn view(&self) -> MsgDataView {
        match *self {
            MsgData::Join => MsgDataView::Join,
            MsgData::Leave => MsgDataView::Leave,
            MsgData::Message(text) => MsgDataView::Message(text@),
        }
    }
}

impl View for Msg {
    type V = MsgView;

    open spec fn view(&self) -> MsgView {
        MsgView {
            room: self.room@,
            username: self.username@,
            timestamp: self.timestamp as nat,
            data: self.data@,
        }
    }
}

impl Clone for MsgData {
    fn clone(&self) -> (copy: MsgData)
        ensures
            copy == *self,
    {
        match self {
            MsgData::Join => MsgData::Join,
            MsgData::Leave => MsgData::Leave,
            MsgData::Message(text) => MsgData::Message(text.clone()),
        }
    }
}

impl Clone for Msg {
    fn clone(&self) -> (copy: Msg)
        ensures
            copy == *self,
    {
        Msg {
            room: self.room.clone(),
            username: self.username.clone(),
            timestamp: self.timestamp,
            data: self.data.clone(),
        }
    }
}

impl Msg {
    /// The envelope with exactly the given parts.
    pub fn stamped(room: String, username: String, timestamp: u64, data: MsgData) -> (msg: Msg)
        ensures
            msg == (Msg { room, username, timestamp, data }),
    {
        Msg { room, username, timestamp, data }
    }

    /// An envelope stamped with the wall clock's reading at construction.
    /// Room, sender and payload are the arguments; the timestamp is whatever
    /// the clock gave.
    pub fn new(room: String, username: String, data: MsgData) -> (msg: Msg)
        ensures
            msg == (Msg { room, username, timestamp: msg.timestamp, data }),
    {
        Msg::stamped(room, username, unix_seconds(), data)
    }

    /// A join envelope for `username` entering `room`.
    pub fn join(room: &str, username: &str) -> (msg: Msg)
        ensures
            msg@ == (MsgView {
                room: room@,
                username: username@,
                timestamp: msg@.timestamp,
                data: MsgDataView::Join,
            }),
    {
        Msg::new(room.to_owned(), username.to_owned(), MsgData::Join)
    }

    /// A leave envelope for `username` departing from `room`.
    pub fn leave(room: &str, username: &str) -> (msg: Msg)
        ensures
            msg@ == (MsgView {
                room: room@,
                username: username@,
                timestamp: msg@.timestamp,
                data: MsgDataView::Leave,
            }),
    {
        Msg::new(room.to_owned(), username.to_owned(), MsgData::Leave)
    }

    /// A text envelope carrying `message` from `username` to `room`.
    pub fn message(room: &str, username: &str, message: &str) -> (msg: Msg)
        ensures
            msg@ == (MsgView {
                room: room@,
                username: username@,
                timestamp: msg@.timestamp,
                data: MsgDataView::Message(message@),
            }),
    {
        Msg::new(room.to_owned(), username.to_owned(), MsgData::Message(message.to_owned()))
    }
}

} // verus!
