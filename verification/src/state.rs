//! The shared relay state: the membership directory and the fan-out
//! channel, built once at startup and handed to every session by reference.

use crate::directory::Directory;
use crate::fanout::{FanOut, Publication, Subscription, CAPACITY};
use crate::membership::{lists, names_of, Membership, Name};
use crate::msg::{Msg, MsgData, MsgDataView, MsgView};
use vstd::prelude::*;

verus! {

/// The directory after an envelope has been applied to it: a join or a leave
/// is recorded for the envelope's sender and room, a text changes nothing.
pub open spec fn applied(m: Membership, msg: MsgView) -> Membership {
    match msg.data {
        MsgDataView::Join => m.joined(msg.username, msg.room),
        MsgDataView::Leave => m.left(msg.username, msg.room),
        MsgDataView::Message(_) => m,
    }
}

/// The leave notice published for one room of a departed identity, with how
/// its publish ended.
#[derive(Debug, PartialEq, Eq)]
pub struct Departure {
    /// The room that the identity occupied.
    pub room: String,
    /// How the publish of the leave envelope ended.
    pub outcome: Publication,
}

/// The rooms of a list of departures, in its order.
pub open spec fn departed_rooms(departures: Seq<Departure>) -> Seq<String> {
    departures.map_values(|departure: Departure| departure.room)
}

/// The rooms that a list of envelopes addresses, in its order.
pub open spec fn addressed_rooms(notices: Seq<Msg>) -> Seq<String> {
    notices.map_values(|notice: Msg| notice.room)
}

/// Every envelope of the list is a leave of `identity`.
pub open spec fn all_leaves_of(notices: Seq<Msg>, identity: Name) -> bool {
    forall|i: int|
        0 <= i < notices.len() ==> (#[trigger] notices[i]).username@ == identity
            && notices[i].data == MsgData::Leave
}

/// The relay state. Its value is the directory's [`Membership`], which
/// always meets `Membership::wf`.
pub struct ChatState {
    directory: Directory,
    fanout: FanOut,
}

impl View for ChatState {
    type V = Membership;

    closed spec fn view(&self) -> Membership {
        self.directory@
    }
}

impl ChatState {
    /// What holds of every relay state that a program holds.
    #[verifier::type_invariant]
    pub open spec fn inv(self) -> bool {
        self@.wf()
    }

    /// A relay that holds nobody and has no subscribers.
    pub fn new() -> (state: ChatState)
        ensures
            state@ == Membership::empty(),
            state@.wf(),
    {
        ChatState { directory: Directory::new(), fanout: FanOut::new() }
    }

    /// The rooms that `username` occupies at this moment, each once, in no
    /// particular order; none for an identity that is not known.
    pub fn get_user_rooms(&self, username: &str) -> (rooms: Vec<String>)
        ensures
            lists(rooms@, self@.rooms_of(username@)),
            rooms.len() == self@.rooms_of(username@).len(),
            self@.wf(),
    {
        self.directory.rooms_of(username)
    }

    /// The identities that occupy `room` at this moment, each once, in no
    /// particular order; none for a room that is not known.
    pub fn get_room_users(&self, room: &str) -> (users: Vec<String>)
        ensures
            lists(users@, self@.users_of(room@)),
            users.len() == self@.users_of(room@).len(),
            self@.wf(),
    {
        self.directory.users_of(room)
    }

    /// Registers a new subscriber to everything published from now on. Its
    /// queue is its own, bounded by the channel's capacity.
    pub fn subscribe(&self) -> (subscription: Subscription)
        ensures
            subscription.capacity() == CAPACITY,
    {
        self.fanout.subscribe()
    }

    /// Publishes `msg` to every subscriber, whatever rooms they occupy.
    pub fn publish(&self, msg: Msg) -> (outcome: Publication)
        ensures
            outcome.counts_someone(),
    {
        self.fanout.publish(msg)
    }

    /// Applies one decoded envelope: a join or a leave is recorded in the
    /// directory, and the envelope, whatever it carries, is then published
    /// to every subscriber. The outcome of the publish is returned for the
    /// caller to log; having no subscriber is no failure.
    pub fn handle_message(&mut self, msg: Msg) -> (outcome: Publication)
        ensures
            final(self)@ == applied(old(self)@, msg@),
            final(self)@.wf(),
            outcome.counts_someone(),
    {
        match msg.data {
            MsgData::Join => {
                self.directory.record_join(msg.username.as_str(), msg.room.as_str());
            },
            MsgData::Leave => {
                self.directory.record_leave(msg.username.as_str(), msg.room.as_str());
            },
            MsgData::Message(_) => {
                proof {
                    use_type_invariant(&*self);
                }
            },
        }
        self.fanout.publish(msg)
    }

    /// The leave envelopes that stand for the departure of `identity`: one
    /// for each room that it occupies at this moment, in no particular
    /// order, each stamped by the clock. The directory is only read.
    pub fn departure_notices(&self, identity: &str) -> (notices: Vec<Msg>)
        ensures
            lists(addressed_rooms(notices@), self@.rooms_of(identity@)),
            notices.len() == self@.rooms_of(identity@).len(),
            all_leaves_of(notices@, identity@),
    {
        let rooms = self.directory.rooms_of(identity);
        let mut notices: Vec<Msg> = Vec::new();
        let mut i: usize = 0;
        while i < rooms.len()
            invariant
                i <= rooms.len(),
                notices.len() == i,
                forall|k: int| 0 <= k < i ==> (#[trigger] notices[k]).room@ == rooms[k]@,
                all_leaves_of(notices@, identity@),
            decreases rooms.len() - i,
        {
            let notice = Msg::leave(rooms[i].as_str(), identity);
            notices.push(notice);
            i += 1;
        }
        assert(names_of(addressed_rooms(notices@)) =~= names_of(rooms@));
        notices
    }

    /// Publishes each envelope of `notices` once, in order, and reports for
    /// each the room it addressed and how its publish ended. A publish that
    /// finds no subscriber does not keep the later ones from being made.
    pub fn publish_each(&self, notices: Vec<Msg>) -> (departures: Vec<Departure>)
        ensures
            departures.len() == notices.len(),
            departed_rooms(departures@) == addressed_rooms(notices@),
            forall|i: int|
                0 <= i < departures.len() ==> (#[trigger] departures[i]).outcome.counts_someone(),
    {
        let mut departures: Vec<Departure> = Vec::new();
        let mut i: usize = 0;
        let n = notices.len();
        while i < n
            invariant
                i <= n,
                n == notices.len(),
                departures.len() == i,
                forall|k: int| 0 <= k < i ==> (#[trigger] departures[k]).room == notices[k].room,
                forall|k: int|
                    0 <= k < i ==> (#[trigger] departures[k]).outcome.counts_someone(),
            decreases n - i,
        {
            let notice = notices[i].clone();
            let room = notice.room.clone();
            let outcome = self.fanout.publish(notice);
            departures.push(Departure { room, outcome });
            i += 1;
        }
        assert(departed_rooms(departures@) =~= addressed_rooms(notices@));
        departures
    }

    /// Reconciles the departure of `identity` with the other sessions: a
    /// leave envelope is published for every room that it occupies, once per
    /// room. The directory itself is left as it is; it changes when a leave
    /// is applied through [`ChatState::handle_message`].
    pub fn announce_departure(&self, identity: &str) -> (departures: Vec<Departure>)
        ensures
            lists(departed_rooms(departures@), self@.rooms_of(identity@)),
            departures.len() == self@.rooms_of(identity@).len(),
            forall|i: int|
                0 <= i < departures.len() ==> (#[trigger] departures[i]).outcome.counts_someone(),
    {
        let notices = self.departure_notices(identity);
        self.publish_each(notices)
    }
}

} // verus!
