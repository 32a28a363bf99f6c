//! The membership directory: who is in which rooms and which rooms hold
//! whom, kept in two concurrent maps that mirror each other.
//!
//! A change takes the directory by exclusive reference and updates both maps
//! before it returns, so that no reader ever sees one map ahead of the other.
//! Callers that share a directory between tasks keep it behind a lock.

use crate::index::{drop_key, entries, file_member, list_members, new_index, strike_member};
use crate::membership::{
    join_keeps_wf, leave_keeps_wf, listing_counts, lists, without_member, Membership,
};
use dashmap::{DashMap, DashSet};
use vstd::prelude::*;

verus! {

/// Strikes `member` from the set under `key` and drops the key if that
/// leaves its set empty.
fn forget_member(index: &mut DashMap<String, DashSet<String>>, key: &str, member: &str)
    ensures
        entries(*final(index)) == without_member(entries(*old(index)), key@, member@),
    no_unwind
{
    let emptied = strike_member(index, key, member);
    if let Some(true) = emptied {
        drop_key(index, key);
    }
    assert(entries(*index) =~= without_member(entries(*old(index)), key@, member@));
}

/// The two maps, with nothing assumed of how they relate.
struct Indexes {
    user_rooms: DashMap<String, DashSet<String>>,
    room_users: DashMap<String, DashSet<String>>,
}

impl View for Indexes {
    type V = Membership;

    closed spec fn view(&self) -> Membership {
        Membership { user_rooms: entries(self.user_rooms), room_users: entries(self.room_users) }
    }
}

impl Indexes {
    fn join(&mut self, identity: &str, room: &str)
        ensures
            final(self)@ == old(self)@.joined(identity@, room@),
        no_unwind
    {
        file_member(&mut self.user_rooms, identity, room);
        file_member(&mut self.room_users, room, identity);
    }

    fn leave(&mut self, identity: &str, room: &str)
        ensures
            final(self)@ == old(self)@.left(identity@, room@),
        no_unwind
    {
        forget_member(&mut self.user_rooms, identity, room);
        forget_member(&mut self.room_users, room, identity);
    }
}

/// The directory. Its value is a [`Membership`], and every directory meets
/// the invariant `Membership::wf`: the two maps mirror each other and hold no
/// empty set.
pub struct Directory {
    maps: Indexes,
}

impl View for Directory {
    type V = Membership;

    closed spec fn view(&self) -> Membership {
        self.maps@
    }
}

impl Directory {
    #[verifier::type_invariant]
    spec fn inv(self) -> bool {
        self@.wf()
    }

    /// A directory that holds nobody.
    pub fn new() -> (directory: Directory)
        ensures
            directory@ == Membership::empty(),
            directory@.wf(),
    {
        Directory { maps: Indexes { user_rooms: new_index(), room_users: new_index() } }
    }

    /// Records that `identity` has joined `room`: the room is filed under the
    /// identity and the identity under the room, each set created if absent.
    /// Joining a room already joined changes nothing.
    pub fn record_join(&mut self, identity: &str, room: &str)
        ensures
            final(self)@ == old(self)@.joined(identity@, room@),
            old(self)@.wf(),
            final(self)@.wf(),
        no_unwind
    {
        proof {
            use_type_invariant(&*self);
            join_keeps_wf(self@, identity@, room@);
        }
        self.maps.join(identity, room);
    }

    /// Records that `identity` has left `room`: each is struck from the
    /// other's set, and a set left empty is dropped with its key. Leaving a
    /// room not joined changes nothing.
    pub fn record_leave(&mut self, identity: &str, room: &str)
        ensures
            final(self)@ == old(self)@.left(identity@, room@),
            old(self)@.wf(),
            final(self)@.wf(),
        no_unwind
    {
        proof {
            use_type_invariant(&*self);
            leave_keeps_wf(self@, identity@, room@);
        }
        self.maps.leave(identity, room);
    }

    /// The rooms that `identity` occupies at this moment, each once, in no
    /// particular order; none for an identity that the directory does not
    /// know.
    pub fn rooms_of(&self, identity: &str) -> (rooms: Vec<String>)
        ensures
            lists(rooms@, self@.rooms_of(identity@)),
            rooms.len() == self@.rooms_of(identity@).len(),
            self@.wf(),
    {
        proof {
            use_type_invariant(self);
        }
        let rooms = list_members(&self.maps.user_rooms, identity);
        proof {
            listing_counts(rooms@, self@.rooms_of(identity@));
        }
        rooms
    }

    /// The identities that occupy `room` at this moment, each once, in no
    /// particular order; none for a room that the directory does not know.
    pub fn users_of(&self, room: &str) -> (users: Vec<String>)
        ensures
            lists(users@, self@.users_of(room@)),
            users.len() == self@.users_of(room@).len(),
            self@.wf(),
    {
        proof {
            use_type_invariant(self);
        }
        let users = list_members(&self.maps.room_users, room);
        proof {
            listing_counts(users@, self@.users_of(room@));
        }
        users
    }
}

} // verus!
