//! The mathematical model of the membership directory: two indexes kept as
//! mirror images of each other, the transitions on them, and the laws that
//! the transitions obey.

use vstd::prelude::*;
use vstd::seq_lib::seq_to_set_is_finite;

verus! {

/// An identity or a room, as the sequence of its characters.
pub type Name = Seq<char>;

/// One direction of the directory: each key with the set filed under it.
pub type Index = Map<Name, Set<Name>>;

/// The set filed under `key`; empty where the index has no such key.
pub open spec fn members(index: Index, key: Name) -> Set<Name> {
    if index.dom().contains(key) {
        index[key]
    } else {
        Set::empty()
    }
}

/// The index after `member` is filed under `key`, the key created if absent.
pub open spec fn with_member(index: Index, key: Name, member: Name) -> Index {
    index.insert(key, members(index, key).insert(member))
}

/// The index after `member` is struck from the set under `key`, the set kept
/// even if it is left empty. An absent key leaves the index as it is.
pub open spec fn struck(index: Index, key: Name, member: Name) -> Index {
    if index.dom().contains(key) {
        index.insert(key, index[key].remove(member))
    } else {
        index
    }
}

/// The index after `member` is struck from the set under `key` and the key
/// dropped if its set was left empty.
pub open spec fn without_member(index: Index, key: Name, member: Name) -> Index {
    if index.dom().contains(key) && index[key].remove(member).is_empty() {
        index.remove(key)
    } else {
        struck(index, key, member)
    }
}

/// No key of the index holds an empty set.
pub open spec fn compact(index: Index) -> bool {
    forall|key: Name| #[trigger] index.dom().contains(key) ==> !index[key].is_empty()
}

/// The names that a listing holds, in its order.
pub open spec fn names_of(listed: Seq<String>) -> Seq<Name> {
    listed.map_values(|name: String| name@)
}

/// A listing names each member of a set exactly once, in some order.
pub open spec fn lists(listed: Seq<String>, set: Set<Name>) -> bool {
    &&& names_of(listed).no_duplicates()
    &&& names_of(listed).to_set() == set
}

/// A set that has a listing is finite, and as large as the listing is long.
pub proof fn listing_counts(listed: Seq<String>, set: Set<Name>)
    requires
        lists(listed, set),
    ensures
        set.finite(),
        set.len() == listed.len(),
{
    names_of(listed).unique_seq_to_set();
    seq_to_set_is_finite(names_of(listed));
}

/// A listing of a set holds a name exactly when the set does.
pub proof fn listing_holds(listed: Seq<String>, set: Set<Name>, name: Name)
    requires
        lists(listed, set),
    ensures
        set.contains(name) <==> exists|i: int| 0 <= i < listed.len() && #[trigger] listed[i]@ == name,
{
    let names = names_of(listed);
    if set.contains(name) {
        assert(names.contains(name));
        let i = choose|i: int| 0 <= i < names.len() && names[i] == name;
        assert(listed[i]@ == name);
    }
    if exists|i: int| 0 <= i < listed.len() && #[trigger] listed[i]@ == name {
        let i = choose|i: int| 0 <= i < listed.len() && #[trigger] listed[i]@ == name;
        assert(names[i] == name);
        assert(names.contains(name));
    }
}

/// The directory's contents: who is in which rooms, and which rooms hold whom.
pub struct Membership {
    /// For each identity, the rooms it occupies.
    pub user_rooms: Index,
    /// For each room, the identities that occupy it.
    pub room_users: Index,
}

/// One recorded change of membership.
pub enum MembershipOp {
    /// The identity enters the room.
    Join { identity: Name, room: Name },
    /// The identity departs from the room.
    Leave { identity: Name, room: Name },
}

impl Membership {
    /// The directory that holds nobody.
    pub open spec fn empty() -> Membership {
        Membership { user_rooms: Map::empty(), room_users: Map::empty() }
    }

    /// The rooms that `identity` occupies.
    pub open spec fn rooms_of(self, identity: Name) -> Set<Name> {
        members(self.user_rooms, identity)
    }

    /// The identities that occupy `room`.
    pub open spec fn users_of(self, room: Name) -> Set<Name> {
        members(self.room_users, room)
    }

    /// The directory after `identity` has joined `room`.
    pub open spec fn joined(self, identity: Name, room: Name) -> Membership {
        Membership {
            user_rooms: with_member(self.user_rooms, identity, room),
            room_users: with_member(self.room_users, room, identity),
        }
    }

    /// The directory after `identity` has left `room`.
    pub open spec fn left(self, identity: Name, room: Name) -> Membership {
        Membership {
            user_rooms: without_member(self.user_rooms, identity, room),
            room_users: without_member(self.room_users, room, identity),
        }
    }

    /// The directory after one recorded change.
    pub open spec fn apply(self, op: MembershipOp) -> Membership {
        match op {
            MembershipOp::Join { identity, room } => self.joined(identity, room),
            MembershipOp::Leave { identity, room } => self.left(identity, room),
        }
    }

    /// The directory reached from the empty one by the changes of `ops`, in
    /// order.
    pub open spec fn replay(ops: Seq<MembershipOp>) -> Membership
        decreases ops.len(),
    {
        if ops.len() == 0 {
            Membership::empty()
        } else {
            Membership::replay(ops.drop_last()).apply(ops.last())
        }
    }

    /// The two indexes are mirror images: a room is among an identity's rooms
    /// exactly when the identity is among the room's users.
    pub open spec fn mirrored(self) -> bool {
        forall|identity: Name, room: Name|
            #[trigger] self.rooms_of(identity).contains(room)
                <==> #[trigger] self.users_of(room).contains(identity)
    }

    /// The directory's invariant: the indexes mirror each other and neither
    /// holds a key whose set is empty.
    pub open spec fn wf(self) -> bool {
        &&& self.mirrored()
        &&& compact(self.user_rooms)
        &&& compact(self.room_users)
    }
}

/// The empty directory meets the invariant.
pub proof fn empty_is_wf()
    ensures
        Membership::empty().wf(),
{
}

/// A join keeps the invariant.
pub proof fn join_keeps_wf(m: Membership, identity: Name, room: Name)
    requires
        m.wf(),
    ensures
        m.joined(identity, room).wf(),
{
    let after = m.joined(identity, room);
    assert forall|u: Name, r: Name|
        #[trigger] after.rooms_of(u).contains(r) <==> #[trigger] after.users_of(r).contains(
            u,
        ) by {
        assert(m.rooms_of(u).contains(r) <==> m.users_of(r).contains(u));
    }
    assert forall|key: Name| #[trigger]
        after.user_rooms.dom().contains(key) implies !after.user_rooms[key].is_empty() by {
        if key == identity {
            assert(after.user_rooms[key].contains(room));
        } else {
            assert(m.user_rooms.dom().contains(key));
        }
    }
    assert forall|key: Name| #[trigger]
        after.room_users.dom().contains(key) implies !after.room_users[key].is_empty() by {
        if key == room {
            assert(after.room_users[key].contains(identity));
        } else {
            assert(m.room_users.dom().contains(key));
        }
    }
}

/// A leave keeps the invariant.
pub proof fn leave_keeps_wf(m: Membership, identity: Name, room: Name)
    requires
        m.wf(),
    ensures
        m.left(identity, room).wf(),
{
    let after = m.left(identity, room);
    assert forall|u: Name, r: Name|
        #[trigger] after.rooms_of(u).contains(r) <==> #[trigger] after.users_of(r).contains(
            u,
        ) by {
        assert(m.rooms_of(u).contains(r) <==> m.users_of(r).contains(u));
    }
    assert forall|key: Name| #[trigger]
        after.user_rooms.dom().contains(key) implies !after.user_rooms[key].is_empty() by {
        assert(m.user_rooms.dom().contains(key));
    }
    assert forall|key: Name| #[trigger]
        after.room_users.dom().contains(key) implies !after.room_users[key].is_empty() by {
        assert(m.room_users.dom().contains(key));
    }
}

/// After any sequence of joins and leaves, starting from the empty directory,
/// the invariant holds.
pub proof fn replay_is_wf(ops: Seq<MembershipOp>)
    ensures
        Membership::replay(ops).wf(),
    decreases ops.len(),
{
    if ops.len() == 0 {
        empty_is_wf();
    } else {
        replay_is_wf(ops.drop_last());
        let before = Membership::replay(ops.drop_last());
        match ops.last() {
            MembershipOp::Join { identity, room } => join_keeps_wf(before, identity, room),
            MembershipOp::Leave { identity, room } => leave_keeps_wf(before, identity, room),
        }
    }
}

/// Mirror invariant: after any sequence of joins and leaves, a room is among
/// the rooms of an identity exactly when the identity is among the users of
/// the room.
pub proof fn mirror_after_any_sequence(ops: Seq<MembershipOp>, identity: Name, room: Name)
    ensures
        Membership::replay(ops).rooms_of(identity).contains(room) <==> Membership::replay(
            ops,
        ).users_of(room).contains(identity),
{
    replay_is_wf(ops);
}

/// A join makes the identity a member of the room, in both directions, and
/// touches no other pair.
pub proof fn join_adds_exactly_one_pair(m: Membership, identity: Name, room: Name)
    ensures
        m.joined(identity, room).rooms_of(identity) == m.rooms_of(identity).insert(room),
        m.joined(identity, room).users_of(room) == m.users_of(room).insert(identity),
        forall|u: Name|
            u != identity ==> #[trigger] m.joined(identity, room).rooms_of(u) == m.rooms_of(u),
        forall|r: Name|
            r != room ==> #[trigger] m.joined(identity, room).users_of(r) == m.users_of(r),
{
}

/// A leave ends the identity's membership of the room, in both directions,
/// and touches no other pair.
pub proof fn leave_removes_exactly_one_pair(m: Membership, identity: Name, room: Name)
    ensures
        m.left(identity, room).rooms_of(identity) == m.rooms_of(identity).remove(room),
        m.left(identity, room).users_of(room) == m.users_of(room).remove(identity),
        forall|u: Name|
            u != identity ==> #[trigger] m.left(identity, room).rooms_of(u) == m.rooms_of(u),
        forall|r: Name|
            r != room ==> #[trigger] m.left(identity, room).users_of(r) == m.users_of(r),
{
    let after = m.left(identity, room);
    assert(after.rooms_of(identity) =~= m.rooms_of(identity).remove(room));
    assert(after.users_of(room) =~= m.users_of(room).remove(identity));
}

/// Idempotent join: joining a room twice yields the same directory as
/// joining it once.
pub proof fn join_is_idempotent(m: Membership, identity: Name, room: Name)
    ensures
        m.joined(identity, room).joined(identity, room) == m.joined(identity, room),
{
    let once = m.joined(identity, room);
    let twice = once.joined(identity, room);
    assert(once.user_rooms[identity].insert(room) =~= once.user_rooms[identity]);
    assert(once.room_users[room].insert(identity) =~= once.room_users[room]);
    assert(twice.user_rooms =~= once.user_rooms);
    assert(twice.room_users =~= once.room_users);
}

/// No-op leave: leaving a room that the identity does not occupy leaves the
/// directory unchanged.
pub proof fn leave_of_non_member_changes_nothing(m: Membership, identity: Name, room: Name)
    requires
        m.wf(),
        !m.rooms_of(identity).contains(room),
    ensures
        m.left(identity, room) == m,
{
    let after = m.left(identity, room);
    assert(!m.users_of(room).contains(identity));
    if m.user_rooms.dom().contains(identity) {
        assert(m.user_rooms[identity].remove(room) =~= m.user_rooms[identity]);
    }
    if m.room_users.dom().contains(room) {
        assert(m.room_users[room].remove(identity) =~= m.room_users[room]);
    }
    assert(after.user_rooms =~= m.user_rooms);
    assert(after.room_users =~= m.room_users);
}

/// An identity that never joined a room does not occupy it.
pub proof fn never_joined_is_no_member(ops: Seq<MembershipOp>, identity: Name, room: Name)
    requires
        forall|i: int| 0 <= i < ops.len() ==> ops[i] != (MembershipOp::Join { identity, room }),
    ensures
        !Membership::replay(ops).rooms_of(identity).contains(room),
    decreases ops.len(),
{
    if ops.len() > 0 {
        let before = Membership::replay(ops.drop_last());
        assert forall|i: int| 0 <= i < ops.drop_last().len() implies ops.drop_last()[i] != (
        MembershipOp::Join { identity, room }) by {
            assert(ops.drop_last()[i] == ops[i]);
        }
        never_joined_is_no_member(ops.drop_last(), identity, room);
        match ops.last() {
            MembershipOp::Join { identity: u, room: r } => {
                assert(ops[ops.len() - 1] != (MembershipOp::Join { identity, room }));
                join_adds_exactly_one_pair(before, u, r);
            },
            MembershipOp::Leave { identity: u, room: r } => {
                leave_removes_exactly_one_pair(before, u, r);
            },
        }
    }
}

/// No-op leave, over histories: when `identity` never joined `room` in the
/// changes recorded so far, its leaving that room changes nothing.
pub proof fn leave_without_join_changes_nothing(
    ops: Seq<MembershipOp>,
    identity: Name,
    room: Name,
)
    requires
        forall|i: int| 0 <= i < ops.len() ==> ops[i] != (MembershipOp::Join { identity, room }),
    ensures
        Membership::replay(ops).left(identity, room) == Membership::replay(ops),
{
    replay_is_wf(ops);
    never_joined_is_no_member(ops, identity, room);
    leave_of_non_member_changes_nothing(Membership::replay(ops), identity, room);
}

/// Empty-set cleanup: when the last user of a room leaves it, the room has no
/// users and no entry of its own any more, as a room never seen has none.
pub proof fn last_leave_drops_the_room(m: Membership, identity: Name, room: Name)
    requires
        m.wf(),
        m.users_of(room) == set![identity],
    ensures
        m.left(identity, room).users_of(room) == Set::<Name>::empty(),
        !m.left(identity, room).room_users.dom().contains(room),
{
    assert(m.users_of(room).contains(identity));
    assert(m.room_users.dom().contains(room));
    assert(m.room_users[room].remove(identity) =~= Set::<Name>::empty());
}

/// Empty-set cleanup, the other direction: when an identity leaves the only
/// room it occupied, it has no rooms and no entry of its own any more.
pub proof fn last_leave_drops_the_identity(m: Membership, identity: Name, room: Name)
    requires
        m.wf(),
        m.rooms_of(identity) == set![room],
    ensures
        m.left(identity, room).rooms_of(identity) == Set::<Name>::empty(),
        !m.left(identity, room).user_rooms.dom().contains(identity),
{
    assert(m.rooms_of(identity).contains(room));
    assert(m.user_rooms.dom().contains(identity));
    assert(m.user_rooms[identity].remove(room) =~= Set::<Name>::empty());
}

} // verus!
