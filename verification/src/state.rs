//! The shared state of the relay: which users are in which room, and the
//! delivery handle by which each user's live connection is reached.
//!
//! `Registry` is the mathematical value of that state, with the room and peer
//! operations as functions on it. `AppState` is the state itself; each of its
//! methods is specified by the function of `Registry` that it carries out.
//! One `AppState` is made at startup and handed to every connection handler.
use crate::store::{
    members_insert, members_len, members_new, members_remove, peer_table,
    peers_get, peers_insert, peers_len, peers_new, peers_remove, room_table, rooms_len,
    rooms_has_member, rooms_members, rooms_names, rooms_new, rooms_put, rooms_take,
};
use crate::text::{enumerates, lemma_except_enumerates, names, names_except};
use dashmap::DashMap;
use vstd::prelude::*;

verus! {

/// A delivery handle: the number under which the transport keeps the means
/// to push one text frame to a live connection.
pub type Handle = u64;

/// Rooms with their members, and users with their delivery handles.
#[verifier::ext_equal]
pub struct Registry {
    /// The members of each room that exists.
    pub rooms: Map<Seq<char>, Set<Seq<char>>>,
    /// The handle registered for each user that has one.
    pub peers: Map<Seq<char>, Handle>,
}

impl Registry {
    /// No room and no peer.
    pub open spec fn empty() -> Registry {
        Registry { rooms: Map::empty(), peers: Map::empty() }
    }

    /// Every room that exists has members, finitely many; there are finitely
    /// many rooms and peers.
    pub open spec fn wf(self) -> bool {
        &&& self.rooms.dom().finite()
        &&& self.peers.dom().finite()
        &&& forall|room: Seq<char>| #[trigger]
            self.rooms.contains_key(room) ==> self.rooms[room].finite() && self.rooms[room].len()
                > 0
    }

    /// The members of `room`; none where there is no such room.
    pub open spec fn members(self, room: Seq<char>) -> Set<Seq<char>> {
        if self.rooms.contains_key(room) {
            self.rooms[room]
        } else {
            Set::empty()
        }
    }

    /// The members of `room` other than `user`.
    pub open spec fn others(self, room: Seq<char>, user: Seq<char>) -> Set<Seq<char>> {
        self.members(room).remove(user)
    }

    /// The handle registered for `user`, if any.
    pub open spec fn handle_of(self, user: Seq<char>) -> Option<Handle> {
        if self.peers.contains_key(user) {
            Some(self.peers[user])
        } else {
            None
        }
    }

    /// `user` is added to `room`, which is created if it was not there.
    pub open spec fn join(self, room: Seq<char>, user: Seq<char>) -> Registry {
        Registry { rooms: self.rooms.insert(room, self.members(room).insert(user)), ..self }
    }

    /// `user` is removed from `room`, and the room with it if nobody is left.
    pub open spec fn leave(self, room: Seq<char>, user: Seq<char>) -> Registry {
        let rest = self.others(room, user);
        if rest.len() == 0 {
            Registry { rooms: self.rooms.remove(room), ..self }
        } else {
            Registry { rooms: self.rooms.insert(room, rest), ..self }
        }
    }

    /// `handle` becomes the one handle of `user`.
    pub open spec fn register(self, user: Seq<char>, handle: Handle) -> Registry {
        Registry { peers: self.peers.insert(user, handle), ..self }
    }

    /// `user` has no handle any more.
    pub open spec fn unregister(self, user: Seq<char>) -> Registry {
        Registry { peers: self.peers.remove(user), ..self }
    }

    /// The rooms that `user` is a member of.
    pub open spec fn rooms_of(self, user: Seq<char>) -> Set<Seq<char>> {
        Set::new(|room: Seq<char>| self.rooms.contains_key(room) && self.rooms[room].contains(user))
    }

    /// `user` is removed from every room, and every room with it where
    /// nobody is left.
    pub open spec fn leave_all(self, user: Seq<char>) -> Registry {
        Registry {
            rooms: Map::new(
                |room: Seq<char>|
                    self.rooms.contains_key(room) && self.rooms[room].remove(user).len() > 0,
                |room: Seq<char>| self.rooms[room].remove(user),
            ),
            ..self
        }
    }
}

/// The registries while `user` is being removed from every room: it is gone
/// from the rooms in `done`, and each of these rooms with it if nobody is
/// left there; the other rooms are as they were.
spec fn leave_among(reg: Registry, done: Set<Seq<char>>, user: Seq<char>) -> Registry {
    Registry {
        rooms: Map::new(
            |room: Seq<char>|
                reg.rooms.contains_key(room) && (done.contains(room) ==> reg.rooms[room].remove(
                    user,
                ).len() > 0),
            |room: Seq<char>|
                if done.contains(room) {
                    reg.rooms[room].remove(user)
                } else {
                    reg.rooms[room]
                },
        ),
        ..reg
    }
}

/// The rooms and peers of the relay.
pub struct AppState {
    rooms: DashMap<String, DashMap<String, ()>>,
    peers: DashMap<String, Handle>,
}

impl View for AppState {
    type V = Registry;

    closed spec fn view(&self) -> Registry {
        Registry { rooms: room_table(self.rooms), peers: peer_table(self.peers) }
    }
}

impl Default for AppState {
    /// A state without rooms or peers.
    fn default() -> (state: AppState)
        ensures
            state@ == Registry::empty(),
            state.wf(),
    {
        AppState::new()
    }
}

impl AppState {
    /// The state is well formed when its value is.
    pub open spec fn wf(&self) -> bool {
        self@.wf()
    }

    /// A state without rooms or peers.
    pub fn new() -> (state: AppState)
        ensures
            state@ == Registry::empty(),
            state.wf(),
    {
        AppState { rooms: rooms_new(), peers: peers_new() }
    }

    /// The number of rooms and the number of registered peers.
    pub fn get_stats(&self) -> (counts: (usize, usize))
        ensures
            counts.0 == self@.rooms.dom().len(),
            counts.1 == self@.peers.dom().len(),
    {
        (rooms_len(&self.rooms), peers_len(&self.peers))
    }

    /// The members of `room` at this moment, each once, or `None` where
    /// there is no such room.
    pub fn room_members(&self, room: &str) -> (found: Option<Vec<String>>)
        ensures
            found is Some == self@.rooms.contains_key(room@),
            found matches Some(list) ==> enumerates(names(list@), self@.members(room@)),
    {
        rooms_members(&self.rooms, room)
    }

    /// Whether `user` is a member of `room`.
    pub fn is_member(&self, room: &str, user: &str) -> (found: bool)
        ensures
            found == self@.members(room@).contains(user@),
    {
        match rooms_has_member(&self.rooms, room, user) {
            Some(found) => found,
            None => false,
        }
    }

    /// The members of `room` other than `user` at this moment, each once: the
    /// targets of a notice about `user`.
    pub fn members_except(&self, room: &str, user: &str) -> (list: Vec<String>)
        ensures
            enumerates(names(list@), self@.others(room@, user@)),
    {
        match rooms_members(&self.rooms, room) {
            Some(all) => {
                let list = names_except(&all, user);
                proof {
                    lemma_except_enumerates(names(all@), self@.members(room@), user@);
                }
                list
            },
            None => {
                let list: Vec<String> = Vec::new();
                assert(names(list@).to_set() =~= self@.others(room@, user@));
                list
            },
        }
    }

    /// Adds `user` to `room`, creating the room if need be, and returns the
    /// number of members that the room then has.
    pub fn join_room(&mut self, room: &str, user: &str) -> (count: usize)
        requires
            old(self).wf(),
        ensures
            final(self)@ == old(self)@.join(room@, user@),
            final(self).wf(),
            count == final(self)@.members(room@).len(),
            count >= 1,
    {
        let mut members = match rooms_take(&mut self.rooms, room) {
            Some(members) => members,
            None => members_new(),
        };
        members_insert(&mut members, user.to_owned());
        let count = members_len(&members);
        rooms_put(&mut self.rooms, room.to_owned(), members);
        count
    }

    /// Removes `user` from `room`, and the room itself if that leaves it
    /// without members. Returns whether `user` was a member.
    pub fn leave_room(&mut self, room: &str, user: &str) -> (removed: bool)
        requires
            old(self).wf(),
        ensures
            final(self)@ == old(self)@.leave(room@, user@),
            final(self).wf(),
            removed == old(self)@.members(room@).contains(user@),
    {
        match rooms_take(&mut self.rooms, room) {
            None => false,
            Some(members) => {
                let mut members = members;
                let removed = members_remove(&mut members, user);
                if members_len(&members) > 0 {
                    rooms_put(&mut self.rooms, room.to_owned(), members);
                }
                removed
            },
        }
    }

    /// Registers `handle` as the delivery handle of `user`, whatever was
    /// registered before, and returns the handle that it replaces. The caller
    /// disposes of that one.
    pub fn register_peer(&mut self, user: &str, handle: Handle) -> (previous: Option<Handle>)
        requires
            old(self).wf(),
        ensures
            final(self)@ == old(self)@.register(user@, handle),
            final(self).wf(),
            previous == old(self)@.handle_of(user@),
    {
        peers_insert(&mut self.peers, user.to_owned(), handle)
    }

    /// Removes the delivery handle of `user` and returns it, or nothing if
    /// `user` had none.
    pub fn unregister_peer(&mut self, user: &str) -> (previous: Option<Handle>)
        requires
            old(self).wf(),
        ensures
            final(self)@ == old(self)@.unregister(user@),
            final(self).wf(),
            previous == old(self)@.handle_of(user@),
    {
        peers_remove(&mut self.peers, user)
    }

    /// The delivery handle of `user`, if one is registered.
    pub fn peer(&self, user: &str) -> (handle: Option<Handle>)
        ensures
            handle == self@.handle_of(user@),
    {
        peers_get(&self.peers, user)
    }

    /// Removes `user` from every room, and each room that this leaves without
    /// members. Returns the rooms that `user` was a member of, each once.
    pub fn leave_all_rooms(&mut self, user: &str) -> (left: Vec<String>)
        requires
            old(self).wf(),
        ensures
            final(self)@ == old(self)@.leave_all(user@),
            final(self).wf(),
            enumerates(names(left@), old(self)@.rooms_of(user@)),
    {
        let all = rooms_names(&self.rooms);
        let ghost start = self@;
        let ghost order = names(all@);
        let mut left: Vec<String> = Vec::new();
        let mut i: usize = 0;
        while i < all.len()
            invariant
                i <= all.len(),
                order == names(all@),
                enumerates(order, start.rooms.dom()),
                start.wf(),
                self.wf(),
                self@ == leave_among(start, order.take(i as int).to_set(), user@),
                names(left@).no_duplicates(),
                names(left@).to_set() == start.rooms_of(user@).intersect(
                    order.take(i as int).to_set(),
                ),
            decreases all.len() - i,
        {
            let ghost done = order.take(i as int).to_set();
            let ghost room = order[i as int];
            let ghost left_before = names(left@);
            proof {
                assert(order.take(i + 1) == order.take(i as int).push(room));
                order.take(i as int).lemma_push_to_set_commute(room);
                assert(!done.contains(room));
            }
            let removed = self.leave_room(all[i].as_str(), user);
            if removed {
                left.push(all[i].clone());
                proof {
                    assert(names(left@) == left_before.push(room));
                    left_before.lemma_push_to_set_commute(room);
                    if left_before.contains(room) {
                        assert(left_before.to_set().contains(room));
                    }
                }
            }
            i += 1;
        }
        proof {
            assert(order.take(all.len() as int) == order);
            assert(names(left@).to_set() =~= start.rooms_of(user@));
        }
        left
    }

    /// Every room with its members at this moment: each room once, and each
    /// member of a room once.
    pub fn get_room_details(&self) -> (details: Vec<(String, Vec<String>)>)
        ensures
            enumerates(room_names(details@), self@.rooms.dom()),
            forall|i: int|
                0 <= i < details.len() ==> enumerates(
                    names(#[trigger] details[i].1@),
                    self@.members(details[i].0@),
                ),
    {
        let all = rooms_names(&self.rooms);
        let mut details: Vec<(String, Vec<String>)> = Vec::new();
        let mut i: usize = 0;
        while i < all.len()
            invariant
                i <= all.len(),
                enumerates(names(all@), self@.rooms.dom()),
                room_names(details@) == names(all@).take(i as int),
                forall|j: int|
                    0 <= j < details.len() ==> enumerates(
                        names(#[trigger] details[j].1@),
                        self@.members(details[j].0@),
                    ),
            decreases all.len() - i,
        {
            assert(names(all@).to_set().contains(names(all@)[i as int]));
            let list = match rooms_members(&self.rooms, all[i].as_str()) {
                Some(list) => list,
                None => Vec::new(),
            };
            details.push((all[i].clone(), list));
            assert(names(all@).take(i + 1) == names(all@).take(i as int).push(all@[i as int]@));
            i += 1;
        }
        assert(names(all@).take(all.len() as int) == names(all@));
        details
    }
}

/// The room names of a list of rooms with their members.
pub open spec fn room_names(details: Seq<(String, Vec<String>)>) -> Seq<Seq<char>> {
    details.map_values(|entry: (String, Vec<String>)| entry.0@)
}

} // verus!
