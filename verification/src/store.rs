//! The tables behind the registries.
//!
//! Rooms and peers are kept in `dashmap::DashMap`s. This module is the trusted
//! boundary around that crate: the outside type is declared here, what a table
//! holds is given a name, and each outside call sits in a wrapper of a few
//! lines whose contract is believed, not proved. A wrapper that changes a
//! table takes it by `&mut`, so that nothing else can change it meanwhile and
//! the contract can say what it holds afterwards.
use crate::text::{enumerates, names};
use dashmap::DashMap;
use vstd::prelude::*;

verus! {

/// `dashmap::DashMap`, declared so that tables can be held and passed on.
/// Nothing inside one is visible here.
#[verifier::external_type_specification]
#[verifier::external_body]
#[verifier::reject_recursive_types(K)]
#[verifier::reject_recursive_types(V)]
#[verifier::reject_recursive_types(S)]
pub struct ExDashMap<K, V, S>(DashMap<K, V, S>);

/// The user ids that are the keys of a member table.
pub uninterp spec fn member_set(m: DashMap<String, ()>) -> Set<Seq<char>>;

/// The rooms of a room table, each with the user ids that its member table
/// holds.
pub uninterp spec fn room_table(t: DashMap<String, DashMap<String, ()>>) -> Map<
    Seq<char>,
    Set<Seq<char>>,
>;

/// The delivery handle that a peer table holds for each user id.
pub uninterp spec fn peer_table(t: DashMap<String, u64>) -> Map<Seq<char>, u64>;

/// Calls `DashMap::new`. Trusted: the new table has no key.
#[verifier::external_body]
pub(crate) fn members_new() -> (r: DashMap<String, ()>)
    ensures
        member_set(r) == Set::<Seq<char>>::empty(),
{
    DashMap::new()
}

/// Calls `DashMap::insert`. Trusted: afterwards `user` is a key, and the
/// other keys are as before.
#[verifier::external_body]
pub(crate) fn members_insert(m: &mut DashMap<String, ()>, user: String)
    ensures
        member_set(*final(m)) == member_set(*old(m)).insert(user@),
{
    m.insert(user, ());
}

/// Calls `DashMap::remove`. Trusted: afterwards `user` is no key, the other
/// keys are as before, and the result says whether `user` was one.
#[verifier::external_body]
pub(crate) fn members_remove(m: &mut DashMap<String, ()>, user: &str) -> (r: bool)
    ensures
        member_set(*final(m)) == member_set(*old(m)).remove(user@),
        r == member_set(*old(m)).contains(user@),
{
    m.remove(user).is_some()
}

/// Calls `DashMap::len`. Trusted: the result is the number of keys.
#[verifier::external_body]
pub(crate) fn members_len(m: &DashMap<String, ()>) -> (r: usize)
    ensures
        r == member_set(*m).len(),
{
    m.len()
}

/// Calls `DashMap::new`. Trusted: the new table has no room.
#[verifier::external_body]
pub(crate) fn rooms_new() -> (r: DashMap<String, DashMap<String, ()>>)
    ensures
        room_table(r) == (Map::<Seq<char>, Set<Seq<char>>>::empty()),
{
    DashMap::new()
}

/// Calls `DashMap::remove` and hands out the member table that was stored.
/// Trusted: afterwards the table has no room of that name, the other rooms
/// are as before, and the result is the member table that the room had, if
/// there was such a room.
#[verifier::external_body]
pub(crate) fn rooms_take(t: &mut DashMap<String, DashMap<String, ()>>, room: &str) -> (r: Option<
    DashMap<String, ()>,
>)
    ensures
        room_table(*final(t)) == room_table(*old(t)).remove(room@),
        r is Some == room_table(*old(t)).contains_key(room@),
        r matches Some(m) ==> member_set(m) == room_table(*old(t))[room@],
{
    t.remove(room).map(|entry| entry.1)
}

/// Calls `DashMap::insert`. Trusted: afterwards the room `room` has the
/// members of `members`, in place of what it had, and the other rooms are as
/// before.
#[verifier::external_body]
pub(crate) fn rooms_put(
    t: &mut DashMap<String, DashMap<String, ()>>,
    room: String,
    members: DashMap<String, ()>,
)
    ensures
        room_table(*final(t)) == room_table(*old(t)).insert(room@, member_set(members)),
{
    t.insert(room, members);
}

/// Calls `DashMap::len`. Trusted: the result is the number of rooms.
#[verifier::external_body]
pub(crate) fn rooms_len(t: &DashMap<String, DashMap<String, ()>>) -> (r: usize)
    ensures
        r == room_table(*t).dom().len(),
{
    t.len()
}

/// Walks the table with `DashMap::iter` and copies each room name out.
/// Trusted: every room name comes out once, in an order of which nothing is
/// said.
#[verifier::external_body]
pub(crate) fn rooms_names(t: &DashMap<String, DashMap<String, ()>>) -> (r: Vec<String>)
    ensures
        enumerates(names(r@), room_table(*t).dom()),
{
    t.iter().map(|entry| entry.key().clone()).collect()
}

/// Calls `DashMap::view` on the room and there walks its member table with
/// `DashMap::iter`, copying each key out. Trusted: the result is `None`
/// where the table has no such room, and else holds every member of the room
/// once, in an order of which nothing is said.
#[verifier::external_body]
pub(crate) fn rooms_members(t: &DashMap<String, DashMap<String, ()>>, room: &str) -> (r: Option<
    Vec<String>,
>)
    ensures
        r is Some == room_table(*t).contains_key(room@),
        r matches Some(list) ==> enumerates(names(list@), room_table(*t)[room@]),
{
    t.view(room, |_, members| members.iter().map(|entry| entry.key().clone()).collect())
}

/// Calls `DashMap::view` on the room and there asks its member table with
/// `DashMap::contains_key`. Trusted: the result is `None` where the table has
/// no such room, and else says whether `user` is a member of the room.
#[verifier::external_body]
pub(crate) fn rooms_has_member(
    t: &DashMap<String, DashMap<String, ()>>,
    room: &str,
    user: &str,
) -> (r: Option<bool>)
    ensures
        r is Some == room_table(*t).contains_key(room@),
        r matches Some(found) ==> found == room_table(*t)[room@].contains(user@),
{
    t.view(room, |_, members| members.contains_key(user))
}

/// Calls `DashMap::new`. Trusted: the new table has no peer.
#[verifier::external_body]
pub(crate) fn peers_new() -> (r: DashMap<String, u64>)
    ensures
        peer_table(r) == (Map::<Seq<char>, u64>::empty()),
{
    DashMap::new()
}

/// Calls `DashMap::insert`. Trusted: afterwards `user` has the handle
/// `handle`, the other users are as before, and the result is the handle that
/// `user` had, if any.
#[verifier::external_body]
pub(crate) fn peers_insert(t: &mut DashMap<String, u64>, user: String, handle: u64) -> (r: Option<
    u64,
>)
    ensures
        peer_table(*final(t)) == peer_table(*old(t)).insert(user@, handle),
        r == (if peer_table(*old(t)).contains_key(user@) {
            Some(peer_table(*old(t))[user@])
        } else {
            None
        }),
{
    t.insert(user, handle)
}

/// Calls `DashMap::remove`. Trusted: afterwards `user` has no handle, the
/// other users are as before, and the result is the handle that `user` had,
/// if any.
#[verifier::external_body]
pub(crate) fn peers_remove(t: &mut DashMap<String, u64>, user: &str) -> (r: Option<u64>)
    ensures
        peer_table(*final(t)) == peer_table(*old(t)).remove(user@),
        r == (if peer_table(*old(t)).contains_key(user@) {
            Some(peer_table(*old(t))[user@])
        } else {
            None
        }),
{
    t.remove(user).map(|entry| entry.1)
}

/// Calls `DashMap::get` and copies the handle out. Trusted: the result is
/// the handle that `user` has, if any.
#[verifier::external_body]
pub(crate) fn peers_get(t: &DashMap<String, u64>, user: &str) -> (r: Option<u64>)
    ensures
        r == (if peer_table(*t).contains_key(user@) {
            Some(peer_table(*t)[user@])
        } else {
            None
        }),
{
    t.get(user).map(|entry| *entry.value())
}

/// Calls `DashMap::len`. Trusted: the result is the number of users that
/// have a handle.
#[verifier::external_body]
pub(crate) fn peers_len(t: &DashMap<String, u64>) -> (r: usize)
    ensures
        r == peer_table(*t).dom().len(),
{
    t.len()
}

} // verus!
