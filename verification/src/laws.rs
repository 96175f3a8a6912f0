//! What holds of the registries and of the fan-outs, whatever happens.
//!
//! The operations of the relay state, each for itself, what they do to a
//! `Registry` and which actions they return. The lemmas here speak of them
//! together: of every state that any sequence of operations can reach, and
//! of how many notices an operation sends and to whom.
use crate::delivery::{fan_out, lemma_fan_out_len, sends, ActionView};
use crate::notice::{spec_join_notice, spec_leave_notice, spec_trigger_offer_notice};
use crate::state::{Handle, Registry};
use crate::text::{enumerates, lemma_enumeration_len};
use crate::ws::{admission, admitted, departed, torn_down, ConnView};
use vstd::prelude::*;

verus! {

/// One change of the registries.
pub enum Step {
    /// `user` joins `room`.
    Join { room: Seq<char>, user: Seq<char> },
    /// `user` leaves `room`.
    Leave { room: Seq<char>, user: Seq<char> },
    /// `handle` is registered for `user`.
    Register { user: Seq<char>, handle: Handle },
    /// The handle of `user` is removed.
    Unregister { user: Seq<char> },
    /// `user` leaves every room: the sweep of a teardown.
    LeaveAll { user: Seq<char> },
    /// The users of `gone` are evicted from `room`.
    Evict { room: Seq<char>, gone: Set<Seq<char>> },
}

/// The registries after one change.
pub open spec fn step(reg: Registry, s: Step) -> Registry {
    match s {
        Step::Join { room, user } => reg.join(room, user),
        Step::Leave { room, user } => reg.leave(room, user),
        Step::Register { user, handle } => reg.register(user, handle),
        Step::Unregister { user } => reg.unregister(user),
        Step::LeaveAll { user } => reg.leave_all(user),
        Step::Evict { room, gone } => reg.evict(room, gone),
    }
}

/// The registries after a sequence of changes.
pub open spec fn run(reg: Registry, steps: Seq<Step>) -> Registry
    decreases steps.len(),
{
    if steps.len() == 0 {
        reg
    } else {
        step(run(reg, steps.drop_last()), steps.last())
    }
}

/// A room is there exactly if it has a member: a room that is there is
/// never empty, and a room that is not there has no member.
pub proof fn law_room_lifecycle(reg: Registry, room: Seq<char>)
    requires
        reg.wf(),
    ensures
        reg.members(room).finite(),
        reg.rooms.contains_key(room) <==> reg.members(room).len() > 0,
        reg.rooms.contains_key(room) <==> exists|user: Seq<char>| reg.members(room).contains(user),
{
    if reg.rooms.contains_key(room) {
        let members = reg.members(room);
        if forall|user: Seq<char>| !members.contains(user) {
            assert(members =~= Set::empty());
        }
    }
}

/// A join leaves the registries well formed, with the joiner a member.
pub proof fn law_join(reg: Registry, room: Seq<char>, user: Seq<char>)
    requires
        reg.wf(),
    ensures
        reg.join(room, user).wf(),
        reg.join(room, user).members(room) == reg.members(room).insert(user),
        forall|other: Seq<char>|
            other != room ==> reg.join(room, user).members(other) == reg.members(other),
{
}

/// A user is a member of a room at most once: joining again changes
/// nothing, and the room is no larger for it.
pub proof fn law_membership_exclusive(reg: Registry, room: Seq<char>, user: Seq<char>)
    requires
        reg.wf(),
    ensures
        reg.join(room, user).join(room, user) == reg.join(room, user),
        reg.join(room, user).join(room, user).members(room).len() == reg.join(
            room,
            user,
        ).members(room).len(),
        reg.members(room).contains(user) ==> reg.join(room, user) == reg,
        forall|order: Seq<Seq<char>>, i: int, j: int|
            enumerates(order, reg.members(room)) && 0 <= i < j < order.len() ==> order[i]
                != order[j],
{
    let once = reg.join(room, user);
    assert(once.members(room).insert(user) =~= once.members(room));
    if reg.members(room).contains(user) {
        assert(reg.members(room).insert(user) =~= reg.members(room));
    }
}

/// A leave leaves the registries well formed, with the leaver no member;
/// the room is there afterwards exactly if somebody else is in it.
pub proof fn law_leave(reg: Registry, room: Seq<char>, user: Seq<char>)
    requires
        reg.wf(),
    ensures
        reg.leave(room, user).wf(),
        reg.leave(room, user).members(room) == reg.members(room).remove(user),
        reg.leave(room, user).rooms.contains_key(room) <==> exists|other: Seq<char>|
            other != user && reg.members(room).contains(other),
        forall|other: Seq<char>|
            other != room ==> reg.leave(room, user).members(other) == reg.members(other),
{
    let rest = reg.others(room, user);
    if rest.len() == 0 {
        rest.lemma_len0_is_empty();
    } else {
        assert(rest.contains(rest.choose()));
    }
}

/// The sweep of a teardown leaves the registries well formed, with the user
/// a member of no room.
pub proof fn law_leave_all(reg: Registry, user: Seq<char>)
    requires
        reg.wf(),
    ensures
        reg.leave_all(user).wf(),
        forall|room: Seq<char>|
            #[trigger] reg.leave_all(user).members(room) == reg.members(room).remove(user),
        reg.leave_all(user).rooms_of(user) == Set::<Seq<char>>::empty(),
{
    let after = reg.leave_all(user);
    vstd::set_lib::lemma_len_subset(after.rooms.dom(), reg.rooms.dom());
    assert forall|room: Seq<char>| #[trigger]
        after.members(room) == reg.members(room).remove(user) by {
        if reg.rooms.contains_key(room) {
            let rest = reg.rooms[room].remove(user);
            if rest.len() == 0 {
                rest.lemma_len0_is_empty();
            }
        }
    }
}

/// An eviction leaves the registries well formed, with none of the evicted
/// a member of the room or a holder of a handle.
pub proof fn law_evict(reg: Registry, room: Seq<char>, gone: Set<Seq<char>>)
    requires
        reg.wf(),
    ensures
        reg.evict(room, gone).wf(),
        reg.evict(room, gone).members(room) == reg.members(room).difference(gone),
        forall|user: Seq<char>| gone.contains(user) ==> !reg.evict(room, gone).peers.contains_key(user),
{
    let after = reg.evict(room, gone);
    let rest = reg.members(room).difference(gone);
    vstd::set_lib::lemma_len_difference(reg.members(room), gone);
    if rest.len() == 0 {
        rest.lemma_len0_is_empty();
    }
    vstd::set_lib::lemma_len_subset(after.peers.dom(), reg.peers.dom());
}

/// Every state that the relay can reach is well formed: whatever is joined,
/// left, registered, unregistered, swept or evicted, in whatever order,
/// every room that exists has a member, and no room without one exists.
pub proof fn law_reachable_states(steps: Seq<Step>)
    ensures
        run(Registry::empty(), steps).wf(),
    decreases steps.len(),
{
    if steps.len() > 0 {
        law_reachable_states(steps.drop_last());
        let before = run(Registry::empty(), steps.drop_last());
        match steps.last() {
            Step::Join { room, user } => law_join(before, room, user),
            Step::Leave { room, user } => law_leave(before, room, user),
            Step::Register { user, handle } => {},
            Step::Unregister { user } => {},
            Step::LeaveAll { user } => law_leave_all(before, user),
            Step::Evict { room, gone } => law_evict(before, room, gone),
        }
    }
}

/// A user has at most one handle. Registering a second one replaces the
/// first: the first is no longer registered the moment the second is, and
/// nobody else's handle is touched.
pub proof fn law_peer_unique(reg: Registry, user: Seq<char>, first: Handle, second: Handle)
    ensures
        reg.register(user, first).handle_of(user) == Some(first),
        reg.register(user, first).register(user, second).handle_of(user) == Some(second),
        reg.register(user, first).register(user, second) == reg.register(user, second),
        forall|other: Seq<char>|
            other != user ==> reg.register(user, first).register(user, second).handle_of(other)
                == reg.handle_of(other),
        reg.register(user, first).unregister(user).handle_of(user) is None,
{
}

/// A fan-out reaches nobody but its targets: every action of it sends one
/// of the texts to the handle of a user of `order`.
pub proof fn law_fan_out_targets(
    order: Seq<Seq<char>>,
    peers: Map<Seq<char>, Handle>,
    texts: Seq<Seq<char>>,
    i: int,
)
    requires
        0 <= i < fan_out(order, peers, texts).len(),
    ensures
        fan_out(order, peers, texts)[i] matches ActionView::Send { to, text } && texts.contains(
            text,
        ) && exists|j: int|
            0 <= j < order.len() && peers.contains_key(#[trigger] order[j]) && peers[order[j]]
                == to,
    decreases order.len(),
{
    if order.len() > 0 {
        let init = order.drop_last();
        let before = fan_out(init, peers, texts);
        if i < before.len() {
            law_fan_out_targets(init, peers, texts, i);
            let j = choose|j: int|
                0 <= j < init.len() && peers.contains_key(#[trigger] init[j]) && peers[init[j]]
                    == before[i]->Send_to;
            assert(order[j] == init[j]);
        } else {
            assert(order[order.len() - 1] == order.last());
        }
    }
}

/// Where every user of `order` has a handle, the fan-out sends the texts to
/// the users one after the other: the `t`-th text for the `k`-th user stands
/// at place `k * texts.len() + t`.
pub proof fn lemma_fan_out_at(
    order: Seq<Seq<char>>,
    peers: Map<Seq<char>, Handle>,
    texts: Seq<Seq<char>>,
    k: int,
    t: int,
)
    requires
        forall|i: int| 0 <= i < order.len() ==> peers.contains_key(#[trigger] order[i]),
        0 <= k < order.len(),
        0 <= t < texts.len(),
    ensures
        fan_out(order, peers, texts).len() == order.len() * texts.len(),
        0 <= k * texts.len() + t < fan_out(order, peers, texts).len(),
        fan_out(order, peers, texts)[k * texts.len() + t] == (ActionView::Send {
            to: peers[order[k]],
            text: texts[t],
        }),
    decreases order.len(),
{
    let n = texts.len() as int;
    let init = order.drop_last();
    lemma_fan_out_len(order, peers, texts);
    lemma_fan_out_len(init, peers, texts);
    assert(init.len() * n + n == order.len() * n) by (nonlinear_arith)
        requires
            init.len() + 1 == order.len(),
    ;
    if k < init.len() {
        lemma_fan_out_at(init, peers, texts, k, t);
    }
    assert(0 <= k * n + t < order.len() * n) by (nonlinear_arith)
        requires
            0 <= k < order.len(),
            0 <= t < n,
    ;
}

/// The join of the N-th member of a room sends one confirmation to the
/// joiner and, to each of the N-1 other members, one join notice followed
/// by one instruction to start the handshake: 2(N-1)+1 actions in all. This
/// is stated for rooms whose other members all have a handle; a member
/// without one is passed over.
pub proof fn law_join_fan_out(
    before: Registry,
    after: Registry,
    handle: Handle,
    room: Seq<char>,
    user: Seq<char>,
    actions: Seq<ActionView>,
)
    requires
        before.wf(),
        admitted(before, after, handle, room, user, actions),
        forall|member: Seq<char>|
            after.others(room, user).contains(member) ==> after.peers.contains_key(member),
    ensures
        after.members(room).contains(user),
        actions.len() == 2 * (after.members(room).len() - 1) + 1,
        actions[0] == (ActionView::Reply { text: spec_join_notice(user, room) }),
        exists|order: Seq<Seq<char>>|
            #![trigger enumerates(order, after.others(room, user))]
            enumerates(order, after.others(room, user)) && forall|k: int|
                0 <= k < order.len() ==> actions[2 * k + 1] == (ActionView::Send {
                    to: after.peers[#[trigger] order[k]],
                    text: spec_join_notice(user, room),
                }) && actions[2 * k + 2] == (ActionView::Send {
                    to: after.peers[order[k]],
                    text: spec_trigger_offer_notice(user, room),
                }),
{
    law_join(before, room, user);
    let order = choose|order: Seq<Seq<char>>|
        enumerates(order, after.others(room, user)) && actions == #[trigger] admission(
            order,
            after.peers,
            room,
            user,
        );
    let texts = seq![spec_join_notice(user, room), spec_trigger_offer_notice(user, room)];
    lemma_enumeration_len(order, after.others(room, user));
    assert(forall|i: int| 0 <= i < order.len() ==> after.peers.contains_key(#[trigger] order[i]));
    lemma_fan_out_len(order, after.peers, texts);
    assert forall|k: int| 0 <= k < order.len() implies actions[2 * k + 1] == (ActionView::Send {
        to: after.peers[#[trigger] order[k]],
        text: spec_join_notice(user, room),
    }) && actions[2 * k + 2] == (ActionView::Send {
        to: after.peers[order[k]],
        text: spec_trigger_offer_notice(user, room),
    }) by {
        lemma_fan_out_at(order, after.peers, texts, k, 0);
        lemma_fan_out_at(order, after.peers, texts, k, 1);
    }
}

/// A leave from a room of M members sends M-1 leave notices, one to each
/// member that remains. This is stated for a leaver that is a member, and
/// for rooms whose remaining members all have a handle; a member without
/// one is passed over.
pub proof fn law_leave_fan_out(
    before: Registry,
    after: Registry,
    room: Seq<char>,
    user: Seq<char>,
    actions: Seq<ActionView>,
)
    requires
        before.wf(),
        before.members(room).contains(user),
        departed(before, after, room, user, actions),
        forall|member: Seq<char>|
            after.others(room, user).contains(member) ==> after.peers.contains_key(member),
    ensures
        actions.len() == before.members(room).len() - 1,
        after.members(room) == before.members(room).remove(user),
        exists|order: Seq<Seq<char>>|
            #![trigger enumerates(order, after.members(room))]
            enumerates(order, after.members(room)) && forall|k: int|
                0 <= k < order.len() ==> actions[k] == (ActionView::Send {
                    to: after.peers[#[trigger] order[k]],
                    text: spec_leave_notice(user, room),
                }),
{
    law_leave(before, room, user);
    law_room_lifecycle(before, room);
    assert(after.others(room, user) =~= after.members(room));
    let order = choose|order: Seq<Seq<char>>|
        enumerates(order, after.others(room, user)) && actions == #[trigger] fan_out(
            order,
            after.peers,
            seq![spec_leave_notice(user, room)],
        );
    let texts = seq![spec_leave_notice(user, room)];
    lemma_enumeration_len(order, after.others(room, user));
    assert(forall|i: int| 0 <= i < order.len() ==> after.peers.contains_key(#[trigger] order[i]));
    lemma_fan_out_len(order, after.peers, texts);
    assert(actions.len() == order.len() * 1);
    assert forall|k: int| 0 <= k < order.len() implies actions[k] == (ActionView::Send {
        to: after.peers[#[trigger] order[k]],
        text: spec_leave_notice(user, room),
    }) by {
        lemma_fan_out_at(order, after.peers, texts, k, 0);
    }
}

/// Tearing down twice is tearing down once. What a teardown does to the
/// registries, done again, changes nothing; and after it the user is in no
/// room, so that there is nobody to tell a second time.
pub proof fn law_teardown_idempotent(reg: Registry, user: Seq<char>)
    requires
        reg.wf(),
    ensures
        reg.unregister(user).leave_all(user).unregister(user).leave_all(user) == reg.unregister(
            user,
        ).leave_all(user),
        reg.unregister(user).leave_all(user).rooms_of(user) == Set::<Seq<char>>::empty(),
        reg.unregister(user).leave_all(user).handle_of(user) is None,
{
    let once = reg.unregister(user).leave_all(user);
    law_leave_all(reg.unregister(user), user);
    assert(forall|room: Seq<char>| #[trigger]
        once.rooms.contains_key(room) ==> once.rooms[room].remove(user) == once.rooms[room]);
}

/// A second teardown of a connection has no effect of its own: whatever the
/// first did, the second changes nothing and sends nothing.
pub proof fn law_teardown_once(
    conn: ConnView,
    reg: Registry,
    conn_once: ConnView,
    reg_once: Registry,
    actions_once: Seq<ActionView>,
    conn_twice: ConnView,
    reg_twice: Registry,
    actions_twice: Seq<ActionView>,
)
    requires
        torn_down(conn, reg, conn_once, reg_once, actions_once),
        torn_down(conn_once, reg_once, conn_twice, reg_twice, actions_twice),
    ensures
        conn_once.closed,
        conn_twice == conn_once,
        reg_twice == reg_once,
        actions_twice == Seq::<ActionView>::empty(),
        actions_once + actions_twice == actions_once,
{
}

} // verus!
