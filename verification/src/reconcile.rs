//! Reconciling a join with what is left of an earlier session.
//!
//! A user may come back while the teardown of its previous connection has not
//! run yet. A join therefore first looks for a prior session of the joining
//! user: a membership of the target room, or a registered handle. If there is
//! one, the stale entries are evicted and the superseded connection is told.
//! After a short pause, which lets a teardown that is under way settle, the
//! other members of the room are probed: each gets a `ping` on its handle,
//! and the transport reports the users for which that send failed. A member
//! whose probe failed, or that has no handle at all, is evicted, and the
//! members that responded are told so.
//!
//! A failed send is the only liveness signal there is. A connection that is
//! alive but slow can be taken for dead; that is accepted.
use crate::delivery::{fan_out, push_fan_out, reachable, views, Action, ActionView};
use crate::notice::{
    ping_probe, session_conflict_notice, spec_ping, spec_session_conflict_notice,
    spec_user_disconnected_notice, user_disconnected_notice,
};
use crate::state::{AppState, Handle, Registry};
use crate::text::{contains_name, enumerates, names};
use vstd::prelude::*;

verus! {

/// How long a join waits, in milliseconds, between evicting a prior session
/// and probing the room.
pub const SETTLE_MILLIS: u64 = 100;

/// A liveness probe: `text` is to be offered to the handle `to` without
/// blocking, and `user` reported if that fails.
#[derive(Debug, PartialEq, Eq)]
pub struct Probe {
    pub user: String,
    pub to: Handle,
    pub text: String,
}

/// The mathematical value of a `Probe`.
pub struct ProbeView {
    pub user: Seq<char>,
    pub to: Handle,
    pub text: Seq<char>,
}

/// What a sweep of a room did: the users it evicted, in the order in which
/// it did so, and the notices that tell the others.
#[derive(Debug, PartialEq, Eq)]
pub struct Sweep {
    pub evicted: Vec<String>,
    pub actions: Vec<Action>,
}

impl View for Probe {
    type V = ProbeView;

    open spec fn view(&self) -> ProbeView {
        ProbeView { user: self.user@, to: self.to, text: self.text@ }
    }
}

/// The values of a list of probes.
pub open spec fn probe_views(probes: Seq<Probe>) -> Seq<ProbeView> {
    probes.map_values(|p: Probe| p@)
}

/// One `ping` probe for each user of `order` that has a handle in `peers`.
pub open spec fn probes_for(order: Seq<Seq<char>>, peers: Map<Seq<char>, Handle>) -> Seq<ProbeView> {
    reachable(order, peers).map_values(
        |user: Seq<char>| ProbeView { user, to: peers[user], text: spec_ping() },
    )
}

impl Registry {
    /// `user` is already a member of `room`, or already has a handle.
    pub open spec fn has_prior_session(self, room: Seq<char>, user: Seq<char>) -> bool {
        self.members(room).contains(user) || self.peers.contains_key(user)
    }

    /// What is left of the earlier session of `user` is removed: its handle,
    /// and its membership of `room`.
    pub open spec fn supersede(self, room: Seq<char>, user: Seq<char>) -> Registry {
        self.unregister(user).leave(room, user)
    }

    /// A member is broken if it has no handle, or if its probe failed.
    pub open spec fn is_broken(self, failed: Set<Seq<char>>, member: Seq<char>) -> bool {
        !self.peers.contains_key(member) || failed.contains(member)
    }

    /// The members of `room` other than `user` that are broken.
    pub open spec fn broken(self, room: Seq<char>, user: Seq<char>, failed: Set<Seq<char>>) -> Set<
        Seq<char>,
    > {
        self.others(room, user).filter(|member: Seq<char>| self.is_broken(failed, member))
    }

    /// The users of `gone` lose their handles and their membership of
    /// `room`; the room goes with them if nobody is left.
    pub open spec fn evict(self, room: Seq<char>, gone: Set<Seq<char>>) -> Registry {
        let rest = self.members(room).difference(gone);
        Registry {
            rooms: if rest.len() == 0 {
                self.rooms.remove(room)
            } else {
                self.rooms.insert(room, rest)
            },
            peers: self.peers.remove_keys(gone),
        }
    }
}

/// The users of `order` that are not broken.
pub open spec fn responsive(reg: Registry, failed: Set<Seq<char>>, order: Seq<Seq<char>>) -> Seq<
    Seq<char>,
>
    decreases order.len(),
{
    if order.len() == 0 {
        order
    } else if reg.is_broken(failed, order.last()) {
        responsive(reg, failed, order.drop_last())
    } else {
        responsive(reg, failed, order.drop_last()).push(order.last())
    }
}

/// The users of `order` that are broken.
pub open spec fn unresponsive(reg: Registry, failed: Set<Seq<char>>, order: Seq<Seq<char>>) -> Seq<
    Seq<char>,
>
    decreases order.len(),
{
    if order.len() == 0 {
        order
    } else if reg.is_broken(failed, order.last()) {
        unresponsive(reg, failed, order.drop_last()).push(order.last())
    } else {
        unresponsive(reg, failed, order.drop_last())
    }
}

/// For each user of `gone`, in order, one `user_disconnected` notice to each
/// user of `live` that has a handle.
pub open spec fn eviction_notices(
    gone: Seq<Seq<char>>,
    live: Seq<Seq<char>>,
    peers: Map<Seq<char>, Handle>,
    room: Seq<char>,
) -> Seq<ActionView>
    decreases gone.len(),
{
    if gone.len() == 0 {
        Seq::empty()
    } else {
        eviction_notices(gone.drop_last(), live, peers, room) + fan_out(
            live,
            peers,
            seq![spec_user_disconnected_notice(gone.last(), room)],
        )
    }
}

/// What the superseded connection of `user` is sent: the conflict notice, on
/// the handle that `user` had; nothing if it had none.
pub open spec fn conflict_actions(reg: Registry, room: Seq<char>, user: Seq<char>) -> Seq<
    ActionView,
> {
    match reg.handle_of(user) {
        Some(to) => seq![ActionView::Send { to, text: spec_session_conflict_notice(user, room) }],
        None => Seq::empty(),
    }
}

/// The broken users of a list are those of the set it enumerates.
pub proof fn lemma_unresponsive_set(
    reg: Registry,
    failed: Set<Seq<char>>,
    order: Seq<Seq<char>>,
    set: Set<Seq<char>>,
)
    requires
        enumerates(order, set),
    ensures
        enumerates(
            unresponsive(reg, failed, order),
            set.filter(|member: Seq<char>| reg.is_broken(failed, member)),
        ),
{
    lemma_unresponsive(reg, failed, order);
    let pred = |member: Seq<char>| reg.is_broken(failed, member);
    assert(unresponsive(reg, failed, order).to_set() =~= set.filter(pred));
}

proof fn lemma_unresponsive(reg: Registry, failed: Set<Seq<char>>, order: Seq<Seq<char>>)
    ensures
        forall|m: Seq<char>|
            unresponsive(reg, failed, order).to_set().contains(m) <==> (order.to_set().contains(m)
                && reg.is_broken(failed, m)),
        order.no_duplicates() ==> unresponsive(reg, failed, order).no_duplicates(),
    decreases order.len(),
{
    if order.len() > 0 {
        let init = order.drop_last();
        let last = order.last();
        lemma_unresponsive(reg, failed, init);
        assert(order == init.push(last));
        init.lemma_push_to_set_commute(last);
        let gone = unresponsive(reg, failed, init);
        if reg.is_broken(failed, last) {
            gone.lemma_push_to_set_commute(last);
            if order.no_duplicates() {
                assert(!gone.contains(last));
            }
        }
    }
}

impl AppState {
    /// Whether a join of `room` by `user` meets a prior session of `user`.
    pub fn has_prior_session(&self, room: &str, user: &str) -> (found: bool)
        ensures
            found == self@.has_prior_session(room@, user@),
    {
        let in_room = self.is_member(room, user);
        let has_handle = self.peer(user).is_some();
        in_room || has_handle
    }

    /// Evicts what is left of the earlier session of `user`: unregisters its
    /// handle and removes it from `room`. The result tells the superseded
    /// connection, if there was one.
    pub fn cleanup_user_session(&mut self, user: &str, room: &str) -> (actions: Vec<Action>)
        requires
            old(self).wf(),
        ensures
            final(self)@ == old(self)@.supersede(room@, user@),
            final(self).wf(),
            views(actions@) == conflict_actions(old(self)@, room@, user@),
    {
        let mut actions: Vec<Action> = Vec::new();
        match self.unregister_peer(user) {
            Some(to) => {
                actions.push(Action::Send { to, text: session_conflict_notice(user, room) });
            },
            None => {},
        }
        self.leave_room(room, user);
        actions
    }

    /// The probes for the members of `room` other than `user`: one for each
    /// that has a handle, in some order of the members.
    pub fn probe_targets(&self, room: &str, user: &str) -> (probes: Vec<Probe>)
        ensures
            exists|order: Seq<Seq<char>>|
                enumerates(order, self@.others(room@, user@)) && probe_views(probes@)
                    == #[trigger] probes_for(order, self@.peers),
    {
        let targets = self.members_except(room, user);
        let ghost order = names(targets@);
        let mut probes: Vec<Probe> = Vec::new();
        let mut i: usize = 0;
        while i < targets.len()
            invariant
                i <= targets.len(),
                order == names(targets@),
                probe_views(probes@) == probes_for(order.take(i as int), self@.peers),
            decreases targets.len() - i,
        {
            proof {
                assert(order.take(i + 1).drop_last() == order.take(i as int));
            }
            match self.peer(targets[i].as_str()) {
                Some(to) => {
                    probes.push(Probe { user: targets[i].clone(), to, text: ping_probe() });
                    proof {
                        let p = ProbeView { user: targets@[i as int]@, to, text: spec_ping() };
                        assert(probes_for(order.take(i + 1), self@.peers) == probes_for(
                            order.take(i as int),
                            self@.peers,
                        ).push(p));
                    }
                },
                None => {},
            }
            i += 1;
        }
        assert(order.take(targets.len() as int) == order);
        probes
    }

    /// Evicts the broken members of `room`: every member other than
    /// `joining_user` that has no handle, or that is named in `failed`, the
    /// users whose probe the transport could not deliver. Each loses its
    /// handle and its membership. For each evicted member, in turn, every
    /// member that is not broken gets one `user_disconnected` notice.
    pub fn cleanup_problematic_connections_in_room(
        &mut self,
        room: &str,
        joining_user: &str,
        failed: &Vec<String>,
    ) -> (sweep: Sweep)
        requires
            old(self).wf(),
        ensures
            final(self).wf(),
            final(self)@ == old(self)@.evict(
                room@,
                old(self)@.broken(room@, joining_user@, names(failed@).to_set()),
            ),
            enumerates(
                names(sweep.evicted@),
                old(self)@.broken(room@, joining_user@, names(failed@).to_set()),
            ),
            exists|order: Seq<Seq<char>>|
                enumerates(order, old(self)@.others(room@, joining_user@)) && names(sweep.evicted@)
                    == #[trigger] unresponsive(old(self)@, names(failed@).to_set(), order)
                    && views(sweep.actions@) == eviction_notices(
                    names(sweep.evicted@),
                    responsive(old(self)@, names(failed@).to_set(), order),
                    old(self)@.peers,
                    room@,
                ),
    {
        let members = self.members_except(room, joining_user);
        let ghost reg = self@;
        let ghost order = names(members@);
        let ghost failed_set = names(failed@).to_set();
        // Sort the members into those that respond and those that do not.
        let mut gone: Vec<String> = Vec::new();
        let mut live: Vec<String> = Vec::new();
        let mut i: usize = 0;
        while i < members.len()
            invariant
                i <= members.len(),
                order == names(members@),
                reg == self@,
                failed_set == names(failed@).to_set(),
                names(gone@) == unresponsive(reg, failed_set, order.take(i as int)),
                names(live@) == responsive(reg, failed_set, order.take(i as int)),
            decreases members.len() - i,
        {
            proof {
                assert(order.take(i + 1).drop_last() == order.take(i as int));
            }
            let has_handle = self.peer(members[i].as_str()).is_some();
            let probe_failed = contains_name(failed, members[i].as_str());
            if !has_handle || probe_failed {
                gone.push(members[i].clone());
            } else {
                live.push(members[i].clone());
            }
            i += 1;
        }
        assert(order.take(members.len() as int) == order);
        // Tell the members that respond about each member that does not.
        let mut actions: Vec<Action> = Vec::new();
        let mut k: usize = 0;
        while k < gone.len()
            invariant
                k <= gone.len(),
                reg == self@,
                views(actions@) == eviction_notices(
                    names(gone@).take(k as int),
                    names(live@),
                    reg.peers,
                    room@,
                ),
            decreases gone.len() - k,
        {
            proof {
                assert(names(gone@).take(k + 1).drop_last() == names(gone@).take(k as int));
            }
            let mut texts: Vec<String> = Vec::new();
            texts.push(user_disconnected_notice(gone[k].as_str(), room));
            assert(names(texts@) == seq![spec_user_disconnected_notice(gone@[k as int]@, room@)]);
            push_fan_out(self, &live, &texts, &mut actions);
            k += 1;
        }
        // Evict them.
        proof {
            lemma_unresponsive_set(reg, failed_set, order, reg.others(room@, joining_user@));
            assert(names(gone@).take(0).to_set() =~= Set::<Seq<char>>::empty());
            lemma_evict_none(reg, room@);
        }
        let mut n: usize = 0;
        while n < gone.len()
            invariant
                n <= gone.len(),
                reg.wf(),
                self.wf(),
                self@ == reg.evict(room@, names(gone@).take(n as int).to_set()),
            decreases gone.len() - n,
        {
            let ghost done = names(gone@).take(n as int).to_set();
            let ghost user = gone@[n as int]@;
            proof {
                assert(names(gone@).take(n + 1) == names(gone@).take(n as int).push(user));
                names(gone@).take(n as int).lemma_push_to_set_commute(user);
            }
            self.unregister_peer(gone[n].as_str());
            self.leave_room(room, gone[n].as_str());
            proof {
                lemma_evict_one_more(reg, room@, done, user);
            }
            n += 1;
        }
        assert(names(gone@).take(gone.len() as int) == names(gone@));
        Sweep { evicted: gone, actions }
    }
}

/// Evicting nobody changes nothing.
pub proof fn lemma_evict_none(reg: Registry, room: Seq<char>)
    requires
        reg.wf(),
    ensures
        reg.evict(room, Set::empty()) == reg,
{
    let rest = reg.members(room).difference(Set::empty());
    assert(rest =~= reg.members(room));
}

/// Evicting a set of users and then one more is evicting them together.
pub proof fn lemma_evict_one_more(
    reg: Registry,
    room: Seq<char>,
    gone: Set<Seq<char>>,
    user: Seq<char>,
)
    requires
        reg.wf(),
    ensures
        reg.evict(room, gone).supersede(room, user) == reg.evict(room, gone.insert(user)),
{
    let mid = reg.evict(room, gone);
    let rest = reg.members(room).difference(gone);
    assert(mid.members(room) =~= rest) by {
        if rest.len() == 0 {
            rest.lemma_len0_is_empty();
        }
    }
    assert(mid.unregister(user).others(room, user) =~= reg.members(room).difference(
        gone.insert(user),
    ));
}

} // verus!
