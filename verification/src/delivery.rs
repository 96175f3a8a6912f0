//! What the relay asks the transport to do.
//!
//! The relay never touches a socket. Each of its operations returns the
//! `Action`s that follow from it, in the order in which they are to be carried
//! out; the transport performs them. Sending is best effort: a user without a
//! registered handle is passed over, and a send that the transport cannot
//! complete is the transport's to log, never an error of the relay.
use crate::state::{AppState, Handle};
use crate::text::{enumerates, names};
use vstd::prelude::*;

verus! {

/// One thing for the transport to do.
#[derive(Debug, PartialEq, Eq)]
pub enum Action {
    /// Write `text` to the connection that the event came from.
    Reply { text: String },
    /// Queue `text` on the delivery handle `to`, without waiting.
    Send { to: Handle, text: String },
    /// Answer a transport-level ping with an empty pong.
    Pong,
    /// Close the connection that the event came from.
    Stop,
}

/// The mathematical value of an `Action`.
pub enum ActionView {
    Reply { text: Seq<char> },
    Send { to: Handle, text: Seq<char> },
    Pong,
    Stop,
}

impl View for Action {
    type V = ActionView;

    open spec fn view(&self) -> ActionView {
        match self {
            Action::Reply { text } => ActionView::Reply { text: text@ },
            Action::Send { to, text } => ActionView::Send { to: *to, text: text@ },
            Action::Pong => ActionView::Pong,
            Action::Stop => ActionView::Stop,
        }
    }
}

/// The values of a list of actions.
pub open spec fn views(actions: Seq<Action>) -> Seq<ActionView> {
    actions.map_values(|a: Action| a@)
}

/// One send to `to` for each text, in the order of the texts.
pub open spec fn sends(to: Handle, texts: Seq<Seq<char>>) -> Seq<ActionView> {
    texts.map_values(|text: Seq<char>| ActionView::Send { to, text })
}

/// The sends that carry `texts` to the users of `order`, user after user.
/// A user without a handle in `peers` gets nothing.
pub open spec fn fan_out(
    order: Seq<Seq<char>>,
    peers: Map<Seq<char>, Handle>,
    texts: Seq<Seq<char>>,
) -> Seq<ActionView>
    decreases order.len(),
{
    if order.len() == 0 {
        Seq::empty()
    } else {
        let before = fan_out(order.drop_last(), peers, texts);
        if peers.contains_key(order.last()) {
            before + sends(peers[order.last()], texts)
        } else {
            before
        }
    }
}

/// The users of `order` that have a handle in `peers`.
pub open spec fn reachable(order: Seq<Seq<char>>, peers: Map<Seq<char>, Handle>) -> Seq<Seq<char>>
    decreases order.len(),
{
    if order.len() == 0 {
        order
    } else if peers.contains_key(order.last()) {
        reachable(order.drop_last(), peers).push(order.last())
    } else {
        reachable(order.drop_last(), peers)
    }
}

/// A fan-out holds one send per text for each user that can be reached.
pub proof fn lemma_fan_out_len(
    order: Seq<Seq<char>>,
    peers: Map<Seq<char>, Handle>,
    texts: Seq<Seq<char>>,
)
    ensures
        fan_out(order, peers, texts).len() == reachable(order, peers).len() * texts.len(),
        reachable(order, peers).len() <= order.len(),
        (forall|i: int| 0 <= i < order.len() ==> peers.contains_key(#[trigger] order[i]))
            ==> reachable(order, peers) == order,
    decreases order.len(),
{
    let t = texts.len() as int;
    if order.len() == 0 {
        assert(reachable(order, peers).len() * texts.len() == 0) by (nonlinear_arith)
            requires
                reachable(order, peers).len() == 0,
        ;
    } else {
        let init = order.drop_last();
        lemma_fan_out_len(init, peers, texts);
        let n = reachable(init, peers).len() as int;
        if peers.contains_key(order.last()) {
            assert((n + 1) * t == n * t + t) by (nonlinear_arith);
        }
    }
}

fn push_sends(to: Handle, texts: &Vec<String>, out: &mut Vec<Action>)
    ensures
        views(final(out)@) == views(old(out)@) + sends(to, names(texts@)),
{
    let ghost start = views(out@);
    let mut j: usize = 0;
    while j < texts.len()
        invariant
            j <= texts.len(),
            views(out@) == start + sends(to, names(texts@).take(j as int)),
        decreases texts.len() - j,
    {
        let ghost before = views(out@);
        out.push(Action::Send { to, text: texts[j].clone() });
        proof {
            let sent = ActionView::Send { to, text: texts@[j as int]@ };
            assert(views(out@) == before.push(sent));
        }
        j += 1;
    }
}

/// Appends to `out` the sends that carry `texts` to each user of `targets`
/// that has a registered handle.
pub(crate) fn push_fan_out(
    state: &AppState,
    targets: &Vec<String>,
    texts: &Vec<String>,
    out: &mut Vec<Action>,
)
    ensures
        views(final(out)@) == views(old(out)@) + fan_out(
            names(targets@),
            state@.peers,
            names(texts@),
        ),
{
    let ghost start = views(out@);
    let ghost order = names(targets@);
    let mut i: usize = 0;
    while i < targets.len()
        invariant
            i <= targets.len(),
            order == names(targets@),
            views(out@) == start + fan_out(order.take(i as int), state@.peers, names(texts@)),
        decreases targets.len() - i,
    {
        proof {
            assert(order.take(i + 1).drop_last() == order.take(i as int));
        }
        match state.peer(targets[i].as_str()) {
            Some(to) => {
                push_sends(to, texts, out);
            },
            None => {},
        }
        i += 1;
    }
    assert(order.take(targets.len() as int) == order);
}

impl AppState {
    /// The send that carries `text` to `user`, or nothing where `user` has no
    /// registered handle: the target is then unreachable and the text is
    /// dropped.
    pub fn send(&self, user: &str, text: String) -> (action: Option<Action>)
        ensures
            match self@.handle_of(user@) {
                Some(to) => action matches Some(a) && a@ == (ActionView::Send { to, text: text@ }),
                None => action is None,
            },
    {
        match self.peer(user) {
            Some(to) => Some(Action::Send { to, text }),
            None => None,
        }
    }

    /// The sends that carry `texts` to the members of `room` other than
    /// `user`: member after member, in some order of the members, the texts
    /// in their order.
    pub fn notify_others(&self, room: &str, user: &str, texts: &Vec<String>) -> (actions: Vec<
        Action,
    >)
        ensures
            exists|order: Seq<Seq<char>>|
                enumerates(order, self@.others(room@, user@)) && views(actions@)
                    == #[trigger] fan_out(order, self@.peers, names(texts@)),
    {
        let targets = self.members_except(room, user);
        let mut actions: Vec<Action> = Vec::new();
        push_fan_out(self, &targets, texts, &mut actions);
        actions
    }
}

} // verus!
