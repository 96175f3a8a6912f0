//! One connection and its protocol.
//!
//! A connection starts anonymous, becomes bound to a user id when it joins a
//! room, and ends closed. The transport feeds it what happens (a frame
//! arrived, the probes of a join are done, the connection ended) and carries
//! out the actions that it answers with. A connection handles one event at a
//! time; between two events the shared state may have changed under it, so
//! every step is specified for whatever state it finds.
use crate::codec::{opt_text, spec_decode, DecodeError, SignalMessage, SignalMessageView};
use crate::delivery::{fan_out, push_fan_out, views, Action, ActionView};
use crate::notice::{
    answer_relay, ice_relay, join_notice, leave_notice, offer_relay, pong_reply, spec_answer_relay,
    spec_ice_relay, spec_join_notice, spec_leave_notice, spec_offer_relay, spec_pong,
    spec_trigger_offer_notice, trigger_offer_notice,
};
use crate::reconcile::{
    conflict_actions, eviction_notices, responsive, unresponsive, SETTLE_MILLIS,
};
use crate::state::{AppState, Handle, Registry};
use crate::text::{enumerates, lemma_enumeration_len, names, text_eq};
use vstd::prelude::*;

verus! {

/// A frame as the transport hands it over.
#[derive(Debug, PartialEq, Eq)]
pub enum Frame {
    /// A text frame, which should hold one message.
    Text(String),
    /// A binary frame. The protocol has none.
    Binary,
    /// A transport-level ping.
    Ping,
    /// A transport-level pong.
    Pong,
    /// The peer closes the connection.
    Close,
    /// Any other frame, or a protocol error of the transport.
    Other,
}

/// The mathematical value of a `Frame`.
pub enum FrameView {
    Text(Seq<char>),
    Binary,
    Ping,
    Pong,
    Close,
    Other,
}

impl View for Frame {
    type V = FrameView;

    open spec fn view(&self) -> FrameView {
        match self {
            Frame::Text(text) => FrameView::Text(text@),
            Frame::Binary => FrameView::Binary,
            Frame::Ping => FrameView::Ping,
            Frame::Pong => FrameView::Pong,
            Frame::Close => FrameView::Close,
            Frame::Other => FrameView::Other,
        }
    }
}

/// What an event turned out to be, for the log. None of these is an error
/// of the relay, and none ends the service.
#[derive(Debug, Clone, Copy, PartialEq, Eq, Structural)]
pub enum Finding {
    /// Nothing to report.
    Clean,
    /// The connection is closed; the event was ignored.
    Closed,
    /// The text frame is no message; it was dropped.
    Malformed(DecodeError),
    /// A binary frame; it was dropped.
    BinaryFrame,
    /// A frame that the protocol has no use for; it was dropped.
    UnhandledFrame,
    /// The target of a relayed message has no handle; the message was dropped.
    UnreachableTarget,
    /// A client sent a message that only the server sends; it was dropped.
    ProtocolMisuse,
    /// A leave named another session than the connection's; it was carried
    /// out all the same.
    SessionMismatch,
    /// A join met a prior session of the same user, which was evicted.
    SessionConflict,
    /// A join found members whose connections do not respond; they were
    /// evicted.
    BrokenPeers,
}

/// A join that met a prior session and is not finished yet. The transport
/// waits `pause_millis`, asks `AppState::probe_targets` for the probes of the
/// room, sends them, and hands the users whose probe failed to
/// `WsConn::finish_join`.
#[derive(Debug, PartialEq, Eq)]
pub struct Reconcile {
    pub room: String,
    pub user: String,
    pub pause_millis: u64,
}

/// The mathematical value of a `Reconcile`.
pub struct ReconcileView {
    pub room: Seq<char>,
    pub user: Seq<char>,
    pub pause_millis: u64,
}

impl View for Reconcile {
    type V = ReconcileView;

    open spec fn view(&self) -> ReconcileView {
        ReconcileView { room: self.room@, user: self.user@, pause_millis: self.pause_millis }
    }
}

/// The answer of a connection to an event.
#[derive(Debug, PartialEq, Eq)]
pub struct Reaction {
    /// What the transport is to do, in this order.
    pub actions: Vec<Action>,
    /// What the event turned out to be.
    pub finding: Finding,
    /// Set when a join has to be reconciled before it can be finished.
    pub reconcile: Option<Reconcile>,
}

/// The mathematical value of a `Reaction`.
pub struct ReactionView {
    pub actions: Seq<ActionView>,
    pub finding: Finding,
    pub reconcile: Option<ReconcileView>,
}

impl View for Reaction {
    type V = ReactionView;

    open spec fn view(&self) -> ReactionView {
        ReactionView {
            actions: views(self.actions@),
            finding: self.finding,
            reconcile: match self.reconcile {
                Some(r) => Some(r@),
                None => None,
            },
        }
    }
}

/// The reaction that asks for nothing.
pub open spec fn quiet(finding: Finding) -> ReactionView {
    ReactionView { actions: Seq::empty(), finding, reconcile: None }
}

/// One connection: its delivery handle, and the identity it is bound to once
/// it has joined.
#[derive(Debug, PartialEq, Eq)]
pub struct WsConn {
    /// The handle by which this connection is reached.
    pub handle: Handle,
    /// The user id that the connection is bound to.
    pub id: Option<String>,
    /// The session token that the client gave when it joined.
    pub session_id: Option<String>,
    /// Whether the teardown has run.
    pub closed: bool,
}

/// The mathematical value of a `WsConn`.
pub struct ConnView {
    pub handle: Handle,
    pub id: Option<Seq<char>>,
    pub session_id: Option<Seq<char>>,
    pub closed: bool,
}

impl View for WsConn {
    type V = ConnView;

    open spec fn view(&self) -> ConnView {
        ConnView {
            handle: self.handle,
            id: opt_text(self.id),
            session_id: opt_text(self.session_id),
            closed: self.closed,
        }
    }
}

/// What a newcomer's admission sends: the confirmation to the newcomer, then
/// the join notice and the instruction to start the handshake to each user of
/// `order` that has a handle.
pub open spec fn admission(
    order: Seq<Seq<char>>,
    peers: Map<Seq<char>, Handle>,
    room: Seq<char>,
    user: Seq<char>,
) -> Seq<ActionView> {
    seq![ActionView::Reply { text: spec_join_notice(user, room) }] + fan_out(
        order,
        peers,
        seq![spec_join_notice(user, room), spec_trigger_offer_notice(user, room)],
    )
}

/// `user` was admitted to `room` over the handle `handle`: it is a member,
/// the handle is its one handle, it got its confirmation, and the other
/// members were told, in some order.
pub open spec fn admitted(
    before: Registry,
    after: Registry,
    handle: Handle,
    room: Seq<char>,
    user: Seq<char>,
    actions: Seq<ActionView>,
) -> bool {
    &&& after == before.join(room, user).register(user, handle)
    &&& exists|order: Seq<Seq<char>>|
        enumerates(order, after.others(room, user)) && actions == #[trigger] admission(
            order,
            after.peers,
            room,
            user,
        )
}

/// `user` has left `room` and lost its handle, and the members that remain
/// were told, in some order.
pub open spec fn departed(
    before: Registry,
    after: Registry,
    room: Seq<char>,
    user: Seq<char>,
    actions: Seq<ActionView>,
) -> bool {
    &&& after == before.leave(room, user).unregister(user)
    &&& exists|order: Seq<Seq<char>>|
        enumerates(order, after.others(room, user)) && actions == #[trigger] fan_out(
            order,
            after.peers,
            seq![spec_leave_notice(user, room)],
        )
}

/// The reaction to a message that is relayed to `to`: one send of `text` if
/// `to` has a handle, and else the finding that it is unreachable.
pub open spec fn relay_reaction(reg: Registry, to: Seq<char>, text: Seq<char>) -> ReactionView {
    match reg.handle_of(to) {
        Some(handle) => ReactionView {
            actions: seq![ActionView::Send { to: handle, text }],
            finding: Finding::Clean,
            reconcile: None,
        },
        None => quiet(Finding::UnreachableTarget),
    }
}

/// A leave names a session, the connection has one, and they differ.
pub open spec fn session_mismatch(bound: Option<Seq<char>>, given: Option<Seq<char>>) -> bool {
    bound matches Some(b) && given matches Some(g) && b != g
}

/// Nothing has changed, and the reaction asks for nothing.
pub open spec fn ignored(
    conn: ConnView,
    reg: Registry,
    conn_after: ConnView,
    reg_after: Registry,
    r: ReactionView,
    finding: Finding,
) -> bool {
    conn_after == conn && reg_after == reg && r == quiet(finding)
}

/// What handling a message does. A closed connection ignores it.
pub open spec fn signal_post(
    conn: ConnView,
    reg: Registry,
    msg: SignalMessageView,
    conn_after: ConnView,
    reg_after: Registry,
    r: ReactionView,
) -> bool {
    if conn.closed {
        ignored(conn, reg, conn_after, reg_after, r, Finding::Closed)
    } else {
        open_signal_post(conn, reg, msg, conn_after, reg_after, r)
    }
}

/// What handling a message does to a connection that is not closed.
pub open spec fn open_signal_post(
    conn: ConnView,
    reg: Registry,
    msg: SignalMessageView,
    conn_after: ConnView,
    reg_after: Registry,
    r: ReactionView,
) -> bool {
    match msg {
        SignalMessageView::Join { room, user, session_id } => {
            &&& conn_after == ConnView { id: Some(user), session_id, ..conn }
            &&& if reg.has_prior_session(room, user) {
                &&& reg_after == reg.supersede(room, user)
                &&& r == ReactionView {
                    actions: conflict_actions(reg, room, user),
                    finding: Finding::SessionConflict,
                    reconcile: Some(ReconcileView { room, user, pause_millis: SETTLE_MILLIS }),
                }
            } else {
                &&& admitted(reg, reg_after, conn.handle, room, user, r.actions)
                &&& r.finding == Finding::Clean
                &&& r.reconcile is None
            }
        },
        SignalMessageView::Leave { room, user, session_id } => {
            &&& conn_after == conn
            &&& departed(reg, reg_after, room, user, r.actions)
            &&& r.finding == if session_mismatch(conn.session_id, session_id) {
                Finding::SessionMismatch
            } else {
                Finding::Clean
            }
            &&& r.reconcile is None
        },
        SignalMessageView::Offer { to, from, sdp } => {
            &&& conn_after == conn
            &&& reg_after == reg
            &&& r == relay_reaction(reg, to, spec_offer_relay(from, sdp))
        },
        SignalMessageView::Answer { to, from, sdp } => {
            &&& conn_after == conn
            &&& reg_after == reg
            &&& r == relay_reaction(reg, to, spec_answer_relay(from, sdp))
        },
        SignalMessageView::Ice { to, from, candidate } => {
            &&& conn_after == conn
            &&& reg_after == reg
            &&& r == relay_reaction(reg, to, spec_ice_relay(from, candidate))
        },
        SignalMessageView::TriggerOffer { .. } => ignored(
            conn,
            reg,
            conn_after,
            reg_after,
            r,
            Finding::ProtocolMisuse,
        ),
        SignalMessageView::Ping => {
            &&& conn_after == conn
            &&& reg_after == reg
            &&& r == ReactionView {
                actions: seq![ActionView::Reply { text: spec_pong() }],
                finding: Finding::Clean,
                reconcile: None,
            }
        },
    }
}

/// What handling a frame does. A closed connection ignores it. A text frame
/// is handled as the message that it decodes to, and ignored where it is no
/// message; of the other frames, only a ping and a close are acted on.
pub open spec fn frame_post(
    conn: ConnView,
    reg: Registry,
    frame: FrameView,
    conn_after: ConnView,
    reg_after: Registry,
    r: ReactionView,
) -> bool {
    if conn.closed {
        ignored(conn, reg, conn_after, reg_after, r, Finding::Closed)
    } else {
        match frame {
            FrameView::Text(text) => match spec_decode(text) {
                Ok(msg) => open_signal_post(conn, reg, msg, conn_after, reg_after, r),
                Err(e) => ignored(conn, reg, conn_after, reg_after, r, Finding::Malformed(e)),
            },
            FrameView::Binary => ignored(conn, reg, conn_after, reg_after, r, Finding::BinaryFrame),
            FrameView::Ping => conn_after == conn && reg_after == reg && r == ReactionView {
                actions: seq![ActionView::Pong],
                finding: Finding::Clean,
                reconcile: None,
            },
            FrameView::Pong => ignored(conn, reg, conn_after, reg_after, r, Finding::Clean),
            FrameView::Close => conn_after == conn && reg_after == reg && r == ReactionView {
                actions: seq![ActionView::Stop],
                finding: Finding::Clean,
                reconcile: None,
            },
            FrameView::Other => ignored(
                conn,
                reg,
                conn_after,
                reg_after,
                r,
                Finding::UnhandledFrame,
            ),
        }
    }
}

/// What finishing a join does. A closed connection does nothing.
pub open spec fn join_finished(
    conn: ConnView,
    reg: Registry,
    room: Seq<char>,
    user: Seq<char>,
    failed: Set<Seq<char>>,
    conn_after: ConnView,
    reg_after: Registry,
    r: ReactionView,
) -> bool {
    if conn.closed {
        ignored(conn, reg, conn_after, reg_after, r, Finding::Closed)
    } else {
        open_join_finished(conn, reg, room, user, failed, conn_after, reg_after, r)
    }
}

/// What finishing a join does to a connection that is not closed: the broken
/// members of the room are evicted and the others told, then the joiner is
/// admitted.
pub open spec fn open_join_finished(
    conn: ConnView,
    reg: Registry,
    room: Seq<char>,
    user: Seq<char>,
    failed: Set<Seq<char>>,
    conn_after: ConnView,
    reg_after: Registry,
    r: ReactionView,
) -> bool {
    let gone = reg.broken(room, user, failed);
    &&& conn_after == ConnView { id: Some(user), ..conn }
    &&& r.finding == if gone.len() > 0 {
        Finding::BrokenPeers
    } else {
        Finding::Clean
    }
    &&& r.reconcile is None
    &&& reg_after == reg.evict(room, gone).join(room, user).register(user, conn.handle)
    &&& exists|order: Seq<Seq<char>>, arrival: Seq<Seq<char>>|
        enumerates(order, reg.others(room, user)) && enumerates(
            arrival,
            reg_after.others(room, user),
        ) && r.actions == eviction_notices(
            #[trigger] unresponsive(reg, failed, order),
            responsive(reg, failed, order),
            reg.peers,
            room,
        ) + #[trigger] admission(arrival, reg_after.peers, room, user)
}

/// For each room of `rooms`, in order, one leave notice about `user` to each
/// user of the matching list of `members` that has a handle.
pub open spec fn teardown_notices(
    rooms: Seq<Seq<char>>,
    members: Seq<Seq<Seq<char>>>,
    peers: Map<Seq<char>, Handle>,
    user: Seq<char>,
) -> Seq<ActionView>
    decreases rooms.len(),
{
    if rooms.len() == 0 {
        Seq::empty()
    } else {
        teardown_notices(rooms.drop_last(), members.drop_last(), peers, user) + fan_out(
            members.last(),
            peers,
            seq![spec_leave_notice(user, rooms.last())],
        )
    }
}

/// What a teardown does. On a closed connection it does nothing: a
/// teardown runs once.
pub open spec fn torn_down(
    conn: ConnView,
    reg: Registry,
    conn_after: ConnView,
    reg_after: Registry,
    actions: Seq<ActionView>,
) -> bool {
    if conn.closed {
        conn_after == conn && reg_after == reg && actions == Seq::<ActionView>::empty()
    } else {
        open_torn_down(conn, reg, conn_after, reg_after, actions)
    }
}

/// What the teardown of a connection that is not closed does: the connection
/// is closed; if it was bound, its user loses its handle and leaves every
/// room, and for each room that it was in, the members that remain are told.
pub open spec fn open_torn_down(
    conn: ConnView,
    reg: Registry,
    conn_after: ConnView,
    reg_after: Registry,
    actions: Seq<ActionView>,
) -> bool {
    &&& conn_after == ConnView { closed: true, ..conn }
    &&& match conn.id {
        None => reg_after == reg && actions == Seq::<ActionView>::empty(),
        Some(user) => {
            &&& reg_after == reg.unregister(user).leave_all(user)
            &&& exists|rooms: Seq<Seq<char>>, members: Seq<Seq<Seq<char>>>|
                enumerates(rooms, reg.rooms_of(user)) && members.len() == rooms.len() && (forall|
                    i: int,
                |
                    0 <= i < rooms.len() ==> enumerates(
                        #[trigger] members[i],
                        reg_after.others(rooms[i], user),
                    )) && actions == #[trigger] teardown_notices(
                    rooms,
                    members,
                    reg_after.peers,
                    user,
                )
        },
    }
}

fn quiet_reaction(finding: Finding) -> (r: Reaction)
    ensures
        r@ == quiet(finding),
{
    let r = Reaction { actions: Vec::new(), finding, reconcile: None };
    assert(r@.actions =~= Seq::<ActionView>::empty());
    r
}

fn relay_to(state: &AppState, to: &str, text: String) -> (r: Reaction)
    ensures
        r@ == relay_reaction(state@, to@, text@),
{
    match state.send(to, text) {
        Some(action) => {
            let mut actions: Vec<Action> = Vec::new();
            actions.push(action);
            let r = Reaction { actions, finding: Finding::Clean, reconcile: None };
            assert(r@.actions =~= seq![action@]);
            r
        },
        None => quiet_reaction(Finding::UnreachableTarget),
    }
}

fn differs(bound: &Option<String>, given: &Option<String>) -> (r: bool)
    ensures
        r == session_mismatch(opt_text(*bound), opt_text(*given)),
{
    match bound {
        Some(b) => match given {
            Some(g) => !text_eq(b.as_str(), g.as_str()),
            None => false,
        },
        None => false,
    }
}

impl WsConn {
    /// A new connection, reached by `handle`: anonymous and open.
    pub fn new(handle: Handle) -> (conn: WsConn)
        ensures
            conn@ == (ConnView { handle, id: None, session_id: None, closed: false }),
    {
        WsConn { handle, id: None, session_id: None, closed: false }
    }

    /// Admits `user` to `room` over this connection's handle: adds it to the
    /// room, registers the handle in place of any other, confirms the join
    /// to the joiner and, where the room has other members, tells each of
    /// them and has each start the handshake with the newcomer.
    pub fn welcome(&self, state: &mut AppState, room: &str, user: &str) -> (actions: Vec<Action>)
        requires
            old(state).wf(),
        ensures
            final(state).wf(),
            admitted(old(state)@, final(state)@, self.handle, room@, user@, views(actions@)),
    {
        let count = state.join_room(room, user);
        state.register_peer(user, self.handle);
        let mut actions: Vec<Action> = Vec::new();
        actions.push(Action::Reply { text: join_notice(user, room) });
        if count > 1 {
            let targets = state.members_except(room, user);
            let mut texts: Vec<String> = Vec::new();
            texts.push(join_notice(user, room));
            texts.push(trigger_offer_notice(user, room));
            assert(names(texts@) =~= seq![
                spec_join_notice(user@, room@),
                spec_trigger_offer_notice(user@, room@),
            ]);
            push_fan_out(state, &targets, &texts, &mut actions);
            assert(views(actions@) == admission(names(targets@), state@.peers, room@, user@));
        } else {
            proof {
                let order = Seq::<Seq<char>>::empty();
                state@.others(room@, user@).lemma_len0_is_empty();
                assert(order.to_set() =~= state@.others(room@, user@));
                assert(views(actions@) =~= admission(order, state@.peers, room@, user@));
            }
        }
        actions
    }

    /// Handles one message of the client.
    ///
    /// A join binds the connection to the user. If it meets a prior session
    /// of that user, the stale entries are evicted, the superseded connection
    /// is told, and the reaction asks for the join to be reconciled; else the
    /// user is admitted at once. A leave is carried out whatever session it
    /// names. An offer, an answer or a candidate is passed on to its target
    /// as it is, or dropped if the target has no handle. A ping is answered;
    /// a message that only the server sends is dropped. A closed connection
    /// ignores every message.
    pub fn handle_signal(&mut self, state: &mut AppState, msg: SignalMessage) -> (r: Reaction)
        requires
            old(state).wf(),
        ensures
            final(state).wf(),
            signal_post(old(self)@, old(state)@, msg@, final(self)@, final(state)@, r@),
    {
        if self.closed {
            return quiet_reaction(Finding::Closed);
        }
        match msg {
            SignalMessage::Join { room, user, session_id } => {
                let conflict = state.has_prior_session(room.as_str(), user.as_str());
                let r = if conflict {
                    let actions = state.cleanup_user_session(user.as_str(), room.as_str());
                    Reaction {
                        actions,
                        finding: Finding::SessionConflict,
                        reconcile: Some(
                            Reconcile {
                                room,
                                user: user.clone(),
                                pause_millis: SETTLE_MILLIS,
                            },
                        ),
                    }
                } else {
                    let actions = self.welcome(state, room.as_str(), user.as_str());
                    Reaction { actions, finding: Finding::Clean, reconcile: None }
                };
                self.id = Some(user);
                self.session_id = session_id;
                r
            },
            SignalMessage::Leave { room, user, session_id } => {
                let mismatch = differs(&self.session_id, &session_id);
                state.leave_room(room.as_str(), user.as_str());
                state.unregister_peer(user.as_str());
                let mut texts: Vec<String> = Vec::new();
                texts.push(leave_notice(user.as_str(), room.as_str()));
                assert(names(texts@) =~= seq![spec_leave_notice(user@, room@)]);
                let actions = state.notify_others(room.as_str(), user.as_str(), &texts);
                Reaction {
                    actions,
                    finding: if mismatch {
                        Finding::SessionMismatch
                    } else {
                        Finding::Clean
                    },
                    reconcile: None,
                }
            },
            SignalMessage::Offer { to, from, sdp } => relay_to(
                state,
                to.as_str(),
                offer_relay(from.as_str(), sdp.as_str()),
            ),
            SignalMessage::Answer { to, from, sdp } => relay_to(
                state,
                to.as_str(),
                answer_relay(from.as_str(), sdp.as_str()),
            ),
            SignalMessage::Ice { to, from, candidate } => relay_to(
                state,
                to.as_str(),
                ice_relay(from.as_str(), candidate.as_str()),
            ),
            SignalMessage::TriggerOffer { .. } => quiet_reaction(Finding::ProtocolMisuse),
            SignalMessage::Ping => {
                let mut actions: Vec<Action> = Vec::new();
                actions.push(Action::Reply { text: pong_reply() });
                let r = Reaction { actions, finding: Finding::Clean, reconcile: None };
                assert(r@.actions =~= seq![ActionView::Reply { text: spec_pong() }]);
                r
            },
        }
    }

    /// Handles one frame. A text frame is decoded and handled as a message;
    /// a text that is no message is dropped. A transport-level ping is
    /// answered with a pong, a close frame stops the connection, and every
    /// other frame is dropped. Nothing here closes the connection but the
    /// peer's own close frame.
    pub fn handle(&mut self, state: &mut AppState, frame: Frame) -> (r: Reaction)
        requires
            old(state).wf(),
        ensures
            final(state).wf(),
            frame_post(old(self)@, old(state)@, frame@, final(self)@, final(state)@, r@),
    {
        if self.closed {
            return quiet_reaction(Finding::Closed);
        }
        match frame {
            Frame::Text(text) => match SignalMessage::decode(text.as_str()) {
                Ok(msg) => self.handle_signal(state, msg),
                Err(e) => quiet_reaction(Finding::Malformed(e)),
            },
            Frame::Binary => quiet_reaction(Finding::BinaryFrame),
            Frame::Ping => {
                let mut actions: Vec<Action> = Vec::new();
                actions.push(Action::Pong);
                let r = Reaction { actions, finding: Finding::Clean, reconcile: None };
                assert(r@.actions =~= seq![ActionView::Pong]);
                r
            },
            Frame::Pong => quiet_reaction(Finding::Clean),
            Frame::Close => {
                let mut actions: Vec<Action> = Vec::new();
                actions.push(Action::Stop);
                let r = Reaction { actions, finding: Finding::Clean, reconcile: None };
                assert(r@.actions =~= seq![ActionView::Stop]);
                r
            },
            Frame::Other => quiet_reaction(Finding::UnhandledFrame),
        }
    }

    /// Finishes a join that had to be reconciled. `failed` names the users
    /// whose probe the transport could not deliver. The broken members of
    /// the room are evicted and the members that respond are told; then the
    /// joiner is admitted. A closed connection does nothing.
    pub fn finish_join(
        &mut self,
        state: &mut AppState,
        room: &str,
        user: &str,
        failed: &Vec<String>,
    ) -> (r: Reaction)
        requires
            old(state).wf(),
        ensures
            final(state).wf(),
            join_finished(
                old(self)@,
                old(state)@,
                room@,
                user@,
                names(failed@).to_set(),
                final(self)@,
                final(state)@,
                r@,
            ),
    {
        if self.closed {
            return quiet_reaction(Finding::Closed);
        }
        let sweep = state.cleanup_problematic_connections_in_room(room, user, failed);
        let ghost notices = views(sweep.actions@);
        let finding = if sweep.evicted.len() > 0 {
            Finding::BrokenPeers
        } else {
            Finding::Clean
        };
        proof {
            lemma_enumeration_len(
                names(sweep.evicted@),
                old(state)@.broken(room@, user@, names(failed@).to_set()),
            );
        }
        let mut actions = sweep.actions;
        let mut greeting = self.welcome(state, room, user);
        let ghost welcome_views = views(greeting@);
        actions.append(&mut greeting);
        self.id = Some(user.to_owned());
        let r = Reaction { actions, finding, reconcile: None };
        proof {
            let reg = old(state)@;
            let failed_set = names(failed@).to_set();
            let order = choose|order: Seq<Seq<char>>|
                enumerates(order, reg.others(room@, user@)) && names(sweep.evicted@)
                    == #[trigger] unresponsive(reg, failed_set, order) && notices
                    == eviction_notices(
                    names(sweep.evicted@),
                    responsive(reg, failed_set, order),
                    reg.peers,
                    room@,
                );
            let arrival = choose|arrival: Seq<Seq<char>>|
                enumerates(arrival, state@.others(room@, user@)) && welcome_views
                    == #[trigger] admission(arrival, state@.peers, room@, user@);
            assert(r@.actions =~= eviction_notices(
                unresponsive(reg, failed_set, order),
                responsive(reg, failed_set, order),
                reg.peers,
                room@,
            ) + admission(arrival, state@.peers, room@, user@));
        }
        r
    }

    /// Tears the connection down, however it ended. If it was bound, its
    /// user is unregistered and removed from every room it is found in, and
    /// the members that remain in each of these rooms are told. This goes by
    /// the user id alone: the handle that is registered for the user is
    /// removed whichever connection registered it. The teardown runs once: on
    /// a closed connection it does nothing.
    pub fn stopped(&mut self, state: &mut AppState) -> (actions: Vec<Action>)
        requires
            old(state).wf(),
        ensures
            final(state).wf(),
            final(self).closed,
            torn_down(old(self)@, old(state)@, final(self)@, final(state)@, views(actions@)),
    {
        let mut actions: Vec<Action> = Vec::new();
        if self.closed {
            assert(views(actions@) =~= Seq::<ActionView>::empty());
            return actions;
        }
        self.closed = true;
        match &self.id {
            None => {
                assert(views(actions@) =~= Seq::<ActionView>::empty());
            },
            Some(id) => {
                state.unregister_peer(id.as_str());
                let left = state.leave_all_rooms(id.as_str());
                let ghost rooms = names(left@);
                let ghost mut members: Seq<Seq<Seq<char>>> = Seq::empty();
                let mut k: usize = 0;
                while k < left.len()
                    invariant
                        k <= left.len(),
                        rooms == names(left@),
                        members.len() == k,
                        forall|i: int|
                            0 <= i < k ==> enumerates(
                                #[trigger] members[i],
                                state@.others(rooms[i], id@),
                            ),
                        views(actions@) == teardown_notices(
                            rooms.take(k as int),
                            members,
                            state@.peers,
                            id@,
                        ),
                    decreases left.len() - k,
                {
                    let targets = state.members_except(left[k].as_str(), id.as_str());
                    let mut texts: Vec<String> = Vec::new();
                    texts.push(leave_notice(id.as_str(), left[k].as_str()));
                    assert(names(texts@) =~= seq![spec_leave_notice(id@, left@[k as int]@)]);
                    push_fan_out(state, &targets, &texts, &mut actions);
                    proof {
                        let grown = members.push(names(targets@));
                        assert(grown.drop_last() == members);
                        assert(rooms.take(k + 1).drop_last() == rooms.take(k as int));
                        members = grown;
                    }
                    k += 1;
                }
                proof {
                    assert(rooms.take(left.len() as int) == rooms);
                    assert(views(actions@) == teardown_notices(rooms, members, state@.peers, id@));
                }
            },
        }
        actions
    }
}

} // verus!
