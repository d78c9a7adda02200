//! Who is connected to which session, and what each connection has yet to
//! be sent.
//!
//! The registry lives in memory only. A session has an entry while someone is
//! connected to it, and a user is connected to at most one session at a time.
//! Every connection has an outbound queue; a broadcast puts a frame into the
//! queue of every member of one session, and of nobody else.

use vstd::prelude::*;
use std::collections::HashMap;
use crate::outbox::{pushed, texts, Outbox, OUTBOX_CAPACITY};

verus! {

broadcast use vstd::std_specs::hash::group_hash_axioms;

/// One live connection, as the registry keeps it.
#[derive(Clone, Debug, PartialEq, Eq)]
pub struct ConnectionInfo {
    pub user_id: u128,
    pub username: String,
    pub is_dm: bool,
}

/// A connection as it is shown to the other players: a copy, never a
/// reference into the registry.
#[derive(Clone, Debug, PartialEq, Eq)]
pub struct PlayerInfo {
    pub user_id: u128,
    pub username: String,
    pub is_dm: bool,
}

/// What is known of a member besides the user id: the display name and
/// whether the user connected as game master.
pub struct Member {
    pub username: Seq<char>,
    pub is_dm: bool,
}

impl View for ConnectionInfo {
    type V = Member;

    open spec fn view(&self) -> Member {
        Member { username: self.username@, is_dm: self.is_dm }
    }
}

impl View for PlayerInfo {
    type V = Member;

    open spec fn view(&self) -> Member {
        Member { username: self.username@, is_dm: self.is_dm }
    }
}

/// A session with someone connected to it.
#[derive(Clone, Debug, PartialEq, Eq)]
pub struct SessionInfo {
    pub session_id: u128,
    pub campaign_id: u128,
    /// The connections, by user id.
    pub connections: HashMap<u128, ConnectionInfo>,
}

/// A session as a mathematical value: its campaign and its members by user id.
#[verifier::ext_equal]
pub struct SessionView {
    pub campaign_id: u128,
    pub members: Map<u128, Member>,
}

impl View for SessionInfo {
    type V = SessionView;

    open spec fn view(&self) -> SessionView {
        SessionView {
            campaign_id: self.campaign_id,
            members: self.connections@.map_values(|c: ConnectionInfo| c@),
        }
    }
}

/// The registry as a mathematical value: the live sessions by session id.
pub type Sessions = Map<u128, SessionView>;

/// Whether user `u` is connected to session `s`.
pub open spec fn in_session(m: Sessions, s: u128, u: u128) -> bool {
    m.contains_key(s) && m[s].members.contains_key(u)
}

/// The session that user `u` is connected to, if any.
pub open spec fn session_of(m: Sessions, u: u128) -> Option<u128> {
    if exists|s: u128| in_session(m, s, u) {
        Some(choose|s: u128| in_session(m, s, u))
    } else {
        None
    }
}

/// What holds of every registry: no session is kept without a member, and no
/// user is a member of two sessions.
pub open spec fn consistent(m: Sessions) -> bool {
    &&& forall|s: u128| #[trigger] m.contains_key(s) ==> !m[s].members.is_empty()
    &&& forall|s1: u128, s2: u128, u: u128|
        #[trigger] in_session(m, s1, u) && #[trigger] in_session(m, s2, u) ==> s1 == s2
}

/// The registry after user `u` has left session `s`. The session goes with
/// its last member. Nothing changes where `u` was not a member of `s`.
pub open spec fn left(m: Sessions, s: u128, u: u128) -> Sessions {
    if in_session(m, s, u) {
        let rest = m[s].members.remove(u);
        if rest.is_empty() {
            m.remove(s)
        } else {
            m.insert(s, SessionView { campaign_id: m[s].campaign_id, members: rest })
        }
    } else {
        m
    }
}

/// The registry after user `u` has joined session `s`. The user first leaves
/// any other session. The session is created with `campaign_id` where it has
/// no entry yet; the user's record is replaced where there is one already.
pub open spec fn joined(m: Sessions, s: u128, campaign_id: u128, u: u128, who: Member) -> Sessions {
    let m1 = match session_of(m, u) {
        Some(s0) => if s0 != s {
            left(m, s0, u)
        } else {
            m
        },
        None => m,
    };
    if m1.contains_key(s) {
        m1.insert(
            s,
            SessionView { campaign_id: m1[s].campaign_id, members: m1[s].members.insert(u, who) },
        )
    } else {
        m1.insert(s, SessionView { campaign_id, members: Map::empty().insert(u, who) })
    }
}

/// The user ids of a list of players, in order.
pub open spec fn ids_of(players: Seq<PlayerInfo>) -> Seq<u128> {
    Seq::new(players.len(), |i: int| players[i].user_id)
}

/// Whether `players` lists exactly `members`: every member once, with the
/// member's name and flag, in some order.
pub open spec fn lists(players: Seq<PlayerInfo>, members: Map<u128, Member>) -> bool {
    &&& ids_of(players).no_duplicates()
    &&& ids_of(players).to_set() == members.dom()
    &&& forall|i: int|
        0 <= i < players.len() ==> members.contains_key(#[trigger] players[i].user_id)
            && members[players[i].user_id] == players[i]@
}

/// The members of session `s`, and none where the session has no entry.
pub open spec fn members_of(m: Sessions, s: u128) -> Map<u128, Member> {
    if m.contains_key(s) {
        m[s].members
    } else {
        Map::empty()
    }
}

/// The outbound queues as a mathematical value: for each connected user the
/// frames that wait, oldest first.
pub type Queues = Map<u128, Seq<Seq<char>>>;

/// The queues after user `u` has left session `s`: the user's queue goes
/// with the connection.
pub open spec fn queues_after_leave(m: Sessions, q: Queues, s: u128, u: u128) -> Queues {
    if in_session(m, s, u) {
        q.remove(u)
    } else {
        q
    }
}

/// The queues after user `u` has joined session `s`: a user who was a member
/// of `s` already keeps its queue, anyone else starts with an empty one.
pub open spec fn queues_after_join(m: Sessions, q: Queues, s: u128, u: u128) -> Queues {
    if in_session(m, s, u) {
        q
    } else {
        q.insert(u, Seq::empty())
    }
}

/// The queues after `frame` has been broadcast to session `s`: the frame is
/// added to the queue of every member of `s`, and every other queue is as it
/// was.
pub open spec fn queues_after_broadcast(m: Sessions, q: Queues, s: u128, frame: Seq<char>) -> Queues {
    Map::new(
        |u: u128| q.contains_key(u),
        |u: u128|
            if in_session(m, s, u) {
                pushed(q[u], frame)
            } else {
                q[u]
            },
    )
}

/// The queues after user `u` has taken its frames.
pub open spec fn queues_after_take(q: Queues, u: u128) -> Queues {
    if q.contains_key(u) {
        q.insert(u, Seq::empty())
    } else {
        q
    }
}

/// The frames that wait for user `u`.
pub open spec fn waiting(q: Queues, u: u128) -> Seq<Seq<char>> {
    if q.contains_key(u) {
        q[u]
    } else {
        Seq::empty()
    }
}

/// The registry of live connections.
#[derive(Debug)]
pub struct SessionState {
    sessions: HashMap<u128, SessionInfo>,
    /// For each connected user, the session the user is connected to.
    joined: HashMap<u128, u128>,
    /// For each connected user, the frames yet to be sent.
    outboxes: HashMap<u128, Outbox>,
}

impl View for SessionState {
    type V = Sessions;

    closed spec fn view(&self) -> Sessions {
        self.sessions@.map_values(|info: SessionInfo| info@)
    }
}

/// The keys of `m`, each once, in no particular order.
fn keys_of<V>(m: &HashMap<u128, V>) -> (keys: Vec<u128>)
    ensures
        keys@.no_duplicates(),
        keys@.to_set() == m@.dom(),
{
    let mut keys: Vec<u128> = Vec::new();
    for k in it: m.keys()
        invariant
            keys@ == it.seq().unref().take(it.index() as int),
            it.seq().unref().to_set() == m@.dom(),
            it.seq().unref().no_duplicates(),
            it.index() == it.seq().len() ==> keys@ == it.seq().unref(),
    {
        keys.push(*k);
    }
    keys
}

impl SessionState {
    /// The representation invariant: every stored session is filed under its
    /// own id and has a connection, every connection is filed under its own
    /// user id, and the index from users to sessions says what the sessions say.
    pub closed spec fn wf(&self) -> bool {
        &&& forall|s: u128| #[trigger]
            self.sessions@.contains_key(s) ==> {
                &&& self.sessions@[s].session_id == s
                &&& !self.sessions@[s].connections@.is_empty()
            }
        &&& forall|s: u128, u: u128|
            self.sessions@.contains_key(s) && #[trigger] self.sessions@[s].connections@.contains_key(
                u,
            ) ==> {
                &&& self.sessions@[s].connections@[u].user_id == u
                &&& self.joined@.contains_key(u)
                &&& self.joined@[u] == s
            }
        &&& forall|u: u128| #[trigger]
            self.joined@.contains_key(u) ==> {
                &&& self.sessions@.contains_key(self.joined@[u])
                &&& self.sessions@[self.joined@[u]].connections@.contains_key(u)
            }
        &&& forall|u: u128| self.joined@.contains_key(u) <==> #[trigger] self.outboxes@.contains_key(u)
        &&& forall|u: u128| #[trigger] self.outboxes@.contains_key(u) ==> self.outboxes@[u].wf()
    }

    /// The outbound queues.
    pub closed spec fn queued(&self) -> Queues {
        self.outboxes@.map_values(|o: Outbox| o@)
    }

    /// A well-formed registry is consistent, and it has a queue for exactly
    /// the users who are connected, none longer than the capacity.
    pub proof fn lemma_consistent(&self)
        requires
            self.wf(),
        ensures
            consistent(self@),
            forall|u: u128| self.queued().contains_key(u) <==> session_of(self@, u) is Some,
            forall|u: u128| #[trigger]
                self.queued().contains_key(u) ==> self.queued()[u].len() <= OUTBOX_CAPACITY,
    {
        let m = self@;
        assert forall|u: u128| self.queued().contains_key(u) <==> session_of(self@, u) is Some by {
            if self.queued().contains_key(u) {
                assert(in_session(m, self.joined@[u], u));
            }
            if session_of(self@, u) is Some {
                let s = session_of(self@, u)->0;
            }
        }
        assert forall|u: u128| #[trigger] self.queued().contains_key(u) implies self.queued()[u].len()
            <= OUTBOX_CAPACITY by {
            self.outboxes@[u].lemma_bounded();
        }
    }

    /// An empty registry.
    pub fn new() -> (state: SessionState)
        ensures
            state.wf(),
            state@ == Map::<u128, SessionView>::empty(),
            state.queued() == Map::<u128, Seq<Seq<char>>>::empty(),
    {
        SessionState { sessions: HashMap::new(), joined: HashMap::new(), outboxes: HashMap::new() }
    }

    /// The session that `user_id` is connected to, if any.
    pub fn session_of(&self, user_id: u128) -> (s: Option<u128>)
        requires
            self.wf(),
        ensures
            s == session_of(self@, user_id),
            s matches Some(id) ==> in_session(self@, id, user_id),
    {
        match self.joined.get(&user_id) {
            Some(s) => {
                assert(in_session(self@, *s, user_id));
                Some(*s)
            },
            None => {
                None
            },
        }
    }

    /// Takes `user_id` out of `session_id`. The connection's queue goes with
    /// it, and the session's entry is removed with its last connection.
    pub fn leave_session(&mut self, session_id: u128, user_id: u128)
        requires
            old(self).wf(),
        ensures
            final(self).wf(),
            final(self)@ == left(old(self)@, session_id, user_id),
            final(self).queued() == queues_after_leave(
                old(self)@,
                old(self).queued(),
                session_id,
                user_id,
            ),
    {
        let present = match self.sessions.get(&session_id) {
            Some(info) => info.connections.contains_key(&user_id),
            None => false,
        };
        if !present {
            return ;
        }
        let ghost was = old(self).sessions@[session_id];
        let mut info = self.sessions.remove(&session_id).unwrap();
        info.connections.remove(&user_id);
        self.joined.remove(&user_id);
        self.outboxes.remove(&user_id);
        let ghost rest = was@.members.remove(user_id);
        assert(info@.members =~= rest);
        if !info.connections.is_empty() {
            self.sessions.insert(session_id, info);
        }
    }

    /// Connects `user_id` to `session_id`, under the given name and flag.
    ///
    /// A user who is connected to another session leaves it first, so the last
    /// join wins. The session's entry is created with `campaign_id` on first
    /// use; an existing entry keeps its campaign. Joining again replaces the
    /// user's record, adds no member and keeps what waits in the user's queue.
    pub fn join_session(
        &mut self,
        session_id: u128,
        campaign_id: u128,
        user_id: u128,
        username: String,
        is_dm: bool,
    )
        requires
            old(self).wf(),
        ensures
            final(self).wf(),
            final(self)@ == joined(
                old(self)@,
                session_id,
                campaign_id,
                user_id,
                Member { username: username@, is_dm },
            ),
            final(self).queued() == queues_after_join(
                old(self)@,
                old(self).queued(),
                session_id,
                user_id,
            ),
    {
        match self.session_of(user_id) {
            Some(s0) => {
                if s0 != session_id {
                    self.leave_session(s0, user_id);
                }
            },
            None => {},
        }
        let ghost mid = self@;
        let ghost mid_queues = self.queued();
        assert(self.joined@.contains_key(user_id) ==> self.joined@[user_id] == session_id) by {
            if self.joined@.contains_key(user_id) {
                let s = self.joined@[user_id];
                assert(in_session(mid, s, user_id));
            }
        }
        let who = ConnectionInfo { user_id, username, is_dm };
        let mut info = match self.sessions.remove(&session_id) {
            Some(info) => info,
            None => SessionInfo { session_id, campaign_id, connections: HashMap::new() },
        };
        let ghost base = info@;
        assert(!mid.contains_key(session_id) ==> base.members =~= Map::<u128, Member>::empty());
        info.connections.insert(user_id, who);
        let ghost entry = info@;
        assert(entry.members =~= base.members.insert(user_id, who@));
        self.sessions.insert(session_id, info);
        self.joined.insert(user_id, session_id);
        if !self.outboxes.contains_key(&user_id) {
            self.outboxes.insert(user_id, Outbox::new());
            assert(self.queued() =~= mid_queues.insert(user_id, Seq::empty()));
        }
        assert(self.wf());
    }

    /// The campaign that `session_id` belongs to, where the session has an entry.
    pub fn get_session_campaign_id(&self, session_id: u128) -> (campaign: Option<u128>)
        ensures
            campaign == if self@.contains_key(session_id) {
                Some(self@[session_id].campaign_id)
            } else {
                None
            },
    {
        match self.sessions.get(&session_id) {
            Some(info) => Some(info.campaign_id),
            None => None,
        }
    }

    /// A snapshot of the connections of `session_id`: one record for every
    /// member, copied out of the registry.
    pub fn get_session_players(&self, session_id: u128) -> (players: Vec<PlayerInfo>)
        requires
            self.wf(),
        ensures
            lists(players@, members_of(self@, session_id)),
    {
        let mut players: Vec<PlayerInfo> = Vec::new();
        match self.sessions.get(&session_id) {
            None => {
                assert(ids_of(players@).to_set() =~= Set::<u128>::empty());
            },
            Some(info) => {
                let keys = keys_of(&info.connections);
                let ghost members = info@.members;
                let mut i: usize = 0;
                while i < keys.len()
                    invariant
                        i <= keys.len(),
                        self.wf(),
                        self.sessions@.contains_key(session_id),
                        self.sessions@[session_id] == *info,
                        members == info@.members,
                        keys@.to_set() == info.connections@.dom(),
                        players@.len() == i,
                        forall|j: int|
                            0 <= j < i ==> {
                                &&& (#[trigger] players@[j]).user_id == keys@[j]
                                &&& members[keys@[j]] == players@[j]@
                            },
                    decreases keys.len() - i,
                {
                    let id = keys[i];
                    let conn = info.connections.get(&id).unwrap();
                    players.push(
                        PlayerInfo {
                            user_id: conn.user_id,
                            username: conn.username.clone(),
                            is_dm: conn.is_dm,
                        },
                    );
                    i += 1;
                }
                assert(ids_of(players@) =~= keys@);
                assert(members.dom() =~= keys@.to_set());
            },
        }
        players
    }

    /// Puts `frame` into the outbound queue of every connection of
    /// `session_id`, and of no other. A queue that is full drops its oldest
    /// frame. Nothing happens where the session has no entry.
    pub fn broadcast_to_session(&mut self, session_id: u128, frame: &str)
        requires
            old(self).wf(),
        ensures
            final(self).wf(),
            final(self)@ == old(self)@,
            final(self).queued() == queues_after_broadcast(
                old(self)@,
                old(self).queued(),
                session_id,
                frame@,
            ),
    {
        let keys = match self.sessions.get(&session_id) {
            None => Vec::new(),
            Some(info) => keys_of(&info.connections),
        };
        let ghost members = members_of(self@, session_id).dom();
        let ghost m = self@;
        let ghost q = self.queued();
        let mut i: usize = 0;
        while i < keys.len()
            invariant
                i <= keys.len(),
                self.wf(),
                self@ == m,
                self.sessions == old(self).sessions,
                self.joined == old(self).joined,
                keys@.no_duplicates(),
                keys@.to_set() == members,
                forall|u: u128| members.contains(u) ==> q.contains_key(u),
                self.queued().dom() == q.dom(),
                forall|u: u128| #[trigger]
                    q.contains_key(u) ==> self.queued()[u] == if keys@.take(i as int).contains(u) {
                        pushed(q[u], frame@)
                    } else {
                        q[u]
                    },
            decreases keys.len() - i,
        {
            let user_id = keys[i];
            assert(keys@.to_set().contains(user_id));
            let mut outbox = self.outboxes.remove(&user_id).unwrap();
            outbox.push(frame.to_owned());
            self.outboxes.insert(user_id, outbox);
            assert forall|u: u128| #[trigger] q.contains_key(u) implies self.queued()[u] == if keys@.take(
                i + 1,
            ).contains(u) {
                pushed(q[u], frame@)
            } else {
                q[u]
            } by {
                let shorter = keys@.take(i as int);
                let longer = keys@.take(i + 1);
                assert(longer == shorter.push(user_id));
                if u == user_id {
                    assert(longer[i as int] == user_id);
                }
            }
            i += 1;
        }
        assert(keys@.take(keys@.len() as int) == keys@);
    }

    /// Takes out the frames that wait for `user_id`, oldest first.
    pub fn take_outbound(&mut self, user_id: u128) -> (frames: Vec<String>)
        requires
            old(self).wf(),
        ensures
            final(self).wf(),
            final(self)@ == old(self)@,
            final(self).queued() == queues_after_take(old(self).queued(), user_id),
            texts(frames@) == waiting(old(self).queued(), user_id),
    {
        match self.outboxes.remove(&user_id) {
            None => {
                let frames: Vec<String> = Vec::new();
                frames
            },
            Some(outbox) => {
                let mut outbox = outbox;
                let frames = outbox.drain();
                self.outboxes.insert(user_id, outbox);
                frames
            },
        }
    }
}

/// Leaving keeps the registry consistent: no session is left behind without
/// a member, and nobody turns up in two sessions.
pub proof fn law_leave_keeps_consistent(m: Sessions, s: u128, u: u128)
    requires
        consistent(m),
    ensures
        consistent(left(m, s, u)),
        !in_session(left(m, s, u), s, u),
{
    let after = left(m, s, u);
    if in_session(m, s, u) {
        assert forall|s1: u128, s2: u128, v: u128|
            #[trigger] in_session(after, s1, v) && #[trigger] in_session(after, s2, v) implies s1
            == s2 by {
            assert(in_session(m, s1, v));
            assert(in_session(m, s2, v));
        }
    }
}

/// When the last member leaves, the session's entry goes with it.
pub proof fn law_last_leave_removes_session(m: Sessions, s: u128, u: u128)
    requires
        in_session(m, s, u),
        m[s].members.dom() == set![u],
    ensures
        !left(m, s, u).contains_key(s),
{
}

/// While another member remains, the session stays, with the same campaign
/// and with every other member as before.
pub proof fn law_leave_keeps_others(m: Sessions, s: u128, u: u128, other: u128)
    requires
        in_session(m, s, u),
        in_session(m, s, other),
        other != u,
    ensures
        left(m, s, u).contains_key(s),
        left(m, s, u)[s].campaign_id == m[s].campaign_id,
        left(m, s, u)[s].members == m[s].members.remove(u),
{
}

/// After a join the user is a member of the session joined, under the name
/// and flag given, and of no other session.
pub proof fn law_join_moves(m: Sessions, s: u128, campaign_id: u128, u: u128, who: Member)
    requires
        consistent(m),
    ensures
        consistent(joined(m, s, campaign_id, u, who)),
        in_session(joined(m, s, campaign_id, u, who), s, u),
        joined(m, s, campaign_id, u, who)[s].members[u] == who,
        session_of(joined(m, s, campaign_id, u, who), u) == Some(s),
        forall|t: u128| t != s ==> !in_session(joined(m, s, campaign_id, u, who), t, u),
{
    let after = joined(m, s, campaign_id, u, who);
    let m1 = match session_of(m, u) {
        Some(s0) => if s0 != s {
            left(m, s0, u)
        } else {
            m
        },
        None => m,
    };
    match session_of(m, u) {
        Some(s0) => {
            law_leave_keeps_consistent(m, s0, u);
        },
        None => {},
    }
    assert forall|t: u128| t != s implies !in_session(m1, t, u) by {
        if in_session(m1, t, u) {
            assert(in_session(m, t, u));
        }
    }
    assert(in_session(after, s, u));
    assert forall|s1: u128, s2: u128, v: u128|
        #[trigger] in_session(after, s1, v) && #[trigger] in_session(after, s2, v) implies s1
        == s2 by {
        if v == u {
            if s1 != s {
                assert(in_session(m1, s1, u));
            }
            if s2 != s {
                assert(in_session(m1, s2, u));
            }
        } else {
            assert(in_session(m1, s1, v));
            assert(in_session(m1, s2, v));
        }
    }
}

/// Joining the same session twice leaves the session's set of members, and
/// so their number, as the first join made it; the name and flag of the
/// second join are the ones kept, and the session keeps its campaign
/// whatever campaign the second join names.
pub proof fn law_join_twice(
    m: Sessions,
    s: u128,
    campaign_id: u128,
    campaign_again: u128,
    u: u128,
    first: Member,
    second: Member,
)
    requires
        consistent(m),
    ensures
        ({
            let once = joined(m, s, campaign_id, u, first);
            let twice = joined(once, s, campaign_again, u, second);
            &&& twice.dom() == once.dom()
            &&& twice[s].members.dom() == once[s].members.dom()
            &&& twice[s].members.len() == once[s].members.len()
            &&& twice[s].members[u] == second
            &&& twice[s].campaign_id == once[s].campaign_id
            &&& forall|v: u128| v != u ==> twice[s].members[v] == once[s].members[v]
            &&& forall|t: u128| t != s ==> twice[t] == once[t]
        }),
{
    let once = joined(m, s, campaign_id, u, first);
    law_join_moves(m, s, campaign_id, u, first);
    let twice = joined(once, s, campaign_again, u, second);
    assert(twice.dom() =~= once.dom());
}

/// A broadcast to one session reaches exactly its members.
///
/// In a consistent registry, take a user who is connected to `other`. After
/// a broadcast to `s` the user's queue is as it was where `other` is not
/// `s`, and holds the frame as its newest where it is. The queue of a user
/// who is connected to no session does not exist before or after.
pub proof fn law_broadcast_stays_in_session(
    m: Sessions,
    q: Queues,
    s: u128,
    frame: Seq<char>,
    other: u128,
    u: u128,
)
    requires
        consistent(m),
        in_session(m, other, u),
        q.contains_key(u),
    ensures
        other != s ==> queues_after_broadcast(m, q, s, frame)[u] == q[u],
        other == s ==> queues_after_broadcast(m, q, s, frame)[u] == pushed(q[u], frame),
        queues_after_broadcast(m, q, s, frame).dom() == q.dom(),
{
}

/// Joining a session twice leaves the queues as the first join made them.
pub proof fn law_join_twice_keeps_queue(
    m: Sessions,
    q: Queues,
    s: u128,
    campaign_id: u128,
    u: u128,
    first: Member,
)
    requires
        consistent(m),
    ensures
        ({
            let once = joined(m, s, campaign_id, u, first);
            let queues = queues_after_join(m, q, s, u);
            queues_after_join(once, queues, s, u) == queues
        }),
{
}

} // verus!
