use crate::message::{share_sender, S2CMessage};
use crate::session::{PubSession, SessionView};
use crate::session_id::{is_session_id, random_session_id};
use std::collections::BTreeMap;
use std::path::PathBuf;
use tokio::sync::mpsc::Sender;
use vstd::prelude::*;

verus! {

broadcast use crate::session::lemma_view_fields;

#[verifier::external_type_specification]
#[verifier::external_body]
pub struct ExPathBuf(PathBuf);

/// Where static HTTP files, if any, are served from.
pub enum HttpServeDirectory {
    /// Do not serve any static HTTP files
    Disabled,
    /// Serve static HTTP files at a specific path
    Disk { path: PathBuf },
    /// Bundle all static HTTP files with the server executable
    Bundled,
}

/// The role of a connected client.
pub enum ClientState {
    Unassigned,
    Publisher { session_id: String },
    Subscriber { session_id: String },
}

impl ClientState {
    pub open spec fn is_publisher_of(&self, sid: Seq<char>) -> bool {
        self matches ClientState::Publisher { session_id } && session_id@ == sid
    }

    pub open spec fn is_subscriber_of(&self, sid: Seq<char>) -> bool {
        self matches ClientState::Subscriber { session_id } && session_id@ == sid
    }
}

/// One live connection: its id, where it came from, the handle on its
/// outbound queue and its role.
pub struct PubClient {
    pub client_id: u32,
    pub address: String,
    pub tx: Sender<S2CMessage>,
    pub state: ClientState,
}

impl PubClient {
    /// A client not yet registered (id 0), with no role.
    pub fn new(tx: Sender<S2CMessage>, address: String) -> (c: PubClient)
        ensures
            c.client_id == 0,
            c.address@ == address@,
            c.tx == tx,
            c.state is Unassigned,
    {
        PubClient { client_id: 0, address, tx, state: ClientState::Unassigned }
    }
}

/// Outcome of a subscribe request.
#[derive(Clone, Copy, Debug, PartialEq, Eq, Structural)]
pub enum PubSessionSubscribeResult {
    Success,
    InvalidClientState,
    InvalidSessionId,
    InvalidClientId,
}

/// A notification fanned out to a session: the recipients are the session's
/// subscribers at the moment it was sent, and the outcomes say, per
/// recipient in ascending id, whether its queue took the message.
pub ghost struct Notice {
    pub session_id: Seq<char>,
    pub recipients: Set<u32>,
    pub outcomes: Seq<bool>,
    pub message: S2CMessage,
}

/// A viewer-count notice to session `sid` whose recipients are `subs` and
/// whose count is the number of them.
pub open spec fn is_view_count_notice(n: Notice, sid: Seq<char>, subs: Set<u32>) -> bool {
    &&& n.session_id == sid
    &&& n.recipients == subs
    &&& n.outcomes.len() == subs.len()
    &&& n.message matches S2CMessage::NotifyViewCount { viewers } && viewers == subs.len()
}

/// Every notice in `log` has one outcome per recipient, and every
/// viewer-count notice carries the size of its recipient set.
pub open spec fn view_counts_exact(log: Seq<Notice>) -> bool {
    forall|i: int|
        0 <= i < log.len() ==> {
            &&& (#[trigger] log[i]).outcomes.len() == log[i].recipients.len()
            &&& (log[i].message matches S2CMessage::NotifyViewCount { viewers } ==> viewers
                == log[i].recipients.len())
        }
}

/// The sessions after client `cid` leaves session `sid` (no change when
/// that session is not live).
pub open spec fn sessions_without(
    sessions: Map<Seq<char>, SessionView>,
    sid: Seq<char>,
    cid: u32,
) -> Map<Seq<char>, SessionView> {
    if sessions.contains_key(sid) {
        sessions.insert(
            sid,
            SessionView { subscribers: sessions[sid].subscribers.remove(cid), ..sessions[sid] },
        )
    } else {
        sessions
    }
}

/// The clients after client `cid` stops subscribing to `sid`: its role goes
/// back to unassigned only when it is recorded as a subscriber of `sid`.
pub open spec fn clients_without(
    clients: Map<u32, PubClient>,
    sid: Seq<char>,
    cid: u32,
) -> Map<u32, PubClient> {
    if clients.contains_key(cid) && clients[cid].state.is_subscriber_of(sid) {
        clients.insert(cid, PubClient { state: ClientState::Unassigned, ..clients[cid] })
    } else {
        clients
    }
}

/// `after` is `before` with one viewer-count notice to `sid` appended.
pub open spec fn appends_view_count(
    before: Seq<Notice>,
    after: Seq<Notice>,
    sid: Seq<char>,
    subs: Set<u32>,
) -> bool {
    &&& after.len() == before.len() + 1
    &&& after.drop_last() == before
    &&& is_view_count_notice(after.last(), sid, subs)
}

spec fn session_ids_unique(v: Seq<PubSession>) -> bool {
    forall|i: int, j: int|
        0 <= i < v.len() && 0 <= j < v.len() && (#[trigger] v[i]).session_id@ == (#[trigger] v[j]).session_id@
            ==> i == j
}

spec fn has_session_at(v: Seq<PubSession>, k: Seq<char>, i: int) -> bool {
    0 <= i < v.len() && v[i].session_id@ == k
}

/// The sessions of a list, keyed by session id.
spec fn session_map(v: Seq<PubSession>) -> Map<Seq<char>, SessionView> {
    Map::new(
        |k: Seq<char>| exists|i: int| has_session_at(v, k, i),
        |k: Seq<char>| v[choose|i: int| has_session_at(v, k, i)]@,
    )
}

proof fn lemma_session_map_at(v: Seq<PubSession>, i: int)
    requires
        session_ids_unique(v),
        0 <= i < v.len(),
    ensures
        session_map(v).contains_key(v[i].session_id@),
        session_map(v)[v[i].session_id@] == v[i]@,
{
    assert(has_session_at(v, v[i].session_id@, i));
}

proof fn lemma_session_map_update(v: Seq<PubSession>, i: int, s: PubSession)
    requires
        session_ids_unique(v),
        0 <= i < v.len(),
        s.session_id@ == v[i].session_id@,
    ensures
        session_ids_unique(v.update(i, s)),
        session_map(v.update(i, s)) =~= session_map(v).insert(s.session_id@, s@),
{
    let w = v.update(i, s);
    assert(session_ids_unique(w)) by {
        assert forall|a: int, b: int|
            0 <= a < w.len() && 0 <= b < w.len() && (#[trigger] w[a]).session_id@ == (#[trigger] w[b]).session_id@
            implies a == b by {
            assert(v[a].session_id@ == w[a].session_id@);
            assert(v[b].session_id@ == w[b].session_id@);
        }
    }
    assert forall|k: Seq<char>| #[trigger] session_map(w).contains_key(k) <==> session_map(v).insert(s.session_id@, s@).contains_key(k) by {
        if session_map(w).contains_key(k) {
            let j = choose|j: int| has_session_at(w, k, j);
            assert(has_session_at(v, k, j));
        }
        if session_map(v).contains_key(k) {
            let j = choose|j: int| has_session_at(v, k, j);
            assert(has_session_at(w, k, j));
        }
        if k == s.session_id@ {
            assert(has_session_at(w, k, i));
        }
    }
    assert forall|k: Seq<char>| #[trigger] session_map(w).contains_key(k) implies session_map(w)[k] == session_map(v).insert(s.session_id@, s@)[k] by {
        let j = choose|j: int| has_session_at(w, k, j);
        lemma_session_map_at(w, j);
        if j != i {
            lemma_session_map_at(v, j);
        }
    }
}

proof fn lemma_session_map_remove(v: Seq<PubSession>, i: int)
    requires
        session_ids_unique(v),
        0 <= i < v.len(),
    ensures
        session_ids_unique(v.remove(i)),
        session_map(v.remove(i)) =~= session_map(v).remove(v[i].session_id@),
{
    let w = v.remove(i);
    assert(session_ids_unique(w)) by {
        assert forall|a: int, b: int|
            0 <= a < w.len() && 0 <= b < w.len() && (#[trigger] w[a]).session_id@ == (#[trigger] w[b]).session_id@
            implies a == b by {
            let a0 = if a < i { a } else { a + 1 };
            let b0 = if b < i { b } else { b + 1 };
            assert(v[a0] == w[a] && v[b0] == w[b]);
        }
    }
    assert forall|k: Seq<char>| #[trigger] session_map(w).contains_key(k) <==> session_map(v).remove(v[i].session_id@).contains_key(k) by {
        if session_map(w).contains_key(k) {
            let j = choose|j: int| has_session_at(w, k, j);
            let j0 = if j < i { j } else { j + 1 };
            assert(has_session_at(v, k, j0));
        }
        if session_map(v).contains_key(k) && k != v[i].session_id@ {
            let j = choose|j: int| has_session_at(v, k, j);
            assert(j != i);
            let j1 = if j < i { j } else { j - 1 };
            assert(has_session_at(w, k, j1));
        }
    }
    assert forall|k: Seq<char>| #[trigger] session_map(w).contains_key(k) implies session_map(w)[k] == session_map(v).remove(v[i].session_id@)[k] by {
        let j = choose|j: int| has_session_at(w, k, j);
        lemma_session_map_at(w, j);
        let j0 = if j < i { j } else { j + 1 };
        lemma_session_map_at(v, j0);
    }
}

proof fn lemma_session_map_push(v: Seq<PubSession>, s: PubSession)
    requires
        session_ids_unique(v),
        !session_map(v).contains_key(s.session_id@),
    ensures
        session_ids_unique(v.push(s)),
        session_map(v.push(s)) =~= session_map(v).insert(s.session_id@, s@),
{
    let w = v.push(s);
    let n = v.len() as int;
    assert forall|j: int| 0 <= j < n implies v[j].session_id@ != s.session_id@ by {
        if v[j].session_id@ == s.session_id@ {
            assert(has_session_at(v, s.session_id@, j));
        }
    }
    assert(session_ids_unique(w)) by {
        assert forall|a: int, b: int|
            0 <= a < w.len() && 0 <= b < w.len() && (#[trigger] w[a]).session_id@ == (#[trigger] w[b]).session_id@
            implies a == b by {
            if a < n {
                assert(w[a] == v[a]);
            }
            if b < n {
                assert(w[b] == v[b]);
            }
        }
    }
    assert forall|k: Seq<char>| #[trigger] session_map(w).contains_key(k) <==> session_map(v).insert(s.session_id@, s@).contains_key(k) by {
        if session_map(w).contains_key(k) {
            let j = choose|j: int| has_session_at(w, k, j);
            if j < n {
                assert(has_session_at(v, k, j));
            }
        }
        if session_map(v).contains_key(k) {
            let j = choose|j: int| has_session_at(v, k, j);
            assert(has_session_at(w, k, j));
        }
        if k == s.session_id@ {
            assert(has_session_at(w, k, n));
        }
    }
    assert forall|k: Seq<char>| #[trigger] session_map(w).contains_key(k) implies session_map(w)[k] == session_map(v).insert(s.session_id@, s@)[k] by {
        let j = choose|j: int| has_session_at(w, k, j);
        lemma_session_map_at(w, j);
        if j < n {
            lemma_session_map_at(v, j);
        }
    }
}

/// The client and session registries. Clients are keyed by id; sessions are
/// kept in a list with distinct ids. A ghost log records every notification
/// fanned out to a session.
pub struct RadarServer {
    client_id_counter: u32,
    clients: BTreeMap<u32, PubClient>,
    pub_sessions: Vec<PubSession>,
    notices: Ghost<Seq<Notice>>,
}

impl RadarServer {
    /// The last client id handed out.
    pub closed spec fn counter(&self) -> u32 {
        self.client_id_counter
    }

    /// Registered clients by id.
    pub closed spec fn clients(&self) -> Map<u32, PubClient> {
        self.clients@
    }

    /// Live sessions by session id.
    pub closed spec fn sessions(&self) -> Map<Seq<char>, SessionView> {
        session_map(self.pub_sessions@)
    }

    /// Every notification fanned out so far, oldest first.
    pub closed spec fn notices(&self) -> Seq<Notice> {
        self.notices@
    }

    /// Both hold the same counter, clients, sessions and notice log.
    pub open spec fn same_registry(&self, other: &RadarServer) -> bool {
        &&& self.counter() == other.counter()
        &&& self.clients() == other.clients()
        &&& self.sessions() == other.sessions()
        &&& self.notices() == other.notices()
    }

    pub closed spec fn wf(&self) -> bool {
        &&& session_ids_unique(self.pub_sessions@)
        &&& forall|i: int| 0 <= i < self.pub_sessions@.len() ==> (#[trigger] self.pub_sessions@[i]).wf()
        &&& view_counts_exact(self.notices@)
    }

    /// Every live session has a well-formed id.
    pub proof fn lemma_session_ids_valid(&self, sid: Seq<char>)
        requires
            self.wf(),
            self.sessions().contains_key(sid),
        ensures
            is_session_id(sid),
            self.sessions()[sid].session_id == sid,
    {
        let v = self.pub_sessions@;
        let i = choose|i: int| has_session_at(v, sid, i);
        lemma_session_map_at(v, i);
        assert(v[i].wf());
        }

    /// Every notice ever sent records one delivery outcome per recipient, and
    /// every viewer-count notice carries the number of subscribers it went to.
    pub proof fn lemma_view_counts_exact(&self)
        requires
            self.wf(),
        ensures
            view_counts_exact(self.notices()),
    {
    }

    /// An empty registry; the first client registered gets id 2.
    pub fn new() -> (s: RadarServer)
        ensures
            s.wf(),
            s.counter() == 1,
            s.clients() == Map::<u32, PubClient>::empty(),
            s.sessions() == Map::<Seq<char>, SessionView>::empty(),
            s.notices() == Seq::<Notice>::empty(),
    {
        let s = RadarServer {
            client_id_counter: 1,
            clients: BTreeMap::new(),
            pub_sessions: Vec::new(),
            notices: Ghost(Seq::empty()),
        };
        proof {
            assert(s.sessions() =~= Map::<Seq<char>, SessionView>::empty());
        }
        s
    }

    /// Takes the next id (the counter plus one, wrapping) for `client` and
    /// stores it with that id. The caller drives the client's events.
    pub fn register_client(&mut self, client: PubClient) -> (client_id: u32)
        requires
            old(self).wf(),
        ensures
            final(self).wf(),
            client_id == old(self).counter().wrapping_add(1),
            final(self).counter() == client_id,
            final(self).clients() == old(self).clients().insert(
                client_id,
                (PubClient { client_id, ..client }),
            ),
            final(self).sessions() == old(self).sessions(),
            final(self).notices() == old(self).notices(),
    {
        let client_id = self.client_id_counter.wrapping_add(1);
        self.client_id_counter = client_id;
        let mut client = client;
        client.client_id = client_id;
        self.clients.insert(client_id, client);
        client_id
    }

    /// The registered client `client_id`, if any.
    pub fn client(&self, client_id: u32) -> (r: Option<&PubClient>)
        ensures
            match r {
                Some(c) => self.clients().contains_key(client_id) && *c == self.clients()[client_id],
                None => !self.clients().contains_key(client_id),
            },
    {
        self.clients.get(&client_id)
    }

    /// Where the session `session_id` stands in the list, if it is live.
    fn session_position(&self, session_id: &String) -> (r: Option<usize>)
        requires
            self.wf(),
        ensures
            match r {
                Some(i) => {
                    &&& i < self.pub_sessions@.len()
                    &&& self.pub_sessions@[i as int].session_id@ == session_id@
                    &&& self.sessions().contains_key(session_id@)
                },
                None => !self.sessions().contains_key(session_id@),
            },
    {
        let mut i: usize = 0;
        while i < self.pub_sessions.len()
            invariant
                self.wf(),
                i <= self.pub_sessions@.len(),
                forall|j: int| 0 <= j < i ==> self.pub_sessions@[j].session_id@ != session_id@,
            decreases self.pub_sessions@.len() - i,
        {
            if self.pub_sessions[i].session_id == *session_id {
                proof {
                    lemma_session_map_at(self.pub_sessions@, i as int);
                }
                return Some(i);
            }
            i = i + 1;
        }
        proof {
            if self.sessions().contains_key(session_id@) {
                let j = choose|j: int| has_session_at(self.pub_sessions@, session_id@, j);
                assert(self.pub_sessions@[j].session_id@ != session_id@);
            }
        }
        None
    }

    /// The live session `session_id`, if any.
    pub fn pub_session_find(&self, session_id: &String) -> (r: Option<&PubSession>)
        requires
            self.wf(),
        ensures
            match r {
                Some(s) => self.sessions().contains_key(session_id@) && s@ == self.sessions()[session_id@]
                    && s.wf(),
                None => !self.sessions().contains_key(session_id@),
            },
    {
        match self.session_position(session_id) {
            Some(i) => {
                proof {
                    lemma_session_map_at(self.pub_sessions@, i as int);
                }
                Some(&self.pub_sessions[i])
            },
            None => None,
        }
    }
    /// Puts `s` back at `i`, where a session with the same id was taken out
    /// of the list `v`.
    fn restore_session(&mut self, i: usize, s: PubSession, Ghost(v): Ghost<Seq<PubSession>>)
        requires
            session_ids_unique(v),
            forall|j: int| 0 <= j < v.len() ==> (#[trigger] v[j]).wf(),
            i < v.len(),
            old(self).pub_sessions@ == v.remove(i as int),
            s.wf(),
            s.session_id@ == v[i as int].session_id@,
            view_counts_exact(old(self).notices@),
        ensures
            final(self).wf(),
            final(self).pub_sessions@ == v.update(i as int, s),
            final(self).sessions() == session_map(v).insert(s.session_id@, s@),
            final(self).clients == old(self).clients,
            final(self).client_id_counter == old(self).client_id_counter,
            final(self).notices == old(self).notices,
    {
        self.pub_sessions.insert(i, s);
        proof {
            assert(self.pub_sessions@ =~= v.update(i as int, s));
            lemma_session_map_update(v, i as int, s);
        }
    }

    /// Sends the current viewer count of `s` to its subscribers and logs it.
    fn announce_view_count(&mut self, s: &PubSession)
        requires
            view_counts_exact(old(self).notices@),
            s.wf(),
        ensures
            view_counts_exact(final(self).notices@),
            appends_view_count(old(self).notices@, final(self).notices@, s@.session_id, s@.subscribers.dom()),
            final(self).clients == old(self).clients,
            final(self).client_id_counter == old(self).client_id_counter,
            final(self).pub_sessions == old(self).pub_sessions,
    {
        let viewers = s.subscriber_count();
        let message = S2CMessage::NotifyViewCount { viewers };
        let outcomes = s.broadcast(&message);
        proof {
            let n = Notice {
                session_id: s@.session_id,
                recipients: s@.subscribers.dom(),
                outcomes: outcomes@,
                message,
            };
            let log = self.notices@.push(n);
            assert(log.drop_last() =~= self.notices@);
            assert forall|i: int| 0 <= i < log.len() implies {
                &&& (#[trigger] log[i]).outcomes.len() == log[i].recipients.len()
                &&& (log[i].message matches S2CMessage::NotifyViewCount { viewers } ==> viewers
                    == log[i].recipients.len())
            } by {
                if i < self.notices@.len() {
                    assert(log[i] == self.notices@[i]);
                }
            }
            self.notices = Ghost(log);
        }
    }

    /// Removes `client_id` from session `session_id` and tells the remaining
    /// subscribers the new count; a client that is not subscribed leaves the
    /// subscriber map as it was, and a session that is not live gets nothing.
    /// A client recorded as subscriber of exactly this session becomes
    /// unassigned.
    pub fn pub_session_unsubscribe(&mut self, session_id: &String, client_id: u32)
        requires
            old(self).wf(),
        ensures
            final(self).wf(),
            final(self).counter() == old(self).counter(),
            final(self).sessions() == sessions_without(old(self).sessions(), session_id@, client_id),
            final(self).clients() == clients_without(old(self).clients(), session_id@, client_id),
            old(self).sessions().contains_key(session_id@) ==> appends_view_count(
                old(self).notices(),
                final(self).notices(),
                session_id@,
                final(self).sessions()[session_id@].subscribers.dom(),
            ),
            !old(self).sessions().contains_key(session_id@) ==> final(self).notices() == old(self).notices(),
            !old(self).sessions().contains_key(session_id@) || !old(self).sessions()[session_id@].subscribers.contains_key(client_id)
                ==> final(self).sessions() == old(self).sessions(),
    {
        if let Some(i) = self.session_position(session_id) {
            let ghost v = self.pub_sessions@;
            proof {
                lemma_session_map_at(v, i as int);
            }
            let mut s = self.pub_sessions.remove(i);
            s.remove_subscriber(client_id);
            self.announce_view_count(&s);
            self.restore_session(i, s, Ghost(v));
            proof {
                let old_view = v[i as int]@;
                if !old_view.subscribers.contains_key(client_id) {
                    assert(old_view.subscribers.remove(client_id) =~= old_view.subscribers);
                }
            }
        }
        let reset = match self.clients.get(&client_id) {
            Some(c) => match &c.state {
                ClientState::Subscriber { session_id: current } => *current == *session_id,
                _ => false,
            },
            None => false,
        };
        if reset {
            let ghost m = self.clients@;
            if let Some(mut c) = self.clients.remove(&client_id) {
                c.state = ClientState::Unassigned;
                self.clients.insert(client_id, c);
                proof {
                    assert(self.clients@ =~= m.insert(client_id, PubClient { state: ClientState::Unassigned, ..m[client_id] }));
                }
            }
        }
    }
    /// Subscribes client `client_id` to session `session_id`. Fails, changing
    /// nothing, when the client is unknown, when it already has a role, or
    /// when the session is not live, checked in that order. On success the
    /// client joins the subscriber map, every subscriber (the new one too) is
    /// told the new count, and the client becomes a subscriber of the session.
    pub fn pub_session_subscribe(&mut self, session_id: &String, client_id: u32) -> (r:
        PubSessionSubscribeResult)
        requires
            old(self).wf(),
        ensures
            final(self).wf(),
            r == PubSessionSubscribeResult::InvalidClientId <==> !old(self).clients().contains_key(client_id),
            r == PubSessionSubscribeResult::InvalidClientState <==> old(self).clients().contains_key(client_id)
                && !(old(self).clients()[client_id].state is Unassigned),
            r == PubSessionSubscribeResult::InvalidSessionId <==> old(self).clients().contains_key(client_id)
                && old(self).clients()[client_id].state is Unassigned
                && !old(self).sessions().contains_key(session_id@),
            r != PubSessionSubscribeResult::Success ==> *final(self) == *old(self),
            r == PubSessionSubscribeResult::Success ==> {
                let before = old(self).sessions()[session_id@];
                &&& final(self).counter() == old(self).counter()
                &&& final(self).sessions() == old(self).sessions().insert(
                    session_id@,
                    SessionView {
                        subscribers: before.subscribers.insert(client_id, old(self).clients()[client_id].tx),
                        ..before
                    },
                )
                &&& final(self).clients() == old(self).clients().insert(
                    client_id,
                    PubClient { state: final(self).clients()[client_id].state, ..old(self).clients()[client_id] },
                )
                &&& final(self).clients()[client_id].state.is_subscriber_of(session_id@)
                &&& appends_view_count(
                    old(self).notices(),
                    final(self).notices(),
                    session_id@,
                    before.subscribers.dom().insert(client_id),
                )
            },
    {
        let tx = match self.clients.get(&client_id) {
            Some(c) => match &c.state {
                ClientState::Unassigned => share_sender(&c.tx),
                _ => {
                    return PubSessionSubscribeResult::InvalidClientState;
                },
            },
            None => {
                return PubSessionSubscribeResult::InvalidClientId;
            },
        };
        let i = match self.session_position(session_id) {
            Some(i) => i,
            None => {
                return PubSessionSubscribeResult::InvalidSessionId;
            },
        };
        let ghost v = self.pub_sessions@;
        proof {
            lemma_session_map_at(v, i as int);
        }
        let mut s = self.pub_sessions.remove(i);
        s.add_subscriber(client_id, tx);
        self.announce_view_count(&s);
        let joined = s.session_id.clone();
        self.restore_session(i, s, Ghost(v));
        let ghost m = self.clients@;
        if let Some(mut c) = self.clients.remove(&client_id) {
            c.state = ClientState::Subscriber { session_id: joined };
            self.clients.insert(client_id, c);
            proof {
                assert(self.clients@ =~= m.insert(client_id, PubClient { state: self.clients@[client_id].state, ..m[client_id] }));
            }
        }
        PubSessionSubscribeResult::Success
    }

    /// Opens a session with id `session_id` owned by `owner_id`. Fails,
    /// changing nothing, when the owner is unknown or already has a role. On
    /// success the session starts with no subscribers (a live session with
    /// the same id is replaced) and the owner becomes its publisher.
    pub fn pub_session_create_with_id(&mut self, owner_id: u32, session_id: String) -> (r: Option<
        &PubSession,
    >)
        requires
            old(self).wf(),
            is_session_id(session_id@),
        ensures
            final(self).wf(),
            r is Some <==> old(self).clients().contains_key(owner_id)
                && old(self).clients()[owner_id].state is Unassigned,
            r is None ==> *final(self) == *old(self),
            r matches Some(s) ==> {
                &&& s.wf()
                &&& s@ == (SessionView { session_id: session_id@, owner_id, subscribers: Map::empty() })
                &&& final(self).counter() == old(self).counter()
                &&& final(self).sessions() == old(self).sessions().insert(session_id@, s@)
                &&& final(self).clients() == old(self).clients().insert(
                    owner_id,
                    PubClient { state: final(self).clients()[owner_id].state, ..old(self).clients()[owner_id] },
                )
                &&& final(self).clients()[owner_id].state.is_publisher_of(session_id@)
                &&& final(self).notices() == old(self).notices()
            },
    {
        match self.clients.get(&owner_id) {
            Some(c) => match &c.state {
                ClientState::Unassigned => {},
                _ => {
                    return None;
                },
            },
            None => {
                return None;
            },
        }
        let ghost m = self.clients@;
        if let Some(mut c) = self.clients.remove(&owner_id) {
            c.state = ClientState::Publisher { session_id: session_id.clone() };
            self.clients.insert(owner_id, c);
            proof {
                assert(self.clients@ =~= m.insert(owner_id, PubClient { state: self.clients@[owner_id].state, ..m[owner_id] }));
            }
        }
        let ghost v = self.pub_sessions@;
        let s = PubSession::new(owner_id, session_id.clone());
        let at = match self.session_position(&session_id) {
            Some(i) => {
                proof {
                    lemma_session_map_at(v, i as int);
                }
                self.pub_sessions.remove(i);
                self.restore_session(i, s, Ghost(v));
                proof {
                    assert(self.pub_sessions@[i as int] == s);
                }
                i
            },
            None => {
                self.pub_sessions.push(s);
                proof {
                    lemma_session_map_push(v, s);
                    assert forall|j: int| 0 <= j < self.pub_sessions@.len() implies (#[trigger] self.pub_sessions@[j]).wf() by {
                        if j < v.len() {
                            assert(self.pub_sessions@[j] == v[j]);
                        }
                    }
                    assert(self.pub_sessions@[v.len() as int] == s);
                }
                self.pub_sessions.len() - 1
            },
        };
        proof {
            lemma_session_map_at(self.pub_sessions@, at as int);
        }
        Some(&self.pub_sessions[at])
    }

    /// Opens a session with a fresh random id for `owner_id`, as
    /// `pub_session_create_with_id` does. The id is not checked against the
    /// live sessions.
    pub fn pub_session_create(&mut self, owner_id: u32) -> (r: Option<&PubSession>)
        requires
            old(self).wf(),
        ensures
            final(self).wf(),
            r is Some <==> old(self).clients().contains_key(owner_id)
                && old(self).clients()[owner_id].state is Unassigned,
            r is None ==> *final(self) == *old(self),
            r matches Some(s) ==> {
                &&& s.wf()
                &&& is_session_id(s@.session_id)
                &&& s@.owner_id == owner_id
                &&& s@.subscribers == Map::<u32, Sender<S2CMessage>>::empty()
                &&& final(self).counter() == old(self).counter()
                &&& final(self).sessions() == old(self).sessions().insert(s@.session_id, s@)
                &&& final(self).clients() == old(self).clients().insert(
                    owner_id,
                    PubClient { state: final(self).clients()[owner_id].state, ..old(self).clients()[owner_id] },
                )
                &&& final(self).clients()[owner_id].state.is_publisher_of(s@.session_id)
                &&& final(self).notices() == old(self).notices()
            },
    {
        match self.clients.get(&owner_id) {
            Some(c) => match &c.state {
                ClientState::Unassigned => {},
                _ => {
                    return None;
                },
            },
            None => {
                return None;
            },
        }
        let session_id = random_session_id();
        self.pub_session_create_with_id(owner_id, session_id)
    }
    /// Removes client `client_id`; nothing happens if it is not registered.
    /// A publisher's session is closed: it leaves the registry and its
    /// subscribers are told so once. A subscriber leaves its session as
    /// `pub_session_unsubscribe` says. An unassigned client leaves no trace.
    pub fn unregister_client(&mut self, client_id: u32)
        requires
            old(self).wf(),
        ensures
            final(self).wf(),
            !old(self).clients().contains_key(client_id) ==> final(self).same_registry(old(self)),
            old(self).clients().contains_key(client_id) ==> {
                let rest = old(self).clients().remove(client_id);
                &&& final(self).counter() == old(self).counter()
                &&& final(self).clients() == rest
                &&& match old(self).clients()[client_id].state {
                    ClientState::Publisher { session_id } => if old(self).sessions().contains_key(session_id@) {
                        &&& final(self).sessions() == old(self).sessions().remove(session_id@)
                        &&& final(self).notices().len() == old(self).notices().len() + 1
                        &&& final(self).notices().drop_last() == old(self).notices()
                        &&& final(self).notices().last().session_id == session_id@
                        &&& final(self).notices().last().recipients
                            == old(self).sessions()[session_id@].subscribers.dom()
                        &&& final(self).notices().last().outcomes.len()
                            == old(self).sessions()[session_id@].subscribers.len()
                        &&& final(self).notices().last().message == S2CMessage::NotifySessionClosed
                    } else {
                        &&& final(self).sessions() == old(self).sessions()
                        &&& final(self).notices() == old(self).notices()
                    },
                    ClientState::Subscriber { session_id } => {
                        &&& final(self).sessions() == sessions_without(old(self).sessions(), session_id@, client_id)
                        &&& old(self).sessions().contains_key(session_id@) ==> appends_view_count(
                            old(self).notices(),
                            final(self).notices(),
                            session_id@,
                            final(self).sessions()[session_id@].subscribers.dom(),
                        )
                        &&& !old(self).sessions().contains_key(session_id@) ==> final(self).notices() == old(self).notices()
                    },
                    ClientState::Unassigned => {
                        &&& final(self).sessions() == old(self).sessions()
                        &&& final(self).notices() == old(self).notices()
                    },
                }
            },
    {
        let ghost m = self.clients@;
        let client = match self.clients.remove(&client_id) {
            Some(c) => c,
            None => {
                proof {
                    assert(self.clients@ =~= m);
                }
                return;
            },
        };
        match client.state {
            ClientState::Publisher { session_id } => {
                if let Some(i) = self.session_position(&session_id) {
                    let ghost v = self.pub_sessions@;
                    let closed = self.pub_sessions.remove(i);
                    let message = S2CMessage::NotifySessionClosed;
                    let outcomes = closed.broadcast(&message);
                    proof {
                        lemma_session_map_at(v, i as int);
                        lemma_session_map_remove(v, i as int);
                        assert forall|j: int| 0 <= j < self.pub_sessions@.len() implies (#[trigger] self.pub_sessions@[j]).wf() by {
                            if j < i {
                                assert(self.pub_sessions@[j] == v[j]);
                            } else {
                                assert(self.pub_sessions@[j] == v[j + 1]);
                            }
                        }
                        let n = Notice {
                            session_id: session_id@,
                            recipients: closed@.subscribers.dom(),
                            outcomes: outcomes@,
                            message,
                        };
                        let log = self.notices@.push(n);
                        assert(log.drop_last() =~= self.notices@);
                        assert forall|k: int| 0 <= k < log.len() implies {
                            &&& (#[trigger] log[k]).outcomes.len() == log[k].recipients.len()
                            &&& (log[k].message matches S2CMessage::NotifyViewCount { viewers } ==> viewers
                                == log[k].recipients.len())
                        } by {
                            if k < self.notices@.len() {
                                assert(log[k] == self.notices@[k]);
                            }
                        }
                        self.notices = Ghost(log);
                    }
                }
            },
            ClientState::Subscriber { session_id } => {
                self.pub_session_unsubscribe(&session_id, client_id);
            },
            ClientState::Unassigned => {},
        }
    }
}

} // verus!
