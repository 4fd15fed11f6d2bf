use crate::message::{try_deliver, S2CMessage};
use crate::session_id::is_session_id;
use std::collections::BTreeMap;
use tokio::sync::mpsc::Sender;
use vstd::prelude::*;

verus! {

/// What a session is, abstractly: its id, its owner and its subscriber map,
/// from client id to the handle on that client's outbound queue.
pub struct SessionView {
    pub session_id: Seq<char>,
    pub owner_id: u32,
    pub subscribers: Map<u32, Sender<S2CMessage>>,
}

/// A live publish stream.
pub struct PubSession {
    pub owner_id: u32,
    pub session_id: String,
    pub(crate) subscriber: BTreeMap<u32, Sender<S2CMessage>>,
}

impl View for PubSession {
    type V = SessionView;

    closed spec fn view(&self) -> SessionView {
        SessionView {
            session_id: self.session_id@,
            owner_id: self.owner_id,
            subscribers: self.subscriber@,
        }
    }
}

/// The view of a session repeats its public fields.
pub(crate) broadcast proof fn lemma_view_fields(s: &PubSession)
    ensures
        #[trigger] s@.session_id == s.session_id@,
        s@.owner_id == s.owner_id,
{
}

impl PubSession {
    pub open spec fn wf(&self) -> bool {
        is_session_id(self@.session_id)
    }

    /// Size of the subscriber map.
    pub open spec fn spec_count(&self) -> nat {
        self@.subscribers.len()
    }

    /// An empty session owned by `owner_id`.
    pub fn new(owner_id: u32, session_id: String) -> (s: PubSession)
        requires
            is_session_id(session_id@),
        ensures
            s.wf(),
            s@ == (SessionView { session_id: session_id@, owner_id, subscribers: Map::empty() }),
    {
        PubSession { owner_id, session_id, subscriber: BTreeMap::new() }
    }

    /// Offers `message` to every subscriber, in ascending client id, without
    /// waiting: a subscriber whose queue is full or closed misses it, and the
    /// others are still offered it. Returns, per subscriber in that order,
    /// whether its queue took the message.
    pub fn broadcast(&self, message: &S2CMessage) -> (outcomes: Vec<bool>)
        ensures
            outcomes@.len() == self.spec_count(),
    {
        let mut outcomes: Vec<bool> = Vec::new();
        for tx in it: self.subscriber.values()
            invariant
                outcomes@.len() == it.index(),
        {
            outcomes.push(try_deliver(tx, message));
        }
        outcomes
    }

    /// Number of subscribers.
    pub fn subscriber_count(&self) -> (n: usize)
        ensures
            n == self.spec_count(),
    {
        self.subscriber.len()
    }

    /// Adds `client_id` with its queue handle, replacing the handle if the
    /// client is already subscribed.
    pub(crate) fn add_subscriber(&mut self, client_id: u32, tx: Sender<S2CMessage>)
        ensures
            final(self)@ == (SessionView {
                subscribers: old(self)@.subscribers.insert(client_id, tx),
                ..old(self)@
            }),
    {
        self.subscriber.insert(client_id, tx);
    }

    /// Drops `client_id` from the subscriber map; nothing changes if it is
    /// not there.
    pub(crate) fn remove_subscriber(&mut self, client_id: u32)
        ensures
            final(self)@ == (SessionView {
                subscribers: old(self)@.subscribers.remove(client_id),
                ..old(self)@
            }),
    {
        self.subscriber.remove(&client_id);
    }
}

} // verus!
