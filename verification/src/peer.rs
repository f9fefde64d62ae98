use crate::error::{error_view, ErrorKind, MediaSoupError};
use crate::ident::fresh_id;
use crate::registry::{
    lists, registry_clear, registry_entries, registry_get, registry_insert, registry_keys,
    registry_new,
};
use crate::signaling::{MessageView, SignalingMessage};
use crate::text::texts;
use dashmap::DashMap;
use vstd::prelude::*;

verus! {

/// The session of one connection: who it is, what it owns in the media engine, and the
/// messages that wait to be written to its socket.
#[derive(Debug)]
pub struct Peer {
    pub id: String,
    pub user_id: String,
    pub transports: DashMap<String, u64>,
    pub producers: DashMap<String, u64>,
    pub consumers: DashMap<String, u64>,
    /// The outbound queue, oldest message first.
    pub outbox: Vec<SignalingMessage>,
    /// False once the writer of the connection has ended.
    pub connected: bool,
}

/// A peer as mathematical data.
pub struct PeerView {
    pub id: Seq<char>,
    pub user_id: Seq<char>,
    pub transports: Map<Seq<char>, u64>,
    pub producers: Map<Seq<char>, u64>,
    pub consumers: Map<Seq<char>, u64>,
    pub outbox: Seq<MessageView>,
    pub connected: bool,
}

/// The views of a list of messages.
pub open spec fn messages_view(messages: Seq<SignalingMessage>) -> Seq<MessageView> {
    Seq::new(messages.len(), |i: int| messages[i]@)
}

impl PeerView {
    /// The peer after `message` was sent to it: the message is last in its queue, unless
    /// the peer is disconnected, which leaves it as it is.
    pub open spec fn deliver(self, message: MessageView) -> PeerView {
        if self.connected {
            PeerView { outbox: self.outbox.push(message), ..self }
        } else {
            self
        }
    }

    /// The peer after a broadcast of `message` that passes over the peer whose identifier
    /// is `skip`.
    pub open spec fn deliver_unless(self, skip: Option<Seq<char>>, message: MessageView) -> PeerView {
        if skip == Some(self.id) {
            self
        } else {
            self.deliver(message)
        }
    }

    /// The peer after each of `messages` was sent to it, in their order.
    pub open spec fn deliver_each(self, messages: Seq<MessageView>) -> PeerView {
        if self.connected {
            PeerView { outbox: self.outbox + messages, ..self }
        } else {
            self
        }
    }

    /// The peer with its three registries emptied.
    pub open spec fn closed(self) -> PeerView {
        PeerView {
            transports: Map::empty(),
            producers: Map::empty(),
            consumers: Map::empty(),
            ..self
        }
    }
}

impl View for Peer {
    type V = PeerView;

    open spec fn view(&self) -> PeerView {
        PeerView {
            id: self.id@,
            user_id: self.user_id@,
            transports: registry_entries(self.transports),
            producers: registry_entries(self.producers),
            consumers: registry_entries(self.consumers),
            outbox: messages_view(self.outbox@),
            connected: self.connected,
        }
    }
}

/// A registry with the entries of `m`.
fn copy_registry(m: &DashMap<String, u64>) -> (r: DashMap<String, u64>)
    ensures
        registry_entries(r) == registry_entries(*m),
{
    let keys = registry_keys(m);
    let mut out = registry_new();
    let mut i: usize = 0;
    while i < keys.len()
        invariant
            i <= keys.len(),
            lists(texts(keys@), registry_entries(*m).dom()),
            forall|k: Seq<char>| #[trigger]
                registry_entries(out).contains_key(k) ==> registry_entries(*m).contains_key(k)
                    && registry_entries(out)[k] == registry_entries(*m)[k],
            forall|j: int|
                0 <= j < i ==> registry_entries(out).contains_key(#[trigger] texts(keys@)[j]),
        decreases keys.len() - i,
    {
        assert(texts(keys@)[i as int] == keys@[i as int]@);
        assert(texts(keys@).contains(texts(keys@)[i as int]));
        match registry_get(m, keys[i].as_str()) {
            Some(handle) => {
                registry_insert(&mut out, keys[i].clone(), handle);
            },
            None => {},
        }
        i += 1;
    }
    assert forall|k: Seq<char>| registry_entries(*m).contains_key(k) implies registry_entries(
        out,
    ).contains_key(k) by {
        assert(texts(keys@).contains(k));
        let j = choose|j: int| 0 <= j < texts(keys@).len() && texts(keys@)[j] == k;
        assert(registry_entries(out).contains_key(texts(keys@)[j]));
    }
    assert(registry_entries(out) =~= registry_entries(*m));
    out
}

impl Clone for Peer {
    fn clone(&self) -> (r: Peer)
        ensures
            r@ == self@,
    {
        let mut outbox: Vec<SignalingMessage> = Vec::new();
        let mut i: usize = 0;
        while i < self.outbox.len()
            invariant
                i <= self.outbox.len(),
                outbox@.len() == i,
                forall|j: int| 0 <= j < i ==> outbox@[j]@ == self.outbox@[j]@,
            decreases self.outbox.len() - i,
        {
            outbox.push(self.outbox[i].clone());
            i += 1;
        }
        assert(messages_view(outbox@) =~= messages_view(self.outbox@));
        Peer {
            id: self.id.clone(),
            user_id: self.user_id.clone(),
            transports: copy_registry(&self.transports),
            producers: copy_registry(&self.producers),
            consumers: copy_registry(&self.consumers),
            outbox,
            connected: self.connected,
        }
    }
}

impl Peer {
    /// A new peer for the user `user_id`, with a fresh identifier, empty registries and an
    /// empty queue.
    pub fn new(user_id: String) -> (r: Peer)
        ensures
            r@.user_id == user_id@,
            r@.id.len() == 36,
            r@.transports == (Map::<Seq<char>, u64>::empty()),
            r@.producers == (Map::<Seq<char>, u64>::empty()),
            r@.consumers == (Map::<Seq<char>, u64>::empty()),
            r@.outbox == Seq::<MessageView>::empty(),
            r@.connected,
    {
        let outbox: Vec<SignalingMessage> = Vec::new();
        assert(messages_view(outbox@) =~= Seq::empty());
        Peer {
            id: fresh_id(),
            user_id,
            transports: registry_new(),
            producers: registry_new(),
            consumers: registry_new(),
            outbox,
            connected: true,
        }
    }

    /// Puts `message` at the end of the peer's queue. Fails, and changes nothing, if the
    /// peer is disconnected.
    pub fn send_message(&mut self, message: SignalingMessage) -> (r: Result<(), MediaSoupError>)
        ensures
            final(self)@ == old(self)@.deliver(message@),
            old(self)@.connected ==> r is Ok,
            !old(self)@.connected ==> r is Err && r->Err_0@ == error_view(
                ErrorKind::InvalidRequest,
                "Peer disconnected"@,
            ),
    {
        if self.connected {
            self.outbox.push(message);
            assert(messages_view(self.outbox@) =~= messages_view(old(self).outbox@).push(
                message@,
            ));
            Ok(())
        } else {
            Err(MediaSoupError::InvalidRequest("Peer disconnected".to_owned()))
        }
    }

    /// Forgets every transport, producer and consumer of the peer.
    pub fn close(&mut self) -> (r: Result<(), MediaSoupError>)
        ensures
            r is Ok,
            final(self)@ == old(self)@.closed(),
    {
        registry_clear(&mut self.consumers);
        registry_clear(&mut self.producers);
        registry_clear(&mut self.transports);
        Ok(())
    }

    /// Hands out the queued messages, oldest first, and leaves the queue empty.
    pub fn take_messages(&mut self) -> (r: Vec<SignalingMessage>)
        ensures
            messages_view(r@) == old(self)@.outbox,
            final(self)@ == (PeerView { outbox: Seq::empty(), ..old(self)@ }),
    {
        let mut out: Vec<SignalingMessage> = Vec::new();
        out.append(&mut self.outbox);
        assert(messages_view(out@) =~= messages_view(old(self).outbox@));
        assert(messages_view(self.outbox@) =~= Seq::empty());
        out
    }

    /// Marks the peer as disconnected: from now on nothing can be sent to it.
    pub fn disconnect(&mut self)
        ensures
            final(self)@ == (PeerView { connected: false, ..old(self)@ }),
    {
        self.connected = false;
    }
}

} // verus!
