use crate::config::{listen_ips_view, ListenIp, ListenIpView};
use crate::engine::{
    codecs_view, parameters_view, Consumer, ConsumerOptions, ConsumerOptionsView, EngineFailure,
    ListenInfo, ListenInfoView, MediaKind, MimeTypeAudio, MimeTypeVideo, Producer,
    ProducerOptions, ProducerOptionsView, Router, RouterView, RtcpFeedback, RtpCodecCapability,
    RtpCodecCapabilityView, WebRtcTransport, WebRtcTransportOptions, WebRtcTransportOptionsView,
};
use crate::error::{error_view, ErrorKind, ErrorView, MediaSoupError};
use crate::json::{opt_value, Value, ValueView};
use crate::payload::{
    new_producer_payload, producer_closed_payload, NewProducerNotification,
    ProducerClosedNotification,
};
use crate::peer::{messages_view, Peer, PeerView};
use crate::registry::{lists, registry_get, registry_insert, registry_keys};
use crate::signaling::{MessageView, SignalingMessage};
use crate::text::{clone_opt_text, str_eq, texts};
use dashmap::DashMap;
use vstd::prelude::*;

verus! {

/// Who is in a room: each peer, by the identifier under which it joined.
pub uninterp spec fn roster_entries(m: DashMap<String, Peer>) -> Map<Seq<char>, PeerView>;

/// `DashMap::new`: a map without entries.
#[verifier::external_body]
pub(crate) fn roster_new() -> (m: DashMap<String, Peer>)
    ensures
        roster_entries(m) == (Map::<Seq<char>, PeerView>::empty()),
{
    DashMap::new()
}

/// `DashMap::insert`: afterwards the map holds `peer` under `key` and is otherwise as
/// before.
#[verifier::external_body]
pub(crate) fn roster_insert(m: &mut DashMap<String, Peer>, key: String, peer: Peer)
    ensures
        roster_entries(*final(m)) == roster_entries(*old(m)).insert(key@, peer@),
{
    m.insert(key, peer);
}

/// `DashMap::remove`: the peer held under `key`, if any, is taken out and returned; the map
/// is otherwise as before.
#[verifier::external_body]
pub(crate) fn roster_remove(m: &mut DashMap<String, Peer>, key: &str) -> (r: Option<Peer>)
    ensures
        roster_entries(*final(m)) == roster_entries(*old(m)).remove(key@),
        r is Some <==> roster_entries(*old(m)).contains_key(key@),
        r is Some ==> r->Some_0@ == roster_entries(*old(m))[key@],
{
    m.remove(key).map(|entry| entry.1)
}

/// `DashMap::view`, with `Peer::clone` as the function that is applied to the entry: a copy
/// of the peer held under `key`, if any.
#[verifier::external_body]
pub(crate) fn roster_get(m: &DashMap<String, Peer>, key: &str) -> (r: Option<Peer>)
    ensures
        r is Some <==> roster_entries(*m).contains_key(key@),
        r is Some ==> r->Some_0@ == roster_entries(*m)[key@],
{
    m.view(key, |_, peer| peer.clone())
}

/// `DashMap::contains_key`: true if the map holds a peer under `key`.
#[verifier::external_body]
pub(crate) fn roster_contains(m: &DashMap<String, Peer>, key: &str) -> (r: bool)
    ensures
        r == roster_entries(*m).contains_key(key@),
{
    m.contains_key(key)
}

/// `DashMap::iter`, with each key copied out: every key of the map, once. The order in
/// which the map is walked is left open.
#[verifier::external_body]
pub(crate) fn roster_keys(m: &DashMap<String, Peer>) -> (r: Vec<String>)
    ensures
        lists(texts(r@), roster_entries(*m).dom()),
{
    m.iter().map(|entry| entry.key().clone()).collect()
}

/// A room: one router of the media engine and the peers that have joined.
#[derive(Debug)]
pub struct Room {
    pub id: String,
    pub router: Router,
    pub peers: DashMap<String, Peer>,
}

/// A room as mathematical data.
pub struct RoomView {
    pub id: Seq<char>,
    pub router: RouterView,
    pub peers: Map<Seq<char>, PeerView>,
}

impl View for Room {
    type V = RoomView;

    open spec fn view(&self) -> RoomView {
        RoomView {
            id: self.id@,
            router: self.router@,
            peers: roster_entries(self.peers),
        }
    }
}

/// The notification that tells of the new producer `id`, which the user `user_id` owns.
pub open spec fn new_producer(id: Seq<char>, user_id: Seq<char>, kind: MediaKind) -> MessageView {
    MessageView {
        id: None,
        method: "newProducer"@,
        data: Some(new_producer_payload(id, user_id, kind.label())),
    }
}

/// The notification that tells that the producer `id` is gone.
pub open spec fn producer_closed(id: Seq<char>) -> MessageView {
    MessageView { id: None, method: "producerClosed"@, data: Some(producer_closed_payload(id)) }
}

/// The notifications that tell that the producers `ids` are gone, in the order of `ids`.
pub open spec fn closed_notes(ids: Seq<Seq<char>>) -> Seq<MessageView> {
    Seq::new(ids.len(), |i: int| producer_closed(ids[i]))
}

/// The error that a failed call into the engine becomes: parameters that the engine does
/// not take are a decoding error; any other failure is an error of kind `kind`.
pub open spec fn failure_error(kind: ErrorKind, failure: EngineFailure) -> ErrorView {
    match failure {
        EngineFailure::Malformed(d) => error_view(ErrorKind::Json, d@),
        EngineFailure::Failed(d) => error_view(kind, d@),
    }
}

/// The address on which a new transport listens: the first of the configured ones, or
/// `0.0.0.0` where none is configured.
pub open spec fn chosen_listen(ips: Seq<ListenIpView>) -> ListenInfoView {
    if ips.len() > 0 {
        ListenInfoView { ip: ips[0].ip, announced_address: ips[0].announced_ip }
    } else {
        ListenInfoView { ip: "0.0.0.0"@, announced_address: None }
    }
}

/// The error that a failed call into the engine becomes.
pub fn engine_error(kind: ErrorKind, failure: EngineFailure) -> (r: MediaSoupError)
    ensures
        r@ == failure_error(kind, failure),
{
    match failure {
        EngineFailure::Malformed(d) => MediaSoupError::Json(d),
        EngineFailure::Failed(d) => MediaSoupError::of(kind, d),
    }
}

impl RoomView {
    /// Every peer stands under its own identifier.
    pub open spec fn wf(self) -> bool {
        forall|k: Seq<char>| self.peers.contains_key(k) ==> (#[trigger] self.peers[k]).id == k
    }

    /// The room after `message` was sent to every peer but the one whose identifier is
    /// `skip`.
    pub open spec fn deliver_to(self, skip: Option<Seq<char>>, message: MessageView) -> RoomView {
        RoomView {
            peers: self.peers.map_values(|p: PeerView| p.deliver_unless(skip, message)),
            ..self
        }
    }

    /// The room after `message` was sent to every peer but the one whose identifier is
    /// `sender`.
    pub open spec fn broadcast_to_others(self, sender: Seq<char>, message: MessageView) -> RoomView {
        self.deliver_to(Some(sender), message)
    }

    /// The room after `message` was sent to every peer.
    pub open spec fn broadcast_to_all(self, message: MessageView) -> RoomView {
        self.deliver_to(None, message)
    }

    /// The room after each of `messages` was sent, in their order, to every peer but the
    /// one whose identifier is `sender`.
    pub open spec fn announce(self, sender: Seq<char>, messages: Seq<MessageView>) -> RoomView {
        RoomView {
            peers: self.peers.map_values(
                |p: PeerView|
                    if p.id == sender {
                        p
                    } else {
                        p.deliver_each(messages)
                    },
            ),
            ..self
        }
    }

    /// The room after the peer under `peer_id` has left: the peer is gone, and every peer
    /// that stays was sent one `producerClosed` notification for each of `order`. A room
    /// that has no such peer stays as it is.
    pub open spec fn remove_peer(self, peer_id: Seq<char>, order: Seq<Seq<char>>) -> RoomView {
        if self.peers.contains_key(peer_id) {
            RoomView { peers: self.peers.remove(peer_id), ..self }.announce(
                self.peers[peer_id].id,
                closed_notes(order),
            )
        } else {
            self
        }
    }

    /// The handle of the transport `transport_id` of the peer under `peer_id`.
    pub open spec fn resolve_transport(self, peer_id: Seq<char>, transport_id: Seq<char>) -> Result<
        u64,
        ErrorView,
    > {
        if !self.peers.contains_key(peer_id) {
            Err(error_view(ErrorKind::PeerNotFound, peer_id))
        } else if !self.peers[peer_id].transports.contains_key(transport_id) {
            Err(error_view(ErrorKind::TransportNotFound, transport_id))
        } else {
            Ok(self.peers[peer_id].transports[transport_id])
        }
    }

    /// The handle of the producer `producer_id` that the peer under `peer_id` owns.
    pub open spec fn resolve_producer(self, peer_id: Seq<char>, producer_id: Seq<char>) -> Result<
        u64,
        ErrorView,
    > {
        if !self.peers.contains_key(peer_id) {
            Err(error_view(ErrorKind::PeerNotFound, peer_id))
        } else if !self.peers[peer_id].producers.contains_key(producer_id) {
            Err(error_view(ErrorKind::ProducerNotFound, producer_id))
        } else {
            Ok(self.peers[peer_id].producers[producer_id])
        }
    }

    /// True if some peer of the room owns the producer `producer_id`.
    pub open spec fn has_producer(self, producer_id: Seq<char>) -> bool {
        exists|k: Seq<char>|
            self.peers.contains_key(k) && (#[trigger] self.peers[k]).producers.contains_key(
                producer_id,
            )
    }

    /// What the engine is asked for when the peer under `peer_id` wants a transport.
    pub open spec fn plan_transport(
        self,
        peer_id: Seq<char>,
        listen_ips: Seq<ListenIpView>,
        enable_udp: bool,
        enable_tcp: bool,
        prefer_udp: bool,
        enable_sctp: bool,
    ) -> Result<WebRtcTransportOptionsView, ErrorView> {
        if !self.peers.contains_key(peer_id) {
            Err(error_view(ErrorKind::PeerNotFound, peer_id))
        } else {
            Ok(
                WebRtcTransportOptionsView {
                    router: self.router.handle,
                    listen_info: chosen_listen(listen_ips),
                    enable_udp,
                    enable_tcp,
                    prefer_udp,
                    enable_sctp,
                },
            )
        }
    }

    /// What the engine is asked for when the peer under `peer_id` wants to produce on its
    /// transport `transport_id`.
    pub open spec fn plan_producer(
        self,
        peer_id: Seq<char>,
        transport_id: Seq<char>,
        kind: MediaKind,
        rtp_parameters: ValueView,
        app_data: Option<ValueView>,
    ) -> Result<ProducerOptionsView, ErrorView> {
        match self.resolve_transport(peer_id, transport_id) {
            Err(e) => Err(e),
            Ok(transport) => Ok(ProducerOptionsView { transport, kind, rtp_parameters, app_data }),
        }
    }

    /// What the engine is asked for when the peer under `peer_id` wants to consume the
    /// producer `producer_id` on its transport `transport_id`, where `can_consume` is what
    /// the router said of the capabilities.
    pub open spec fn plan_consumer(
        self,
        peer_id: Seq<char>,
        transport_id: Seq<char>,
        producer_id: Seq<char>,
        rtp_capabilities: ValueView,
        can_consume: bool,
    ) -> Result<ConsumerOptionsView, ErrorView> {
        match self.resolve_transport(peer_id, transport_id) {
            Err(e) => Err(e),
            Ok(transport) => if !self.has_producer(producer_id) {
                Err(error_view(ErrorKind::ProducerNotFound, producer_id))
            } else if !can_consume {
                Err(error_view(ErrorKind::Consumer, "Cannot consume producer"@))
            } else {
                Ok(ConsumerOptionsView { transport, producer_id, rtp_capabilities })
            },
        }
    }

    /// The room after the transport `id` was put into the registry of the peer under
    /// `peer_id`.
    pub open spec fn register_transport(self, peer_id: Seq<char>, id: Seq<char>, handle: u64) -> RoomView {
        let owner = self.peers[peer_id];
        self.with_peer(
            peer_id,
            PeerView { transports: owner.transports.insert(id, handle), ..owner },
        )
    }

    /// The room after the producer `id` was put into the registry of the peer under
    /// `peer_id` and every other peer was told of it.
    pub open spec fn register_producer(
        self,
        peer_id: Seq<char>,
        id: Seq<char>,
        handle: u64,
        kind: MediaKind,
    ) -> RoomView {
        let owner = self.peers[peer_id];
        self.with_peer(
            peer_id,
            PeerView { producers: owner.producers.insert(id, handle), ..owner },
        ).broadcast_to_others(owner.id, new_producer(id, owner.user_id, kind))
    }

    /// The room after the consumer `id` was put into the registry of the peer under
    /// `peer_id`.
    pub open spec fn register_consumer(self, peer_id: Seq<char>, id: Seq<char>, handle: u64) -> RoomView {
        let owner = self.peers[peer_id];
        self.with_peer(
            peer_id,
            PeerView { consumers: owner.consumers.insert(id, handle), ..owner },
        )
    }

    /// The room after `message` was sent to the peer under `peer_id`.
    pub open spec fn send_to(self, peer_id: Seq<char>, message: MessageView) -> RoomView {
        if self.peers.contains_key(peer_id) {
            self.with_peer(peer_id, self.peers[peer_id].deliver(message))
        } else {
            self
        }
    }

    /// The messages that wait for the peer under `peer_id`.
    pub open spec fn waiting(self, peer_id: Seq<char>) -> Seq<MessageView> {
        if self.peers.contains_key(peer_id) {
            self.peers[peer_id].outbox
        } else {
            Seq::empty()
        }
    }

    /// The room after the queue of the peer under `peer_id` was emptied.
    pub open spec fn drained(self, peer_id: Seq<char>) -> RoomView {
        if self.peers.contains_key(peer_id) {
            self.with_peer(peer_id, PeerView { outbox: Seq::empty(), ..self.peers[peer_id] })
        } else {
            self
        }
    }

    /// The room after the peer under `peer_id` was marked as disconnected.
    pub open spec fn disconnected(self, peer_id: Seq<char>) -> RoomView {
        if self.peers.contains_key(peer_id) {
            self.with_peer(peer_id, PeerView { connected: false, ..self.peers[peer_id] })
        } else {
            self
        }
    }

    /// The room with the peer `peer` under the key `key`.
    pub open spec fn with_peer(self, key: Seq<char>, peer: PeerView) -> RoomView {
        RoomView { peers: self.peers.insert(key, peer), ..self }
    }
}

/// The feedback messages of every video codec of a room.
pub open spec fn video_feedback() -> Seq<RtcpFeedback> {
    seq![RtcpFeedback::Nack, RtcpFeedback::NackPli, RtcpFeedback::CcmFir, RtcpFeedback::GoogRemb]
}

/// The codecs that every room's router is made with: Opus with two channels at 48 kHz,
/// and VP8, VP9 with profile 2 and H264 at 90 kHz.
pub open spec fn room_codecs() -> Seq<RtpCodecCapabilityView> {
    seq![
        RtpCodecCapabilityView::Audio {
            mime_type: MimeTypeAudio::Opus,
            preferred_payload_type: None,
            clock_rate: 48000,
            channels: 2,
            parameters: Seq::empty(),
            rtcp_feedback: Seq::empty(),
        },
        RtpCodecCapabilityView::Video {
            mime_type: MimeTypeVideo::Vp8,
            preferred_payload_type: None,
            clock_rate: 90000,
            parameters: Seq::empty(),
            rtcp_feedback: video_feedback(),
        },
        RtpCodecCapabilityView::Video {
            mime_type: MimeTypeVideo::Vp9,
            preferred_payload_type: None,
            clock_rate: 90000,
            parameters: seq![("profile-id"@, "2"@)],
            rtcp_feedback: video_feedback(),
        },
        RtpCodecCapabilityView::Video {
            mime_type: MimeTypeVideo::H264,
            preferred_payload_type: None,
            clock_rate: 90000,
            parameters: seq![
                ("packetization-mode"@, "1"@),
                ("profile-level-id"@, "4d0032"@),
                ("level-asymmetry-allowed"@, "1"@),
            ],
            rtcp_feedback: video_feedback(),
        },
    ]
}

/// The feedback messages of a video codec.
fn video_feedback_list() -> (r: Vec<RtcpFeedback>)
    ensures
        r@ == video_feedback(),
{
    let mut list: Vec<RtcpFeedback> = Vec::new();
    list.push(RtcpFeedback::Nack);
    list.push(RtcpFeedback::NackPli);
    list.push(RtcpFeedback::CcmFir);
    list.push(RtcpFeedback::GoogRemb);
    assert(list@ =~= video_feedback());
    list
}

/// Adds the parameter `name` with the value `value` at the end of `parameters`.
fn push_parameter(parameters: &mut Vec<(String, String)>, name: &str, value: &str)
    ensures
        parameters_view(final(parameters)@) == parameters_view(old(parameters)@).push(
            (name@, value@),
        ),
{
    parameters.push((name.to_owned(), value.to_owned()));
    assert(parameters_view(parameters@) =~= parameters_view(old(parameters)@).push(
        (name@, value@),
    ));
}

/// Announcing nothing changes nothing.
proof fn lemma_announce_none(room: RoomView, sender: Seq<char>)
    ensures
        room.announce(sender, Seq::empty()) == room,
{
    assert forall|k: Seq<char>| room.peers.contains_key(k) implies room.announce(
        sender,
        Seq::empty(),
    ).peers[k] == room.peers[k] by {
        assert(room.peers[k].outbox + Seq::<MessageView>::empty() =~= room.peers[k].outbox);
    }
    assert(room.announce(sender, Seq::empty()).peers =~= room.peers);
}

/// Announcing `messages` and then `last` is announcing `messages` with `last` at its end.
proof fn lemma_announce_step(
    room: RoomView,
    sender: Seq<char>,
    messages: Seq<MessageView>,
    last: MessageView,
)
    ensures
        room.announce(sender, messages).deliver_to(Some(sender), last) == room.announce(
            sender,
            messages.push(last),
        ),
{
    let left = room.announce(sender, messages).deliver_to(Some(sender), last);
    let right = room.announce(sender, messages.push(last));
    assert forall|k: Seq<char>| room.peers.contains_key(k) implies left.peers[k]
        == right.peers[k] by {
        let p = room.peers[k];
        assert((p.outbox + messages).push(last) =~= p.outbox + messages.push(last));
    }
    assert(left.peers =~= right.peers);
}

impl Room {
    /// A room around the router `router`, with no peer in it.
    pub fn new(id: String, router: Router) -> (r: Room)
        ensures
            r@ == (RoomView { id: id@, router: router@, peers: Map::empty() }),
    {
        let room = Room { id, router, peers: roster_new() };
        assert(room@.peers =~= Map::empty());
        room
    }

    /// Puts `peer` into the room under its identifier. A peer that stood there before is
    /// replaced.
    pub fn add_peer(&mut self, peer: Peer) -> (r: Result<(), MediaSoupError>)
        ensures
            r is Ok,
            final(self)@ == old(self)@.with_peer(peer@.id, peer@),
    {
        let key = peer.id.clone();
        roster_insert(&mut self.peers, key, peer);
        assert(self@.peers =~= old(self)@.peers.insert(peer@.id, peer@));
        Ok(())
    }

    /// A copy of the peer that stands under `peer_id`.
    pub fn get_peer(&self, peer_id: &str) -> (r: Option<Peer>)
        ensures
            r is Some <==> self@.peers.contains_key(peer_id@),
            r is Some ==> r->Some_0@ == self@.peers[peer_id@],
    {
        roster_get(&self.peers, peer_id)
    }

    /// Sends `message` to every peer of the room but the one whose identifier is `skip`.
    fn deliver_to(&mut self, skip: Option<&str>, message: &SignalingMessage)
        ensures
            final(self)@ == old(self)@.deliver_to(
                match skip {
                    Some(s) => Some(s@),
                    None => None,
                },
                message@,
            ),
    {
        let ghost skipped: Option<Seq<char>> = match skip {
            Some(s) => Some(s@),
            None => None,
        };
        let ghost before = roster_entries(self.peers);
        let keys = roster_keys(&self.peers);
        let mut i: usize = 0;
        while i < keys.len()
            invariant
                i <= keys.len(),
                lists(texts(keys@), before.dom()),
                roster_entries(self.peers).dom() == before.dom(),
                self.id == old(self).id,
                self.router == old(self).router,
                skipped == (match skip {
                    Some(s) => Some(s@),
                    None => None,
                }),
                forall|j: int|
                    0 <= j < i ==> #[trigger] roster_entries(self.peers)[texts(keys@)[j]]
                        == before[texts(keys@)[j]].deliver_unless(skipped, message@),
                forall|j: int|
                    i <= j < keys.len() ==> #[trigger] roster_entries(self.peers)[texts(
                        keys@,
                    )[j]] == before[texts(keys@)[j]],
            decreases keys.len() - i,
        {
            let key = keys[i].clone();
            assert(texts(keys@)[i as int] == key@);
            assert(texts(keys@).contains(key@));
            let ghost current = roster_entries(self.peers);
            match roster_remove(&mut self.peers, key.as_str()) {
                Some(mut peer) => {
                    let skip_this = match skip {
                        Some(s) => str_eq(peer.id.as_str(), s),
                        None => false,
                    };
                    if !skip_this {
                        let _ = peer.send_message(message.clone());
                    }
                    roster_insert(&mut self.peers, key, peer);
                    assert(roster_entries(self.peers).dom() =~= before.dom());
                },
                None => {},
            }
            assert forall|j: int| 0 <= j < keys.len() && j != i implies #[trigger] roster_entries(
                self.peers,
            )[texts(keys@)[j]] == current[texts(keys@)[j]] by {
                assert(texts(keys@)[j] != texts(keys@)[i as int]);
            }
            i += 1;
        }
        assert forall|k: Seq<char>| before.contains_key(k) implies #[trigger] roster_entries(
            self.peers,
        )[k] == before[k].deliver_unless(skipped, message@) by {
            assert(texts(keys@).contains(k));
            let j = choose|j: int| 0 <= j < texts(keys@).len() && texts(keys@)[j] == k;
            assert(roster_entries(self.peers)[texts(keys@)[j]] == before[texts(
                keys@,
            )[j]].deliver_unless(skipped, message@));
        }
        assert(self@.peers =~= old(self)@.deliver_to(skipped, message@).peers);
    }

    /// Sends `message` to every peer of the room but the one whose identifier is
    /// `sender_id`. A peer that is disconnected is passed over; the others still get the
    /// message.
    pub fn broadcast_to_others(&mut self, sender_id: &str, message: SignalingMessage) -> (r:
        Result<(), MediaSoupError>)
        ensures
            r is Ok,
            final(self)@ == old(self)@.broadcast_to_others(sender_id@, message@),
    {
        self.deliver_to(Some(sender_id), &message);
        Ok(())
    }

    /// Sends `message` to every peer of the room. A peer that is disconnected is passed
    /// over; the others still get the message.
    pub fn broadcast_to_all(&mut self, message: SignalingMessage) -> (r: Result<
        (),
        MediaSoupError,
    >)
        ensures
            r is Ok,
            final(self)@ == old(self)@.broadcast_to_all(message@),
    {
        self.deliver_to(None, &message);
        Ok(())
    }

    /// Removes the peer under `peer_id`: its registries are emptied, and every peer that
    /// stays is sent one `producerClosed` notification for each producer that the peer
    /// owned. In which order the producers are named is left open; it is the same for
    /// every peer. A room that has no such peer stays as it is.
    pub fn remove_peer(&mut self, peer_id: &str) -> (r: Result<(), MediaSoupError>)
        ensures
            r is Ok,
            exists|order: Seq<Seq<char>>|
                (old(self)@.peers.contains_key(peer_id@) ==> lists(
                    order,
                    old(self)@.peers[peer_id@].producers.dom(),
                )) && final(self)@ == #[trigger] old(self)@.remove_peer(peer_id@, order),
    {
        match roster_remove(&mut self.peers, peer_id) {
            Some(mut peer) => {
                let closed = registry_keys(&peer.producers);
                let _ = peer.close();
                let ghost base = self@;
                let ghost order = texts(closed@);
                assert(base.peers =~= old(self)@.peers.remove(peer_id@));
                assert(closed_notes(order.take(0)) =~= Seq::empty());
                proof {
                    lemma_announce_none(base, peer.id@);
                }
                let mut i: usize = 0;
                while i < closed.len()
                    invariant
                        i <= closed.len(),
                        order == texts(closed@),
                        self@ == base.announce(peer.id@, closed_notes(order.take(i as int))),
                    decreases closed.len() - i,
                {
                    let gone = ProducerClosedNotification { producer_id: closed[i].clone() };
                    let note = SignalingMessage::notification(
                        "producerClosed".to_owned(),
                        Some(gone.to_value()),
                    );
                    proof {
                        assert(note@ == producer_closed(order[i as int]));
                        assert(closed_notes(order.take(i as int)).push(note@) =~= closed_notes(
                            order.take(i as int + 1),
                        ));
                        lemma_announce_step(
                            base,
                            peer.id@,
                            closed_notes(order.take(i as int)),
                            note@,
                        );
                    }
                    self.deliver_to(Some(peer.id.as_str()), &note);
                    i += 1;
                }
                assert(order.take(closed.len() as int) =~= order);
                assert(self@ == old(self)@.remove_peer(peer_id@, order));
            },
            None => {
                assert(self@.peers =~= old(self)@.peers);
                assert(self@ == old(self)@.remove_peer(peer_id@, Seq::empty()));
            },
        }
        Ok(())
    }

    /// The handle of the transport `transport_id` of the peer under `peer_id`.
    pub fn transport_handle(&mut self, peer_id: &str, transport_id: &str) -> (r: Result<
        u64,
        MediaSoupError,
    >)
        ensures
            final(self)@ == old(self)@,
            match r {
                Ok(h) => old(self)@.resolve_transport(peer_id@, transport_id@) == Ok::<
                    u64,
                    ErrorView,
                >(h),
                Err(e) => old(self)@.resolve_transport(peer_id@, transport_id@) == Err::<
                    u64,
                    ErrorView,
                >(e@),
            },
    {
        match roster_remove(&mut self.peers, peer_id) {
            None => {
                assert(self@.peers =~= old(self)@.peers);
                Err(MediaSoupError::PeerNotFound(peer_id.to_owned()))
            },
            Some(peer) => {
                let found = registry_get(&peer.transports, transport_id);
                roster_insert(&mut self.peers, peer_id.to_owned(), peer);
                assert(roster_entries(self.peers) =~= roster_entries(old(self).peers));
                match found {
                    Some(h) => Ok(h),
                    None => Err(MediaSoupError::TransportNotFound(transport_id.to_owned())),
                }
            },
        }
    }

    /// The handle of the producer `producer_id` that the peer under `peer_id` owns.
    /// Producers of other peers are not looked at.
    pub fn producer_handle(&mut self, peer_id: &str, producer_id: &str) -> (r: Result<
        u64,
        MediaSoupError,
    >)
        ensures
            final(self)@ == old(self)@,
            match r {
                Ok(h) => old(self)@.resolve_producer(peer_id@, producer_id@) == Ok::<
                    u64,
                    ErrorView,
                >(h),
                Err(e) => old(self)@.resolve_producer(peer_id@, producer_id@) == Err::<
                    u64,
                    ErrorView,
                >(e@),
            },
    {
        match roster_remove(&mut self.peers, peer_id) {
            None => {
                assert(self@.peers =~= old(self)@.peers);
                Err(MediaSoupError::PeerNotFound(peer_id.to_owned()))
            },
            Some(peer) => {
                let found = registry_get(&peer.producers, producer_id);
                roster_insert(&mut self.peers, peer_id.to_owned(), peer);
                assert(roster_entries(self.peers) =~= roster_entries(old(self).peers));
                match found {
                    Some(h) => Ok(h),
                    None => Err(MediaSoupError::ProducerNotFound(producer_id.to_owned())),
                }
            },
        }
    }

    /// True if the peer under `key` owns the producer `producer_id`.
    fn peer_owns_producer(&mut self, key: &str, producer_id: &str) -> (r: bool)
        ensures
            roster_entries(final(self).peers) == roster_entries(old(self).peers),
            final(self).id == old(self).id,
            final(self).router == old(self).router,
            r == (old(self)@.peers.contains_key(key@) && old(self)@.peers[key@].producers.contains_key(
                producer_id@,
            )),
    {
        match roster_remove(&mut self.peers, key) {
            None => {
                assert(roster_entries(self.peers) =~= roster_entries(old(self).peers));
                false
            },
            Some(peer) => {
                let found = registry_get(&peer.producers, producer_id);
                roster_insert(&mut self.peers, key.to_owned(), peer);
                assert(roster_entries(self.peers) =~= roster_entries(old(self).peers));
                found.is_some()
            },
        }
    }

    /// True if some peer of the room owns the producer `producer_id`.
    pub fn has_producer(&mut self, producer_id: &str) -> (r: bool)
        ensures
            final(self)@ == old(self)@,
            r == old(self)@.has_producer(producer_id@),
    {
        let keys = roster_keys(&self.peers);
        let ghost before = roster_entries(self.peers);
        let mut found = false;
        let mut i: usize = 0;
        while i < keys.len() && !found
            invariant
                i <= keys.len(),
                lists(texts(keys@), before.dom()),
                roster_entries(self.peers) == before,
                self.id == old(self).id,
                self.router == old(self).router,
                before == roster_entries(old(self).peers),
                found ==> old(self)@.has_producer(producer_id@),
                !found ==> forall|j: int|
                    0 <= j < i ==> !(#[trigger] old(self)@.peers[texts(
                        keys@,
                    )[j]]).producers.contains_key(producer_id@),
            decreases keys.len() - i,
        {
            assert(texts(keys@)[i as int] == keys@[i as int]@);
            assert(texts(keys@).contains(texts(keys@)[i as int]));
            if self.peer_owns_producer(keys[i].as_str(), producer_id) {
                found = true;
            }
            i += 1;
        }
        proof {
            if !found {
                assert forall|k: Seq<char>| old(self)@.peers.contains_key(k) implies !(
                #[trigger] old(self)@.peers[k]).producers.contains_key(producer_id@) by {
                    assert(texts(keys@).contains(k));
                    let j = choose|j: int| 0 <= j < texts(keys@).len() && texts(keys@)[j] == k;
                    assert(!old(self)@.peers[texts(keys@)[j]].producers.contains_key(
                        producer_id@,
                    ));
                }
            }
        }
        found
    }

    /// What the engine is asked for when the peer under `peer_id` wants a transport: one
    /// on the room's router that listens on the first of `listen_ips`. The room stays as it
    /// is; the transport joins it through `register_transport`.
    pub fn create_webrtc_transport(
        &self,
        peer_id: &str,
        listen_ips: Vec<ListenIp>,
        enable_udp: bool,
        enable_tcp: bool,
        prefer_udp: bool,
        enable_sctp: bool,
    ) -> (r: Result<WebRtcTransportOptions, MediaSoupError>)
        ensures
            match r {
                Ok(o) => self@.plan_transport(
                    peer_id@,
                    listen_ips_view(listen_ips@),
                    enable_udp,
                    enable_tcp,
                    prefer_udp,
                    enable_sctp,
                ) == Ok::<WebRtcTransportOptionsView, ErrorView>(o@),
                Err(e) => self@.plan_transport(
                    peer_id@,
                    listen_ips_view(listen_ips@),
                    enable_udp,
                    enable_tcp,
                    prefer_udp,
                    enable_sctp,
                ) == Err::<WebRtcTransportOptionsView, ErrorView>(e@),
            },
    {
        if !roster_contains(&self.peers, peer_id) {
            return Err(MediaSoupError::PeerNotFound(peer_id.to_owned()));
        }
        let listen_info = if listen_ips.len() > 0 {
            ListenInfo {
                ip: listen_ips[0].ip.clone(),
                announced_address: clone_opt_text(&listen_ips[0].announced_ip),
            }
        } else {
            ListenInfo { ip: "0.0.0.0".to_owned(), announced_address: None }
        };
        Ok(
            WebRtcTransportOptions {
                router: self.router.handle,
                listen_info,
                enable_udp,
                enable_tcp,
                prefer_udp,
                enable_sctp,
            },
        )
    }

    /// Takes the engine's answer to the making of a transport for the peer under
    /// `peer_id`. A transport that was made is put into the peer's registry and handed
    /// back; a failure becomes an error and leaves the room as it is.
    pub fn register_transport(
        &mut self,
        peer_id: &str,
        outcome: Result<WebRtcTransport, EngineFailure>,
    ) -> (r: Result<WebRtcTransport, MediaSoupError>)
        ensures
            match outcome {
                Err(f) => r is Err && r->Err_0@ == failure_error(ErrorKind::Request, f)
                    && final(self)@ == old(self)@,
                Ok(t) => if old(self)@.peers.contains_key(peer_id@) {
                    r is Ok && r->Ok_0@ == t@ && final(self)@ == old(self)@.register_transport(
                        peer_id@,
                        t@.id,
                        t@.handle,
                    )
                } else {
                    r is Err && r->Err_0@ == error_view(ErrorKind::PeerNotFound, peer_id@)
                        && final(self)@ == old(self)@
                },
            },
    {
        let transport = match outcome {
            Ok(t) => t,
            Err(f) => {
                return Err(engine_error(ErrorKind::Request, f));
            },
        };
        match roster_remove(&mut self.peers, peer_id) {
            None => {
                assert(self@.peers =~= old(self)@.peers);
                Err(MediaSoupError::PeerNotFound(peer_id.to_owned()))
            },
            Some(mut peer) => {
                registry_insert(&mut peer.transports, transport.id.clone(), transport.handle);
                roster_insert(&mut self.peers, peer_id.to_owned(), peer);
                assert(self@.peers =~= old(self)@.register_transport(
                    peer_id@,
                    transport@.id,
                    transport@.handle,
                ).peers);
                Ok(transport)
            },
        }
    }

    /// What the engine is asked for when the peer under `peer_id` wants to produce media
    /// of the kind `kind` on its transport `transport_id`. The room stays as it is; the
    /// producer joins it through `register_producer`.
    pub fn create_producer(
        &mut self,
        peer_id: &str,
        transport_id: &str,
        kind: MediaKind,
        rtp_parameters: Value,
        app_data: Option<Value>,
    ) -> (r: Result<ProducerOptions, MediaSoupError>)
        ensures
            final(self)@ == old(self)@,
            match r {
                Ok(o) => old(self)@.plan_producer(
                    peer_id@,
                    transport_id@,
                    kind,
                    rtp_parameters@,
                    opt_value(app_data),
                ) == Ok::<ProducerOptionsView, ErrorView>(o@),
                Err(e) => old(self)@.plan_producer(
                    peer_id@,
                    transport_id@,
                    kind,
                    rtp_parameters@,
                    opt_value(app_data),
                ) == Err::<ProducerOptionsView, ErrorView>(e@),
            },
    {
        let transport = self.transport_handle(peer_id, transport_id)?;
        Ok(ProducerOptions { transport, kind, rtp_parameters, app_data })
    }

    /// Takes the engine's answer to the making of a producer for the peer under
    /// `peer_id`. A producer that was made is put into the peer's registry, every other
    /// peer of the room is sent one `newProducer` notification, and the producer is handed
    /// back; a failure becomes an error and leaves the room as it is.
    pub fn register_producer(&mut self, peer_id: &str, outcome: Result<Producer, EngineFailure>) -> (r:
        Result<Producer, MediaSoupError>)
        ensures
            match outcome {
                Err(f) => r is Err && r->Err_0@ == failure_error(ErrorKind::Producer, f)
                    && final(self)@ == old(self)@,
                Ok(p) => if old(self)@.peers.contains_key(peer_id@) {
                    r is Ok && r->Ok_0@ == p@ && final(self)@ == old(self)@.register_producer(
                        peer_id@,
                        p@.id,
                        p@.handle,
                        p@.kind,
                    )
                } else {
                    r is Err && r->Err_0@ == error_view(ErrorKind::PeerNotFound, peer_id@)
                        && final(self)@ == old(self)@
                },
            },
    {
        let producer = match outcome {
            Ok(p) => p,
            Err(f) => {
                return Err(engine_error(ErrorKind::Producer, f));
            },
        };
        match roster_remove(&mut self.peers, peer_id) {
            None => {
                assert(self@.peers =~= old(self)@.peers);
                Err(MediaSoupError::PeerNotFound(peer_id.to_owned()))
            },
            Some(mut peer) => {
                registry_insert(&mut peer.producers, producer.id.clone(), producer.handle);
                let sender = peer.id.clone();
                let news = NewProducerNotification {
                    id: producer.id.clone(),
                    user_id: peer.user_id.clone(),
                    kind: producer.kind.debug_name().to_owned(),
                };
                let ghost owner = old(self)@.peers[peer_id@];
                roster_insert(&mut self.peers, peer_id.to_owned(), peer);
                assert(self@.peers =~= old(self)@.with_peer(
                    peer_id@,
                    PeerView {
                        producers: owner.producers.insert(producer@.id, producer@.handle),
                        ..owner
                    },
                ).peers);
                let note = SignalingMessage::notification(
                    "newProducer".to_owned(),
                    Some(news.to_value()),
                );
                self.deliver_to(Some(sender.as_str()), &note);
                Ok(producer)
            },
        }
    }

    /// What the engine is asked for when the peer under `peer_id` wants to consume the
    /// producer `producer_id` on its transport `transport_id`. The producer is looked for
    /// in the registries of all peers of the room. `can_consume` is what the room's router
    /// said of `rtp_capabilities` and the producer. The room stays as it is; the consumer
    /// joins it through `register_consumer`, and nobody is told of it.
    pub fn create_consumer(
        &mut self,
        peer_id: &str,
        transport_id: &str,
        producer_id: &str,
        rtp_capabilities: Value,
        can_consume: bool,
    ) -> (r: Result<ConsumerOptions, MediaSoupError>)
        ensures
            final(self)@ == old(self)@,
            match r {
                Ok(o) => old(self)@.plan_consumer(
                    peer_id@,
                    transport_id@,
                    producer_id@,
                    rtp_capabilities@,
                    can_consume,
                ) == Ok::<ConsumerOptionsView, ErrorView>(o@),
                Err(e) => old(self)@.plan_consumer(
                    peer_id@,
                    transport_id@,
                    producer_id@,
                    rtp_capabilities@,
                    can_consume,
                ) == Err::<ConsumerOptionsView, ErrorView>(e@),
            },
    {
        let transport = self.transport_handle(peer_id, transport_id)?;
        if !self.has_producer(producer_id) {
            return Err(MediaSoupError::ProducerNotFound(producer_id.to_owned()));
        }
        if !can_consume {
            return Err(MediaSoupError::Consumer("Cannot consume producer".to_owned()));
        }
        Ok(ConsumerOptions { transport, producer_id: producer_id.to_owned(), rtp_capabilities })
    }

    /// Takes the engine's answer to the making of a consumer for the peer under
    /// `peer_id`. A consumer that was made is put into the peer's registry and handed
    /// back; a failure becomes an error and leaves the room as it is.
    pub fn register_consumer(&mut self, peer_id: &str, outcome: Result<Consumer, EngineFailure>) -> (r:
        Result<Consumer, MediaSoupError>)
        ensures
            match outcome {
                Err(f) => r is Err && r->Err_0@ == failure_error(ErrorKind::Consumer, f)
                    && final(self)@ == old(self)@,
                Ok(c) => if old(self)@.peers.contains_key(peer_id@) {
                    r is Ok && r->Ok_0@ == c@ && final(self)@ == old(self)@.register_consumer(
                        peer_id@,
                        c@.id,
                        c@.handle,
                    )
                } else {
                    r is Err && r->Err_0@ == error_view(ErrorKind::PeerNotFound, peer_id@)
                        && final(self)@ == old(self)@
                },
            },
    {
        let consumer = match outcome {
            Ok(c) => c,
            Err(f) => {
                return Err(engine_error(ErrorKind::Consumer, f));
            },
        };
        match roster_remove(&mut self.peers, peer_id) {
            None => {
                assert(self@.peers =~= old(self)@.peers);
                Err(MediaSoupError::PeerNotFound(peer_id.to_owned()))
            },
            Some(mut peer) => {
                registry_insert(&mut peer.consumers, consumer.id.clone(), consumer.handle);
                roster_insert(&mut self.peers, peer_id.to_owned(), peer);
                assert(self@.peers =~= old(self)@.register_consumer(
                    peer_id@,
                    consumer@.id,
                    consumer@.handle,
                ).peers);
                Ok(consumer)
            },
        }
    }

    /// Sends `message` to the peer under `peer_id`.
    pub fn send_to(&mut self, peer_id: &str, message: SignalingMessage) -> (r: Result<
        (),
        MediaSoupError,
    >)
        ensures
            final(self)@ == old(self)@.send_to(peer_id@, message@),
            r is Ok <==> old(self)@.peers.contains_key(peer_id@) && old(self)@.peers[peer_id@].connected,
            r is Err ==> r->Err_0@ == (if old(self)@.peers.contains_key(peer_id@) {
                error_view(ErrorKind::InvalidRequest, "Peer disconnected"@)
            } else {
                error_view(ErrorKind::PeerNotFound, peer_id@)
            }),
    {
        match roster_remove(&mut self.peers, peer_id) {
            None => {
                assert(self@.peers =~= old(self)@.peers);
                Err(MediaSoupError::PeerNotFound(peer_id.to_owned()))
            },
            Some(mut peer) => {
                let sent = peer.send_message(message);
                roster_insert(&mut self.peers, peer_id.to_owned(), peer);
                assert(self@.peers =~= old(self)@.send_to(peer_id@, message@).peers);
                sent
            },
        }
    }

    /// Hands out the messages that wait for the peer under `peer_id`, oldest first, and
    /// leaves its queue empty. A room that has no such peer hands out nothing.
    pub fn take_messages(&mut self, peer_id: &str) -> (r: Vec<SignalingMessage>)
        ensures
            final(self)@ == old(self)@.drained(peer_id@),
            messages_view(r@) == old(self)@.waiting(peer_id@),
    {
        match roster_remove(&mut self.peers, peer_id) {
            None => {
                assert(self@.peers =~= old(self)@.peers);
                let none: Vec<SignalingMessage> = Vec::new();
                assert(messages_view(none@) =~= Seq::empty());
                none
            },
            Some(mut peer) => {
                let out = peer.take_messages();
                roster_insert(&mut self.peers, peer_id.to_owned(), peer);
                assert(self@.peers =~= old(self)@.drained(peer_id@).peers);
                out
            },
        }
    }

    /// Marks the peer under `peer_id` as disconnected: from now on nothing can be sent to
    /// it. A room that has no such peer stays as it is.
    pub fn disconnect_peer(&mut self, peer_id: &str)
        ensures
            final(self)@ == old(self)@.disconnected(peer_id@),
    {
        match roster_remove(&mut self.peers, peer_id) {
            None => {
                assert(self@.peers =~= old(self)@.peers);
            },
            Some(mut peer) => {
                peer.disconnect();
                roster_insert(&mut self.peers, peer_id.to_owned(), peer);
                assert(self@.peers =~= old(self)@.disconnected(peer_id@).peers);
            },
        }
    }

    /// The codecs that a room's router is made with.
    pub fn media_codecs() -> (r: Vec<RtpCodecCapability>)
        ensures
            codecs_view(r@) == room_codecs(),
            forall|i: int| 0 <= i < r@.len() ==> (#[trigger] r@[i])@.wf(),
    {
        let none: Vec<(String, String)> = Vec::new();
        assert(parameters_view(none@) =~= Seq::empty());
        let opus = RtpCodecCapability::Audio {
            mime_type: MimeTypeAudio::Opus,
            preferred_payload_type: None,
            clock_rate: 48000,
            channels: 2,
            parameters: none,
            rtcp_feedback: Vec::new(),
        };
        let none: Vec<(String, String)> = Vec::new();
        assert(parameters_view(none@) =~= Seq::empty());
        let vp8 = RtpCodecCapability::Video {
            mime_type: MimeTypeVideo::Vp8,
            preferred_payload_type: None,
            clock_rate: 90000,
            parameters: none,
            rtcp_feedback: video_feedback_list(),
        };
        let mut profile: Vec<(String, String)> = Vec::new();
        assert(parameters_view(profile@) =~= Seq::empty());
        push_parameter(&mut profile, "profile-id", "2");
        assert(parameters_view(profile@) =~= seq![("profile-id"@, "2"@)]);
        let vp9 = RtpCodecCapability::Video {
            mime_type: MimeTypeVideo::Vp9,
            preferred_payload_type: None,
            clock_rate: 90000,
            parameters: profile,
            rtcp_feedback: video_feedback_list(),
        };
        let mut packets: Vec<(String, String)> = Vec::new();
        assert(parameters_view(packets@) =~= Seq::empty());
        push_parameter(&mut packets, "packetization-mode", "1");
        push_parameter(&mut packets, "profile-level-id", "4d0032");
        push_parameter(&mut packets, "level-asymmetry-allowed", "1");
        assert(parameters_view(packets@) =~= seq![
            ("packetization-mode"@, "1"@),
            ("profile-level-id"@, "4d0032"@),
            ("level-asymmetry-allowed"@, "1"@),
        ]);
        let h264 = RtpCodecCapability::Video {
            mime_type: MimeTypeVideo::H264,
            preferred_payload_type: None,
            clock_rate: 90000,
            parameters: packets,
            rtcp_feedback: video_feedback_list(),
        };
        let mut codecs: Vec<RtpCodecCapability> = Vec::new();
        codecs.push(opus);
        codecs.push(vp8);
        codecs.push(vp9);
        codecs.push(h264);
        assert(codecs_view(codecs@) =~= room_codecs());
        codecs
    }

    /// The capability set of the room's router.
    pub fn get_rtp_capabilities(&self) -> (r: &Value)
        ensures
            r@ == self@.router.rtp_capabilities,
    {
        &self.router.rtp_capabilities
    }
}

} // verus!
