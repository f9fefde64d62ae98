use crate::config::{clone_listen_ips, listen_ips_view, Config, ListenIpView};
use crate::engine::{
    codecs_view, EngineCall, EngineCallView, EngineFailure, EngineReply, MediaKind, Router,
    RouterOptions,
};
use crate::error::{error_view, ErrorKind, ErrorView, MediaSoupError};
use crate::ident::fresh_id;
use crate::json::{opt_value, Value, ValueView};
use crate::payload::{
    consumed_payload, missing, missing_field, produced_payload, required_text,
    transport_created_payload, ConnectTransportData, ConsumeData, ConsumedResponse,
    CreateWebRtcTransportData, ProduceData, ProducedResponse, TransportCreatedResponse,
};
use crate::pool::{CustomWorkerManager, PoolView};
use crate::registry::lists;
use crate::peer::{messages_view, Peer, PeerView};
use crate::room::{engine_error, failure_error, room_codecs, Room, RoomView};
use crate::signaling::{
    decode_frame, response_frame, MessageView, SignalingMessage, SignalingMethod, SignalingResponse,
};
use crate::text::{join, opt_text};
use dashmap::DashMap;
use vstd::prelude::*;

verus! {

/// What a request leads to at once: a payload to answer with, or a call into the media
/// engine whose answer decides the rest.
#[derive(Debug, PartialEq)]
pub enum Plan {
    Respond(Value),
    Call(EngineCall),
}

/// A plan as mathematical data.
pub enum PlanView {
    Respond(ValueView),
    Call(EngineCallView),
}

impl View for Plan {
    type V = PlanView;

    open spec fn view(&self) -> PlanView {
        match self {
            Plan::Respond(v) => PlanView::Respond(v@),
            Plan::Call(c) => PlanView::Call(c@),
        }
    }
}

/// The error for a `produce` request whose kind is neither `audio` nor `video`.
pub open spec fn invalid_kind(kind: Seq<char>) -> ErrorView {
    error_view(ErrorKind::InvalidRequest, "Invalid media kind: "@ + kind)
}

/// What `createWebRtcTransport` leads to: a transport is asked for on the first configured
/// listen address, with SCTP exactly when the request names SCTP capabilities.
pub open spec fn plan_create_transport(
    room: RoomView,
    listen_ips: Seq<ListenIpView>,
    peer_id: Seq<char>,
    data: Option<ValueView>,
) -> Result<PlanView, ErrorView> {
    let rejection = match data {
        Some(v) => CreateWebRtcTransportData::rejection(v),
        None => None,
    };
    let enable_sctp = match data {
        Some(v) => v.present_member("sctpCapabilities"@) is Some,
        None => false,
    };
    match rejection {
        Some(e) => Err(e),
        None => match room.plan_transport(peer_id, listen_ips, true, true, true, enable_sctp) {
            Err(e) => Err(e),
            Ok(o) => Ok(PlanView::Call(EngineCallView::CreateWebRtcTransport(o))),
        },
    }
}

/// What `connectTransport` leads to: the peer's own transport is connected with the
/// parameters that the client sent.
pub open spec fn plan_connect_transport(room: RoomView, peer_id: Seq<char>, data: Option<ValueView>) -> Result<
    PlanView,
    ErrorView,
> {
    match data {
        None => Err(missing("data"@)),
        Some(v) => match ConnectTransportData::rejection(v) {
            Some(e) => Err(e),
            None => match room.resolve_transport(peer_id, v.text_member("transportId"@)->Some_0) {
                Err(e) => Err(e),
                Ok(transport) => Ok(
                    PlanView::Call(
                        EngineCallView::ConnectTransport {
                            transport,
                            dtls_parameters: v.member("dtlsParameters"@)->Some_0,
                        },
                    ),
                ),
            },
        },
    }
}

/// What `produce` leads to: a producer of the named kind is asked for on the peer's
/// transport.
pub open spec fn plan_produce(room: RoomView, peer_id: Seq<char>, data: Option<ValueView>) -> Result<
    PlanView,
    ErrorView,
> {
    match data {
        None => Err(missing("data"@)),
        Some(v) => match ProduceData::rejection(v) {
            Some(e) => Err(e),
            None => match MediaKind::named(v.text_member("kind"@)->Some_0) {
                None => Err(invalid_kind(v.text_member("kind"@)->Some_0)),
                Some(kind) => match room.plan_producer(
                    peer_id,
                    v.text_member("transportId"@)->Some_0,
                    kind,
                    v.member("rtpParameters"@)->Some_0,
                    v.present_member("appData"@),
                ) {
                    Err(e) => Err(e),
                    Ok(o) => Ok(PlanView::Call(EngineCallView::Produce(o))),
                },
            },
        },
    }
}

/// What `consume` leads to: once the peer, its transport and the producer are found, the
/// router is asked whether the client's capabilities fit the producer.
pub open spec fn plan_consume(room: RoomView, peer_id: Seq<char>, data: Option<ValueView>) -> Result<
    PlanView,
    ErrorView,
> {
    match data {
        None => Err(missing("data"@)),
        Some(v) => match ConsumeData::rejection(v) {
            Some(e) => Err(e),
            None => match room.plan_consumer(
                peer_id,
                v.text_member("transportId"@)->Some_0,
                v.text_member("producerId"@)->Some_0,
                v.member("rtpCapabilities"@)->Some_0,
                true,
            ) {
                Err(e) => Err(e),
                Ok(_) => Ok(
                    PlanView::Call(
                        EngineCallView::CanConsume {
                            router: room.router.handle,
                            transport_id: v.text_member("transportId"@)->Some_0,
                            producer_id: v.text_member("producerId"@)->Some_0,
                            rtp_capabilities: v.member("rtpCapabilities"@)->Some_0,
                        },
                    ),
                ),
            },
        },
    }
}

/// The handle of the producer that a `pauseProducer` or `resumeProducer` request names. It
/// is looked for in the peer's own registry only.
pub open spec fn named_producer(room: RoomView, peer_id: Seq<char>, data: Option<ValueView>) -> Result<
    u64,
    ErrorView,
> {
    match data {
        None => Err(missing("data"@)),
        Some(v) => match v.text_member("producerId"@) {
            None => Err(missing("producerId"@)),
            Some(id) => room.resolve_producer(peer_id, id),
        },
    }
}

/// What a request of the method `method` leads to.
pub open spec fn plan(
    room: RoomView,
    listen_ips: Seq<ListenIpView>,
    peer_id: Seq<char>,
    method: SignalingMethod,
    data: Option<ValueView>,
) -> Result<PlanView, ErrorView> {
    match method {
        SignalingMethod::GetRouterRtpCapabilities => Ok(
            PlanView::Respond(room.router.rtp_capabilities),
        ),
        SignalingMethod::CreateWebRtcTransport => plan_create_transport(
            room,
            listen_ips,
            peer_id,
            data,
        ),
        SignalingMethod::ConnectTransport => plan_connect_transport(room, peer_id, data),
        SignalingMethod::Produce => plan_produce(room, peer_id, data),
        SignalingMethod::Consume => plan_consume(room, peer_id, data),
        SignalingMethod::PauseProducer => match named_producer(room, peer_id, data) {
            Err(e) => Err(e),
            Ok(producer) => Ok(PlanView::Call(EngineCallView::PauseProducer { producer })),
        },
        SignalingMethod::ResumeProducer => match named_producer(room, peer_id, data) {
            Err(e) => Err(e),
            Ok(producer) => Ok(PlanView::Call(EngineCallView::ResumeProducer { producer })),
        },
    }
}

/// A request that waits for the media engine: the message, and the call whose answer it
/// needs.
#[derive(Debug, PartialEq)]
pub struct Pending {
    pub message: SignalingMessage,
    pub call: EngineCall,
}

/// What the connection does next.
#[derive(Debug, PartialEq)]
pub enum Step {
    /// Nothing is left to do for the frame.
    Done,
    /// The engine is to be called; its answer goes to `resume`.
    Call(Pending),
    /// The connection ends, with the error that ended it if there is one.
    Close(Option<MediaSoupError>),
}

/// A step as mathematical data: a call is the message that waits and the call that it waits for.
pub enum StepView {
    Done,
    Call(MessageView, EngineCallView),
    Close(Option<ErrorView>),
}

impl View for Step {
    type V = StepView;

    open spec fn view(&self) -> StepView {
        match self {
            Step::Done => StepView::Done,
            Step::Call(p) => StepView::Call(p.message@, p.call@),
            Step::Close(Some(e)) => StepView::Close(Some(e@)),
            Step::Close(None) => StepView::Close(None),
        }
    }
}

/// A frame that came in on the socket. A text frame holds the value that its text
/// encodes, or the reason why the text encodes none.
#[derive(Debug, PartialEq)]
pub enum Frame {
    Text(Result<Value, String>),
    Close,
    Other,
}

/// The room after the request `msg` of the peer under `peer_id` was answered: the response
/// is last in the peer's queue. A notification is not answered.
pub open spec fn respond(
    room: RoomView,
    peer_id: Seq<char>,
    msg: MessageView,
    response: Option<ValueView>,
    error: Option<Seq<char>>,
) -> RoomView {
    match msg.id {
        Some(id) => room.send_to(peer_id, response_frame(id, response, error)),
        None => room,
    }
}

/// The room after the request `msg` was answered with what its handler gave: the payload,
/// or the text of the error under the key `error`.
pub open spec fn settle(
    room: RoomView,
    peer_id: Seq<char>,
    msg: MessageView,
    result: Result<ValueView, ErrorView>,
) -> RoomView {
    match result {
        Ok(payload) => respond(room, peer_id, msg, Some(payload), None),
        Err(e) => respond(room, peer_id, msg, None, Some(e.message())),
    }
}

/// The text that answers a request for a method that the gateway does not know.
pub open spec fn unknown_method(method: Seq<char>) -> Seq<char> {
    "Unknown method: "@ + method
}

/// What the message `msg` of the peer under `peer_id` leads to: the room afterwards and the
/// next step. A request for an unknown method is answered with an error; a request that
/// needs the engine waits for it; any other request is answered at once.
pub open spec fn dispatch(
    room: RoomView,
    listen_ips: Seq<ListenIpView>,
    peer_id: Seq<char>,
    msg: MessageView,
) -> (RoomView, StepView) {
    match SignalingMethod::named(msg.method) {
        None => (respond(room, peer_id, msg, None, Some(unknown_method(msg.method))), StepView::Done),
        Some(method) => match plan(room, listen_ips, peer_id, method, msg.data) {
            Err(e) => (settle(room, peer_id, msg, Err(e)), StepView::Done),
            Ok(PlanView::Respond(payload)) => (
                settle(room, peer_id, msg, Ok(payload)),
                StepView::Done,
            ),
            Ok(PlanView::Call(call)) => (room, StepView::Call(msg, call)),
        },
    }
}

/// Why the answer of the engine to a call that makes something for the peer under
/// `peer_id` registers nothing: the call failed, or the peer has left meanwhile.
pub open spec fn unregistered<T>(
    room: RoomView,
    peer_id: Seq<char>,
    kind: ErrorKind,
    outcome: Result<T, EngineFailure>,
) -> Option<ErrorView> {
    match outcome {
        Err(f) => Some(failure_error(kind, f)),
        Ok(_) => if room.peers.contains_key(peer_id) {
            None
        } else {
            Some(error_view(ErrorKind::PeerNotFound, peer_id))
        },
    }
}

/// The payload `{}`.
pub open spec fn empty_payload() -> ValueView {
    ValueView::Object(Seq::empty())
}

/// The answer to a call that makes nothing: `{}`, or the failure as an error of the kind
/// `kind`.
pub open spec fn acknowledged(kind: ErrorKind, outcome: Result<(), EngineFailure>) -> Result<
    ValueView,
    ErrorView,
> {
    match outcome {
        Ok(_) => Ok(empty_payload()),
        Err(f) => Err(failure_error(kind, f)),
    }
}

/// The error for an answer of the engine that does not belong to the call that was made.
pub open spec fn unexpected_reply() -> ErrorView {
    error_view(ErrorKind::InvalidRequest, "Unexpected engine reply"@)
}

/// What the answer `reply` of the engine to the call `call`, made for the message `msg` of
/// the peer under `peer_id`, leads to: the room afterwards and the next step.
pub open spec fn resume(
    room: RoomView,
    peer_id: Seq<char>,
    msg: MessageView,
    call: EngineCallView,
    reply: EngineReply,
) -> (RoomView, StepView) {
    match (call, reply) {
        (EngineCallView::CreateWebRtcTransport(_), EngineReply::TransportCreated(outcome)) => {
            match unregistered(room, peer_id, ErrorKind::Request, outcome) {
                Some(e) => (settle(room, peer_id, msg, Err(e)), StepView::Done),
                None => {
                    let t = outcome->Ok_0@;
                    (
                        settle(
                            room.register_transport(peer_id, t.id, t.handle),
                            peer_id,
                            msg,
                            Ok(
                                transport_created_payload(
                                    t.id,
                                    t.ice_parameters,
                                    t.ice_candidates,
                                    t.dtls_parameters,
                                    t.sctp_parameters,
                                ),
                            ),
                        ),
                        StepView::Done,
                    )
                },
            }
        },
        (EngineCallView::ConnectTransport { .. }, EngineReply::TransportConnected(outcome)) => (
            settle(room, peer_id, msg, acknowledged(ErrorKind::Transport, outcome)),
            StepView::Done,
        ),
        (EngineCallView::Produce(_), EngineReply::Produced(outcome)) => {
            match unregistered(room, peer_id, ErrorKind::Producer, outcome) {
                Some(e) => (settle(room, peer_id, msg, Err(e)), StepView::Done),
                None => {
                    let p = outcome->Ok_0@;
                    (
                        settle(
                            room.register_producer(peer_id, p.id, p.handle, p.kind),
                            peer_id,
                            msg,
                            Ok(produced_payload(p.id)),
                        ),
                        StepView::Done,
                    )
                },
            }
        },
        (
            EngineCallView::CanConsume { transport_id, producer_id, rtp_capabilities, .. },
            EngineReply::CanConsume(outcome),
        ) => {
            match outcome {
                Err(f) => (
                    settle(room, peer_id, msg, Err(failure_error(ErrorKind::Consumer, f))),
                    StepView::Done,
                ),
                Ok(can_consume) => match room.plan_consumer(
                    peer_id,
                    transport_id,
                    producer_id,
                    rtp_capabilities,
                    can_consume,
                ) {
                    Err(e) => (settle(room, peer_id, msg, Err(e)), StepView::Done),
                    Ok(o) => (room, StepView::Call(msg, EngineCallView::Consume(o))),
                },
            }
        },
        (EngineCallView::Consume(o), EngineReply::Consumed(outcome)) => {
            match unregistered(room, peer_id, ErrorKind::Consumer, outcome) {
                Some(e) => (settle(room, peer_id, msg, Err(e)), StepView::Done),
                None => {
                    let c = outcome->Ok_0@;
                    (
                        settle(
                            room.register_consumer(peer_id, c.id, c.handle),
                            peer_id,
                            msg,
                            Ok(
                                consumed_payload(
                                    c.id,
                                    o.producer_id,
                                    c.kind.label(),
                                    c.rtp_parameters,
                                ),
                            ),
                        ),
                        StepView::Done,
                    )
                },
            }
        },
        (EngineCallView::PauseProducer { .. }, EngineReply::ProducerPaused(outcome)) => (
            settle(room, peer_id, msg, acknowledged(ErrorKind::Producer, outcome)),
            StepView::Done,
        ),
        (EngineCallView::ResumeProducer { .. }, EngineReply::ProducerResumed(outcome)) => (
            settle(room, peer_id, msg, acknowledged(ErrorKind::Producer, outcome)),
            StepView::Done,
        ),
        _ => (settle(room, peer_id, msg, Err(unexpected_reply())), StepView::Done),
    }
}

/// The gateway: its configuration, the pool of workers and the rooms.
#[derive(Debug)]
pub struct MediaSoupServer {
    config: Config,
    worker_manager: CustomWorkerManager,
    rooms: DashMap<String, Room>,
}

/// The rooms of a gateway: each room, by its identifier.
pub uninterp spec fn rooms_entries(m: DashMap<String, Room>) -> Map<Seq<char>, RoomView>;

/// `DashMap::new`: a map without entries.
#[verifier::external_body]
pub(crate) fn rooms_new() -> (m: DashMap<String, Room>)
    ensures
        rooms_entries(m) == (Map::<Seq<char>, RoomView>::empty()),
{
    DashMap::new()
}

/// `DashMap::insert`: afterwards the map holds `room` under `key` and is otherwise as
/// before.
#[verifier::external_body]
pub(crate) fn rooms_insert(m: &mut DashMap<String, Room>, key: String, room: Room)
    ensures
        rooms_entries(*final(m)) == rooms_entries(*old(m)).insert(key@, room@),
{
    m.insert(key, room);
}

/// `DashMap::remove`: the room held under `key`, if any, is taken out and returned; the map
/// is otherwise as before.
#[verifier::external_body]
pub(crate) fn rooms_remove(m: &mut DashMap<String, Room>, key: &str) -> (r: Option<Room>)
    ensures
        rooms_entries(*final(m)) == rooms_entries(*old(m)).remove(key@),
        r is Some <==> rooms_entries(*old(m)).contains_key(key@),
        r is Some ==> r->Some_0@ == rooms_entries(*old(m))[key@],
{
    m.remove(key).map(|entry| entry.1)
}

/// `DashMap::contains_key`: true if the map holds a room under `key`.
#[verifier::external_body]
pub(crate) fn rooms_contains(m: &DashMap<String, Room>, key: &str) -> (r: bool)
    ensures
        r == rooms_entries(*m).contains_key(key@),
{
    m.contains_key(key)
}

/// What opening a connection leads to.
#[derive(Debug, PartialEq)]
pub enum Admission {
    /// The peer with this identifier has joined the room.
    Joined(String),
    /// The room is not there yet: this router is to be made for it first.
    NeedsRouter(RouterOptions),
}

/// A gateway as mathematical data.
pub struct ServerView {
    pub rooms: Map<Seq<char>, RoomView>,
    pub pool: PoolView,
    pub listen_ips: Seq<ListenIpView>,
}

impl ServerView {
    /// True if the gateway has every room that `before` had. Rooms are never removed.
    pub open spec fn keeps_rooms_of(self, before: ServerView) -> bool {
        forall|k: Seq<char>| before.rooms.contains_key(k) ==> self.rooms.contains_key(k)
    }

    /// True if `options` asks for a router with the codecs of a room on the worker whose
    /// turn it is.
    pub open spec fn asks_for(self, options: RouterOptions) -> bool {
        &&& self.pool.workers.len() > 0
        &&& options.worker == self.pool.workers[self.pool.turn() as int].handle
        &&& codecs_view(options.media_codecs@) == room_codecs()
    }

    /// The gateway after a worker was taken from the pool.
    pub open spec fn after_acquire(self) -> ServerView {
        ServerView { pool: self.pool.advanced(), ..self }
    }

    /// The gateway after the peer `peer` has joined the room `room_id` under its
    /// identifier.
    pub open spec fn joined(self, room_id: Seq<char>, peer: PeerView) -> ServerView {
        self.with_room(room_id, self.rooms[room_id].with_peer(peer.id, peer))
    }

    /// The gateway with the room `room` under `room_id`.
    pub open spec fn with_room(self, room_id: Seq<char>, room: RoomView) -> ServerView {
        ServerView { rooms: self.rooms.insert(room_id, room), ..self }
    }
}

/// A peer that has just connected: nothing is registered and nothing waits for it.
pub open spec fn fresh_peer(id: Seq<char>, user_id: Seq<char>) -> PeerView {
    PeerView {
        id,
        user_id,
        transports: Map::empty(),
        producers: Map::empty(),
        consumers: Map::empty(),
        outbox: Seq::empty(),
        connected: true,
    }
}

/// What a frame of the peer under `peer_id` leads to: the room afterwards and the next
/// step. A text frame that holds no message ends the connection, and so does a close
/// frame; a frame that is neither text nor close is passed over.
pub open spec fn incoming(
    room: RoomView,
    listen_ips: Seq<ListenIpView>,
    peer_id: Seq<char>,
    frame: Frame,
) -> (RoomView, StepView) {
    match frame {
        Frame::Text(Err(reason)) => (
            room,
            StepView::Close(Some(error_view(ErrorKind::Json, reason@))),
        ),
        Frame::Text(Ok(v)) => match decode_frame(v@) {
            Err(e) => (room, StepView::Close(Some(e))),
            Ok(msg) => dispatch(room, listen_ips, peer_id, msg),
        },
        Frame::Close => (room, StepView::Close(None)),
        Frame::Other => (room, StepView::Done),
    }
}

/// The error for a pool that has no worker to give.
pub open spec fn no_workers() -> ErrorView {
    error_view(ErrorKind::Config, "No workers available"@)
}

/// The error for a room that the gateway does not have.
pub open spec fn no_room(room_id: Seq<char>) -> ErrorView {
    error_view(ErrorKind::RoomNotFound, room_id)
}

impl View for MediaSoupServer {
    type V = ServerView;

    closed spec fn view(&self) -> ServerView {
        ServerView {
            rooms: rooms_entries(self.rooms),
            pool: self.worker_manager@,
            listen_ips: listen_ips_view(self.config.webrtc.listen_ips@),
        }
    }
}

impl MediaSoupServer {
    /// A gateway without rooms. The pool has to be complete.
    pub fn new(config: Config, worker_manager: CustomWorkerManager) -> (r: Result<
        MediaSoupServer,
        MediaSoupError,
    >)
        ensures
            match r {
                Ok(s) => worker_manager@.workers.len() >= worker_manager@.wanted && s@ == (
                ServerView {
                    rooms: Map::empty(),
                    pool: worker_manager@,
                    listen_ips: listen_ips_view(config.webrtc.listen_ips@),
                }),
                Err(e) => worker_manager@.workers.len() < worker_manager@.wanted && e@
                    == error_view(ErrorKind::Config, "Worker pool is not complete"@),
            },
    {
        if worker_manager.wants_worker() {
            return Err(MediaSoupError::Config("Worker pool is not complete".to_owned()));
        }
        let server = MediaSoupServer { config, worker_manager, rooms: rooms_new() };
        assert(server@.rooms =~= Map::empty());
        Ok(server)
    }

    /// Looks for the room `room_id`. Where the gateway has it, nothing is left to do.
    /// Where it has not, the next worker in turn is taken from the pool, and what comes
    /// back says what router the engine is to make for the room; `install_room` takes the
    /// router.
    pub fn get_or_create_room(&mut self, room_id: &str) -> (r: Result<
        Option<RouterOptions>,
        MediaSoupError,
    >)
        ensures
            final(self)@.keeps_rooms_of(old(self)@),
            match r {
                Ok(None) => old(self)@.rooms.contains_key(room_id@) && final(self)@ == old(self)@,
                Ok(Some(o)) => !old(self)@.rooms.contains_key(room_id@) && old(self)@.asks_for(o)
                    && final(self)@ == old(self)@.after_acquire(),
                Err(e) => !old(self)@.rooms.contains_key(room_id@)
                    && old(self)@.pool.workers.len() == 0 && e@ == no_workers() && final(self)@
                    == old(self)@,
            },
    {
        if rooms_contains(&self.rooms, room_id) {
            return Ok(None);
        }
        let worker = self.worker_manager.get_worker()?;
        Ok(Some(RouterOptions { worker: worker.handle, media_codecs: Room::media_codecs() }))
    }

    /// Takes the engine's answer to the making of the router for the room `room_id`. With
    /// a router the room is made, without peers, unless the gateway has got a room of that
    /// name meanwhile, which then stays. A failure is an error and changes nothing.
    pub fn install_room(&mut self, room_id: &str, outcome: Result<Router, EngineFailure>) -> (r:
        Result<(), MediaSoupError>)
        ensures
            final(self)@.keeps_rooms_of(old(self)@),
            match outcome {
                Err(f) => r is Err && r->Err_0@ == failure_error(ErrorKind::CreateRouter, f)
                    && final(self)@ == old(self)@,
                Ok(router) => r is Ok && final(self)@ == (if old(self)@.rooms.contains_key(
                    room_id@,
                ) {
                    old(self)@
                } else {
                    old(self)@.with_room(
                        room_id@,
                        RoomView { id: room_id@, router: router@, peers: Map::empty() },
                    )
                }),
            },
    {
        let router = match outcome {
            Ok(router) => router,
            Err(f) => {
                return Err(engine_error(ErrorKind::CreateRouter, f));
            },
        };
        if !rooms_contains(&self.rooms, room_id) {
            let room = Room::new(room_id.to_owned(), router);
            rooms_insert(&mut self.rooms, room_id.to_owned(), room);
            assert(self@.rooms =~= old(self)@.rooms.insert(room_id@, room@));
        }
        Ok(())
    }

    /// Puts a new peer, with a fresh identifier and for a user with a fresh identifier, into
    /// the room `room_id`, which the gateway has.
    fn join_room(&mut self, room_id: &str) -> (r: String)
        requires
            old(self)@.rooms.contains_key(room_id@),
        ensures
            r@.len() == 36,
            exists|user_id: Seq<char>|
                user_id.len() == 36 && final(self)@ == #[trigger] old(self)@.joined(
                    room_id@,
                    fresh_peer(r@, user_id),
                ),
    {
        let peer = Peer::new(fresh_id());
        let peer_id = peer.id.clone();
        let ghost joined = peer@;
        match rooms_remove(&mut self.rooms, room_id) {
            None => {},
            Some(mut room) => {
                let _ = room.add_peer(peer);
                rooms_insert(&mut self.rooms, room_id.to_owned(), room);
            },
        }
        assert(self@.rooms =~= old(self)@.rooms.insert(
            room_id@,
            old(self)@.rooms[room_id@].with_peer(peer_id@, joined),
        ));
        assert(joined =~= fresh_peer(peer_id@, joined.user_id));
        assert(self@ == old(self)@.joined(room_id@, fresh_peer(peer_id@, joined.user_id)));
        peer_id
    }

    /// Opens the session of a new connection in the room `room_id`. Where the gateway has
    /// the room, a peer with a fresh identifier, for a user with a fresh identifier, joins
    /// it, and the peer's identifier is handed back. Where it has not, the room is to be
    /// made first, as `get_or_create_room` says: the router that comes back is to be made
    /// and handed to `install_room`, and the connection is to be opened again.
    pub fn handle_connection(&mut self, room_id: &str) -> (r: Result<Admission, MediaSoupError>)
        ensures
            final(self)@.keeps_rooms_of(old(self)@),
            match r {
                Ok(Admission::Joined(peer_id)) => peer_id@.len() == 36
                    && old(self)@.rooms.contains_key(room_id@) && exists|user_id: Seq<char>|
                    user_id.len() == 36 && final(self)@ == #[trigger] old(self)@.joined(
                        room_id@,
                        fresh_peer(peer_id@, user_id),
                    ),
                Ok(Admission::NeedsRouter(o)) => !old(self)@.rooms.contains_key(room_id@)
                    && old(self)@.asks_for(o) && final(self)@ == old(self)@.after_acquire(),
                Err(e) => !old(self)@.rooms.contains_key(room_id@)
                    && old(self)@.pool.workers.len() == 0 && e@ == no_workers() && final(self)@
                    == old(self)@,
            },
    {
        match self.get_or_create_room(room_id)? {
            Some(options) => Ok(Admission::NeedsRouter(options)),
            None => Ok(Admission::Joined(self.join_room(room_id))),
        }
    }

    /// Ends the session of the peer under `peer_id` in the room `room_id`: the peer leaves
    /// the room, and the peers that stay are told of each producer that it owned. A gateway
    /// that has no such room stays as it is.
    pub fn handle_disconnect(&mut self, room_id: &str, peer_id: &str) -> (r: Result<
        (),
        MediaSoupError,
    >)
        ensures
            final(self)@.keeps_rooms_of(old(self)@),
            r is Ok,
            !old(self)@.rooms.contains_key(room_id@) ==> final(self)@ == old(self)@,
            old(self)@.rooms.contains_key(room_id@) ==> exists|order: Seq<Seq<char>>|
                (old(self)@.rooms[room_id@].peers.contains_key(peer_id@) ==> lists(
                    order,
                    old(self)@.rooms[room_id@].peers[peer_id@].producers.dom(),
                )) && final(self)@ == old(self)@.with_room(
                    room_id@,
                    #[trigger] old(self)@.rooms[room_id@].remove_peer(peer_id@, order),
                ),
    {
        match rooms_remove(&mut self.rooms, room_id) {
            None => {
                assert(self@.rooms =~= old(self)@.rooms);
            },
            Some(mut room) => {
                let _ = room.remove_peer(peer_id);
                let ghost left = room@;
                rooms_insert(&mut self.rooms, room_id.to_owned(), room);
                assert(self@.rooms =~= old(self)@.rooms.insert(room_id@, left));
                let ghost order = choose|order: Seq<Seq<char>>|
                    (old(self)@.rooms[room_id@].peers.contains_key(peer_id@) ==> lists(
                        order,
                        old(self)@.rooms[room_id@].peers[peer_id@].producers.dom(),
                    )) && left == #[trigger] old(self)@.rooms[room_id@].remove_peer(
                        peer_id@,
                        order,
                    );
                assert(self@ == old(self)@.with_room(
                    room_id@,
                    old(self)@.rooms[room_id@].remove_peer(peer_id@, order),
                ));
            },
        }
        Ok(())
    }

    /// Handles a frame of the peer under `peer_id` in the room `room`.
    pub fn handle_frame(&self, frame: Frame, peer_id: &str, room: &mut Room) -> (r: Step)
        ensures
            final(room)@ == incoming(old(room)@, self@.listen_ips, peer_id@, frame).0,
            r@ == incoming(old(room)@, self@.listen_ips, peer_id@, frame).1,
    {
        match frame {
            Frame::Text(Err(reason)) => Step::Close(Some(MediaSoupError::Json(reason))),
            Frame::Text(Ok(v)) => match SignalingMessage::from_value(&v) {
                Err(e) => Step::Close(Some(e)),
                Ok(message) => self.handle_signaling_message(message, peer_id, room),
            },
            Frame::Close => Step::Close(None),
            Frame::Other => Step::Done,
        }
    }

    /// Handles a frame that came in from the peer under `peer_id` of the room `room_id`. A
    /// gateway that has no such room ends the connection.
    pub fn handle_incoming_messages(&mut self, frame: Frame, peer_id: &str, room_id: &str) -> (r:
        Step)
        ensures
            final(self)@.keeps_rooms_of(old(self)@),
            !old(self)@.rooms.contains_key(room_id@) ==> final(self)@ == old(self)@ && r@
                == StepView::Close(Some(no_room(room_id@))),
            old(self)@.rooms.contains_key(room_id@) ==> final(self)@ == old(self)@.with_room(
                room_id@,
                incoming(old(self)@.rooms[room_id@], old(self)@.listen_ips, peer_id@, frame).0,
            ) && r@ == incoming(
                old(self)@.rooms[room_id@],
                old(self)@.listen_ips,
                peer_id@,
                frame,
            ).1,
    {
        match rooms_remove(&mut self.rooms, room_id) {
            None => {
                assert(self@.rooms =~= old(self)@.rooms);
                Step::Close(Some(MediaSoupError::RoomNotFound(room_id.to_owned())))
            },
            Some(mut room) => {
                let step = self.handle_frame(frame, peer_id, &mut room);
                let ghost after = room@;
                rooms_insert(&mut self.rooms, room_id.to_owned(), room);
                assert(self@.rooms =~= old(self)@.rooms.insert(room_id@, after));
                step
            },
        }
    }

    /// Takes the engine's answer to the call that `pending` waits for, for the peer under
    /// `peer_id` of the room `room_id`. A gateway that has no such room ends the
    /// connection.
    pub fn handle_reply(
        &mut self,
        pending: Pending,
        reply: EngineReply,
        peer_id: &str,
        room_id: &str,
    ) -> (r: Step)
        ensures
            final(self)@.keeps_rooms_of(old(self)@),
            !old(self)@.rooms.contains_key(room_id@) ==> final(self)@ == old(self)@ && r@
                == StepView::Close(Some(no_room(room_id@))),
            old(self)@.rooms.contains_key(room_id@) ==> final(self)@ == old(self)@.with_room(
                room_id@,
                resume(
                    old(self)@.rooms[room_id@],
                    peer_id@,
                    pending.message@,
                    pending.call@,
                    reply,
                ).0,
            ) && r@ == resume(
                old(self)@.rooms[room_id@],
                peer_id@,
                pending.message@,
                pending.call@,
                reply,
            ).1,
    {
        match rooms_remove(&mut self.rooms, room_id) {
            None => {
                assert(self@.rooms =~= old(self)@.rooms);
                Step::Close(Some(MediaSoupError::RoomNotFound(room_id.to_owned())))
            },
            Some(mut room) => {
                let step = self.resume(pending, reply, peer_id, &mut room);
                let ghost after = room@;
                rooms_insert(&mut self.rooms, room_id.to_owned(), room);
                assert(self@.rooms =~= old(self)@.rooms.insert(room_id@, after));
                step
            },
        }
    }

    /// Hands out the messages that wait for the peer under `peer_id` of the room
    /// `room_id`, oldest first, and leaves its queue empty.
    pub fn take_messages(&mut self, room_id: &str, peer_id: &str) -> (r: Vec<SignalingMessage>)
        ensures
            final(self)@.keeps_rooms_of(old(self)@),
            !old(self)@.rooms.contains_key(room_id@) ==> final(self)@ == old(self)@
                && messages_view(r@) == Seq::<MessageView>::empty(),
            old(self)@.rooms.contains_key(room_id@) ==> final(self)@ == old(self)@.with_room(
                room_id@,
                old(self)@.rooms[room_id@].drained(peer_id@),
            ) && messages_view(r@) == old(self)@.rooms[room_id@].waiting(peer_id@),
    {
        match rooms_remove(&mut self.rooms, room_id) {
            None => {
                assert(self@.rooms =~= old(self)@.rooms);
                let none: Vec<SignalingMessage> = Vec::new();
                assert(messages_view(none@) =~= Seq::empty());
                none
            },
            Some(mut room) => {
                let out = room.take_messages(peer_id);
                let ghost after = room@;
                rooms_insert(&mut self.rooms, room_id.to_owned(), room);
                assert(self@.rooms =~= old(self)@.rooms.insert(room_id@, after));
                out
            },
        }
    }

    /// Notes that the writer of the peer under `peer_id` of the room `room_id` has ended:
    /// from now on nothing can be sent to the peer.
    pub fn writer_closed(&mut self, room_id: &str, peer_id: &str)
        ensures
            final(self)@.keeps_rooms_of(old(self)@),
            !old(self)@.rooms.contains_key(room_id@) ==> final(self)@ == old(self)@,
            old(self)@.rooms.contains_key(room_id@) ==> final(self)@ == old(self)@.with_room(
                room_id@,
                old(self)@.rooms[room_id@].disconnected(peer_id@),
            ),
    {
        match rooms_remove(&mut self.rooms, room_id) {
            None => {
                assert(self@.rooms =~= old(self)@.rooms);
            },
            Some(mut room) => {
                room.disconnect_peer(peer_id);
                let ghost after = room@;
                rooms_insert(&mut self.rooms, room_id.to_owned(), room);
                assert(self@.rooms =~= old(self)@.rooms.insert(room_id@, after));
            },
        }
    }

    /// Answers `getRouterRtpCapabilities` with the capability set of the room's router.
    pub fn handle_get_router_rtp_capabilities(&self, message: &SignalingMessage, room: &Room) -> (r:
        Result<SignalingResponse, MediaSoupError>)
        ensures
            r is Ok,
            r->Ok_0.id@ == (match message@.id {
                Some(id) => id,
                None => Seq::empty(),
            }),
            opt_value(r->Ok_0.response) == Some(room@.router.rtp_capabilities),
            r->Ok_0.error is None,
    {
        let capabilities = room.get_rtp_capabilities().clone();
        Ok(message.to_response(Some(capabilities), None))
    }

    /// Reads a `createWebRtcTransport` request and says what the engine is to be asked.
    pub fn handle_create_webrtc_transport(
        &self,
        message: &SignalingMessage,
        peer_id: &str,
        room: &Room,
    ) -> (r: Result<EngineCall, MediaSoupError>)
        ensures
            match r {
                Ok(c) => plan_create_transport(room@, self@.listen_ips, peer_id@, message@.data)
                    == Ok::<PlanView, ErrorView>(PlanView::Call(c@)),
                Err(e) => plan_create_transport(room@, self@.listen_ips, peer_id@, message@.data)
                    == Err::<PlanView, ErrorView>(e@),
            },
    {
        let data = match &message.data {
            Some(v) => CreateWebRtcTransportData::from_value(v)?,
            None => CreateWebRtcTransportData::absent(),
        };
        let listen_ips = clone_listen_ips(&self.config.webrtc.listen_ips);
        let options = room.create_webrtc_transport(
            peer_id,
            listen_ips,
            true,
            true,
            true,
            data.sctp_capabilities.is_some(),
        )?;
        Ok(EngineCall::CreateWebRtcTransport(options))
    }

    /// Reads a `connectTransport` request and says what the engine is to be asked.
    pub fn handle_connect_transport(&self, message: &SignalingMessage, peer_id: &str, room: &mut Room) -> (r:
        Result<EngineCall, MediaSoupError>)
        ensures
            final(room)@ == old(room)@,
            match r {
                Ok(c) => plan_connect_transport(old(room)@, peer_id@, message@.data) == Ok::<
                    PlanView,
                    ErrorView,
                >(PlanView::Call(c@)),
                Err(e) => plan_connect_transport(old(room)@, peer_id@, message@.data) == Err::<
                    PlanView,
                    ErrorView,
                >(e@),
            },
    {
        let data = match &message.data {
            Some(v) => ConnectTransportData::from_value(v)?,
            None => {
                return Err(missing_field("data"));
            },
        };
        let transport = room.transport_handle(peer_id, data.transport_id.as_str())?;
        Ok(EngineCall::ConnectTransport { transport, dtls_parameters: data.dtls_parameters })
    }

    /// Reads a `produce` request and says what the engine is to be asked.
    pub fn handle_produce(&self, message: &SignalingMessage, peer_id: &str, room: &mut Room) -> (r:
        Result<EngineCall, MediaSoupError>)
        ensures
            final(room)@ == old(room)@,
            match r {
                Ok(c) => plan_produce(old(room)@, peer_id@, message@.data) == Ok::<
                    PlanView,
                    ErrorView,
                >(PlanView::Call(c@)),
                Err(e) => plan_produce(old(room)@, peer_id@, message@.data) == Err::<
                    PlanView,
                    ErrorView,
                >(e@),
            },
    {
        let data = match &message.data {
            Some(v) => ProduceData::from_value(v)?,
            None => {
                return Err(missing_field("data"));
            },
        };
        let kind = match MediaKind::parse(data.kind.as_str()) {
            Some(kind) => kind,
            None => {
                return Err(
                    MediaSoupError::InvalidRequest(
                        join("Invalid media kind: ", data.kind.as_str()),
                    ),
                );
            },
        };
        let options = room.create_producer(
            peer_id,
            data.transport_id.as_str(),
            kind,
            data.rtp_parameters,
            data.app_data,
        )?;
        Ok(EngineCall::Produce(options))
    }

    /// Reads a `consume` request and, where the peer, its transport and the producer are
    /// found, says what the router is to be asked.
    pub fn handle_consume(&self, message: &SignalingMessage, peer_id: &str, room: &mut Room) -> (r:
        Result<EngineCall, MediaSoupError>)
        ensures
            final(room)@ == old(room)@,
            match r {
                Ok(c) => plan_consume(old(room)@, peer_id@, message@.data) == Ok::<
                    PlanView,
                    ErrorView,
                >(PlanView::Call(c@)),
                Err(e) => plan_consume(old(room)@, peer_id@, message@.data) == Err::<
                    PlanView,
                    ErrorView,
                >(e@),
            },
    {
        let data = match &message.data {
            Some(v) => ConsumeData::from_value(v)?,
            None => {
                return Err(missing_field("data"));
            },
        };
        let _ = room.create_consumer(
            peer_id,
            data.transport_id.as_str(),
            data.producer_id.as_str(),
            data.rtp_capabilities.clone(),
            true,
        )?;
        Ok(
            EngineCall::CanConsume {
                router: room.router.handle,
                transport_id: data.transport_id,
                producer_id: data.producer_id,
                rtp_capabilities: data.rtp_capabilities,
            },
        )
    }

    /// The handle of the producer that a `pauseProducer` or `resumeProducer` request
    /// names.
    fn named_producer(message: &SignalingMessage, peer_id: &str, room: &mut Room) -> (r: Result<
        u64,
        MediaSoupError,
    >)
        ensures
            final(room)@ == old(room)@,
            match r {
                Ok(h) => named_producer(old(room)@, peer_id@, message@.data) == Ok::<
                    u64,
                    ErrorView,
                >(h),
                Err(e) => named_producer(old(room)@, peer_id@, message@.data) == Err::<
                    u64,
                    ErrorView,
                >(e@),
            },
    {
        let data = match &message.data {
            Some(v) => v,
            None => {
                return Err(missing_field("data"));
            },
        };
        let producer_id = required_text(data, "producerId")?;
        room.producer_handle(peer_id, producer_id.as_str())
    }

    /// Reads a `pauseProducer` request and says what the engine is to be asked.
    pub fn handle_pause_producer(&self, message: &SignalingMessage, peer_id: &str, room: &mut Room) -> (r:
        Result<EngineCall, MediaSoupError>)
        ensures
            final(room)@ == old(room)@,
            match r {
                Ok(c) => named_producer(old(room)@, peer_id@, message@.data) is Ok && c@ == (
                EngineCallView::PauseProducer {
                    producer: named_producer(old(room)@, peer_id@, message@.data)->Ok_0,
                }),
                Err(e) => named_producer(old(room)@, peer_id@, message@.data) == Err::<
                    u64,
                    ErrorView,
                >(e@),
            },
    {
        let producer = Self::named_producer(message, peer_id, room)?;
        Ok(EngineCall::PauseProducer { producer })
    }

    /// Reads a `resumeProducer` request and says what the engine is to be asked.
    pub fn handle_resume_producer(&self, message: &SignalingMessage, peer_id: &str, room: &mut Room) -> (r:
        Result<EngineCall, MediaSoupError>)
        ensures
            final(room)@ == old(room)@,
            match r {
                Ok(c) => named_producer(old(room)@, peer_id@, message@.data) is Ok && c@ == (
                EngineCallView::ResumeProducer {
                    producer: named_producer(old(room)@, peer_id@, message@.data)->Ok_0,
                }),
                Err(e) => named_producer(old(room)@, peer_id@, message@.data) == Err::<
                    u64,
                    ErrorView,
                >(e@),
            },
    {
        let producer = Self::named_producer(message, peer_id, room)?;
        Ok(EngineCall::ResumeProducer { producer })
    }
    /// Answers the message `message` of the peer under `peer_id` with `response`, if the
    /// message is a request. That the peer can no longer be reached is no error here.
    fn respond(message: &SignalingMessage, peer_id: &str, room: &mut Room, response: SignalingResponse)
        requires
            response.id@ == (match message@.id {
                Some(id) => id,
                None => Seq::empty(),
            }),
        ensures
            final(room)@ == respond(
                old(room)@,
                peer_id@,
                message@,
                opt_value(response.response),
                opt_text(response.error),
            ),
    {
        if message.is_request() {
            let _ = room.send_to(peer_id, response.into_message());
        }
    }

    /// Answers the message `message` with what its handler gave.
    fn settle(
        message: &SignalingMessage,
        peer_id: &str,
        room: &mut Room,
        result: Result<Value, MediaSoupError>,
    )
        ensures
            final(room)@ == settle(
                old(room)@,
                peer_id@,
                message@,
                match result {
                    Ok(v) => Ok(v@),
                    Err(e) => Err(e@),
                },
            ),
    {
        let response = match result {
            Ok(payload) => message.to_response(Some(payload), None),
            Err(e) => message.to_response(None, Some(e.message())),
        };
        Self::respond(message, peer_id, room, response);
    }

    /// What a request of the method `method` leads to.
    fn plan(&self, method: SignalingMethod, message: &SignalingMessage, peer_id: &str, room: &mut Room) -> (r:
        Result<Plan, MediaSoupError>)
        ensures
            final(room)@ == old(room)@,
            match r {
                Ok(p) => plan(old(room)@, self@.listen_ips, peer_id@, method, message@.data)
                    == Ok::<PlanView, ErrorView>(p@),
                Err(e) => plan(old(room)@, self@.listen_ips, peer_id@, method, message@.data)
                    == Err::<PlanView, ErrorView>(e@),
            },
    {
        match method {
            SignalingMethod::GetRouterRtpCapabilities => {
                Ok(Plan::Respond(room.get_rtp_capabilities().clone()))
            },
            SignalingMethod::CreateWebRtcTransport => {
                Ok(Plan::Call(self.handle_create_webrtc_transport(message, peer_id, room)?))
            },
            SignalingMethod::ConnectTransport => {
                Ok(Plan::Call(self.handle_connect_transport(message, peer_id, room)?))
            },
            SignalingMethod::Produce => Ok(Plan::Call(self.handle_produce(message, peer_id, room)?)),
            SignalingMethod::Consume => Ok(Plan::Call(self.handle_consume(message, peer_id, room)?)),
            SignalingMethod::PauseProducer => {
                Ok(Plan::Call(self.handle_pause_producer(message, peer_id, room)?))
            },
            SignalingMethod::ResumeProducer => {
                Ok(Plan::Call(self.handle_resume_producer(message, peer_id, room)?))
            },
        }
    }

    /// Handles the message `message` of the peer under `peer_id`: finds the handler by the
    /// name of the method and answers a request with what the handler gave, or hands out
    /// the call into the engine that the request waits for. Every error of a handler
    /// becomes an error response; none ends the connection.
    pub fn handle_signaling_message(&self, message: SignalingMessage, peer_id: &str, room: &mut Room) -> (r:
        Step)
        ensures
            final(room)@ == dispatch(old(room)@, self@.listen_ips, peer_id@, message@).0,
            r@ == dispatch(old(room)@, self@.listen_ips, peer_id@, message@).1,
    {
        match SignalingMethod::parse(message.method.as_str()) {
            None => {
                let text = join("Unknown method: ", message.method.as_str());
                let response = message.to_response(None, Some(text));
                Self::respond(&message, peer_id, room, response);
                Step::Done
            },
            Some(method) => match self.plan(method, &message, peer_id, room) {
                Err(e) => {
                    Self::settle(&message, peer_id, room, Err(e));
                    Step::Done
                },
                Ok(Plan::Respond(payload)) => {
                    Self::settle(&message, peer_id, room, Ok(payload));
                    Step::Done
                },
                Ok(Plan::Call(call)) => Step::Call(Pending { message, call }),
            },
        }
    }

    /// The answer to a call that makes nothing.
    fn acknowledge(kind: ErrorKind, outcome: Result<(), EngineFailure>) -> (r: Result<
        Value,
        MediaSoupError,
    >)
        ensures
            match r {
                Ok(v) => acknowledged(kind, outcome) == Ok::<ValueView, ErrorView>(v@),
                Err(e) => acknowledged(kind, outcome) == Err::<ValueView, ErrorView>(e@),
            },
    {
        match outcome {
            Ok(_) => Ok(Value::empty_object()),
            Err(f) => Err(engine_error(kind, f)),
        }
    }

    /// Takes the answer `reply` of the engine to the call that `pending` waits for:
    /// registers what the engine made, tells the other peers of a new producer, and answers
    /// the request; or, after the router has said that the capabilities fit, hands out the
    /// call that makes the consumer.
    pub fn resume(&self, pending: Pending, reply: EngineReply, peer_id: &str, room: &mut Room) -> (r:
        Step)
        ensures
            final(room)@ == resume(old(room)@, peer_id@, pending.message@, pending.call@, reply).0,
            r@ == resume(old(room)@, peer_id@, pending.message@, pending.call@, reply).1,
    {
        let message = pending.message;
        match (pending.call, reply) {
            (EngineCall::CreateWebRtcTransport(_), EngineReply::TransportCreated(outcome)) => {
                let result = match room.register_transport(peer_id, outcome) {
                    Ok(t) => Ok(
                        (TransportCreatedResponse {
                            id: t.id,
                            ice_parameters: t.ice_parameters,
                            ice_candidates: t.ice_candidates,
                            dtls_parameters: t.dtls_parameters,
                            sctp_parameters: t.sctp_parameters,
                        }).to_value(),
                    ),
                    Err(e) => Err(e),
                };
                Self::settle(&message, peer_id, room, result);
                Step::Done
            },
            (EngineCall::ConnectTransport { .. }, EngineReply::TransportConnected(outcome)) => {
                let result = Self::acknowledge(ErrorKind::Transport, outcome);
                Self::settle(&message, peer_id, room, result);
                Step::Done
            },
            (EngineCall::Produce(_), EngineReply::Produced(outcome)) => {
                let result = match room.register_producer(peer_id, outcome) {
                    Ok(p) => Ok((ProducedResponse { id: p.id }).to_value()),
                    Err(e) => Err(e),
                };
                Self::settle(&message, peer_id, room, result);
                Step::Done
            },
            (
                EngineCall::CanConsume { transport_id, producer_id, rtp_capabilities, .. },
                EngineReply::CanConsume(outcome),
            ) => {
                let planned = match outcome {
                    Err(f) => Err(engine_error(ErrorKind::Consumer, f)),
                    Ok(can_consume) => room.create_consumer(
                        peer_id,
                        transport_id.as_str(),
                        producer_id.as_str(),
                        rtp_capabilities,
                        can_consume,
                    ),
                };
                match planned {
                    Ok(options) => Step::Call(
                        Pending { message, call: EngineCall::Consume(options) },
                    ),
                    Err(e) => {
                        Self::settle(&message, peer_id, room, Err(e));
                        Step::Done
                    },
                }
            },
            (EngineCall::Consume(options), EngineReply::Consumed(outcome)) => {
                let result = match room.register_consumer(peer_id, outcome) {
                    Ok(c) => Ok(
                        (ConsumedResponse {
                            id: c.id,
                            producer_id: options.producer_id,
                            kind: c.kind.debug_name().to_owned(),
                            rtp_parameters: c.rtp_parameters,
                        }).to_value(),
                    ),
                    Err(e) => Err(e),
                };
                Self::settle(&message, peer_id, room, result);
                Step::Done
            },
            (EngineCall::PauseProducer { .. }, EngineReply::ProducerPaused(outcome)) => {
                let result = Self::acknowledge(ErrorKind::Producer, outcome);
                Self::settle(&message, peer_id, room, result);
                Step::Done
            },
            (EngineCall::ResumeProducer { .. }, EngineReply::ProducerResumed(outcome)) => {
                let result = Self::acknowledge(ErrorKind::Producer, outcome);
                Self::settle(&message, peer_id, room, result);
                Step::Done
            },
            _ => {
                let e = MediaSoupError::InvalidRequest("Unexpected engine reply".to_owned());
                Self::settle(&message, peer_id, room, Err(e));
                Step::Done
            },
        }
    }
}

} // verus!