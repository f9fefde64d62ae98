use mediasoup_server::config::{Config, Environment};
use mediasoup_server::engine::{
    Consumer, ConsumerOptions, EngineCall, EngineFailure, EngineReply, ListenInfo, MediaKind,
    Producer, ProducerOptions, Router, RouterOptions, WebRtcTransport, WebRtcTransportOptions,
    Worker,
};
use mediasoup_server::error::MediaSoupError;
use mediasoup_server::json::Value;
use mediasoup_server::pool::CustomWorkerManager;
use mediasoup_server::room::Room;
use mediasoup_server::server::{Admission, Frame, MediaSoupServer, Pending, Step};
use mediasoup_server::signaling::SignalingMessage;

fn word(s: &str) -> Value {
    Value::String(s.to_string())
}

fn record(members: Vec<(&str, Value)>) -> Value {
    Value::Object(members.into_iter().map(|(k, v)| (k.to_string(), v)).collect())
}

fn capabilities() -> Value {
    record(vec![("codecs", Value::Array(vec![word("opus")]))])
}

fn environment(workers: &str) -> Environment {
    Environment {
        listen_addr: None,
        http_addr: None,
        num_workers: Some(workers.to_string()),
        log_level: None,
        log_tags: None,
        rtc_min_port: None,
        rtc_max_port: None,
        announced_ip: Some("203.0.113.9".to_string()),
    }
}

fn server_with_workers(workers: u64) -> MediaSoupServer {
    let config = Config::load(environment(&workers.to_string()));
    let mut pool = CustomWorkerManager::new(&config);
    let mut handle = 100;
    while pool.wants_worker() {
        pool.worker_started(Ok(Worker { handle })).unwrap();
        handle += 1;
    }
    MediaSoupServer::new(config, pool).unwrap()
}

/// A gateway with the room `default`, whose router has the handle 7.
fn server_with_room() -> MediaSoupServer {
    let mut server = server_with_workers(1);
    let options = server.get_or_create_room("default").unwrap().unwrap();
    assert_eq!(options.worker, 100);
    server
        .install_room("default", Ok(Router { handle: 7, rtp_capabilities: capabilities() }))
        .unwrap();
    server
}

/// Opens a connection in the room `default`, which is there, and gives the peer's identifier.
fn join(server: &mut MediaSoupServer) -> String {
    match server.handle_connection("default") {
        Ok(Admission::Joined(peer_id)) => peer_id,
        other => panic!("the peer has not joined: {:?}", other),
    }
}

fn request(id: &str, method: &str, data: Value) -> Frame {
    Frame::Text(Ok(record(vec![("id", word(id)), ("method", word(method)), ("data", data)])))
}

fn response(id: &str, data: Value) -> SignalingMessage {
    SignalingMessage { id: Some(id.to_string()), method: "response".to_string(), data: Some(data) }
}

fn failure(id: &str, text: &str) -> SignalingMessage {
    response(id, record(vec![("error", word(text))]))
}

fn made_transport(handle: u64, id: &str) -> WebRtcTransport {
    WebRtcTransport {
        handle,
        id: id.to_string(),
        ice_parameters: word("ice"),
        ice_candidates: Value::Array(vec![]),
        dtls_parameters: word("dtls"),
        sctp_parameters: None,
    }
}

fn pending_of(step: Step) -> Pending {
    match step {
        Step::Call(pending) => pending,
        other => panic!("the request does not wait for the engine: {:?}", other),
    }
}

/// Makes a transport with the identifier `id` and the handle `handle` for the peer.
fn open_transport(server: &mut MediaSoupServer, peer: &str, handle: u64, id: &str) {
    let step = server.handle_incoming_messages(
        request("t", "createWebRtcTransport", Value::Null),
        peer,
        "default",
    );
    let pending = pending_of(step);
    let reply = EngineReply::TransportCreated(Ok(made_transport(handle, id)));
    assert_eq!(server.handle_reply(pending, reply, peer, "default"), Step::Done);
    server.take_messages("default", peer);
}

/// Makes a producer with the identifier `id` for the peer, on its transport `transport`.
fn open_producer(server: &mut MediaSoupServer, peer: &str, transport: &str, id: &str) {
    let data = record(vec![
        ("transportId", word(transport)),
        ("kind", word("audio")),
        ("rtpParameters", record(vec![])),
    ]);
    let pending =
        pending_of(server.handle_incoming_messages(request("p", "produce", data), peer, "default"));
    let reply =
        EngineReply::Produced(Ok(Producer { handle: 50, id: id.to_string(), kind: MediaKind::Audio }));
    assert_eq!(server.handle_reply(pending, reply, peer, "default"), Step::Done);
    server.take_messages("default", peer);
}

#[test]
fn a_gateway_needs_a_complete_pool() {
    let config = Config::load(environment("2"));
    let mut pool = CustomWorkerManager::new(&config);
    pool.worker_started(Ok(Worker { handle: 1 })).unwrap();
    assert_eq!(
        MediaSoupServer::new(config, pool).err(),
        Some(MediaSoupError::Config("Worker pool is not complete".to_string()))
    );
}

#[test]
fn a_room_is_made_on_first_reference() {
    let mut server = server_with_workers(2);
    let first = server.get_or_create_room("default").unwrap();
    assert_eq!(
        first,
        Some(RouterOptions { worker: 100, media_codecs: Room::media_codecs() })
    );
    // As long as the room is not installed the next reference asks again, on the next worker.
    let second = server.get_or_create_room("default").unwrap().unwrap();
    assert_eq!(second.worker, 101);
    assert_eq!(
        server.install_room("default", Ok(Router { handle: 7, rtp_capabilities: capabilities() })),
        Ok(())
    );
    assert_eq!(server.get_or_create_room("default"), Ok(None));
    // Another room takes the next worker in turn.
    assert_eq!(server.get_or_create_room("other").unwrap().unwrap().worker, 100);
}

#[test]
fn a_room_that_is_there_is_kept() {
    let mut server = server_with_room();
    let peer = join(&mut server);
    server
        .install_room("default", Ok(Router { handle: 8, rtp_capabilities: Value::Null }))
        .unwrap();
    let step = server.handle_incoming_messages(
        request("1", "getRouterRtpCapabilities", Value::Null),
        &peer,
        "default",
    );
    assert_eq!(step, Step::Done);
    assert_eq!(server.take_messages("default", &peer), vec![response("1", capabilities())]);
}

#[test]
fn a_router_that_was_not_made_is_an_error() {
    let mut server = server_with_workers(1);
    assert_eq!(
        server.install_room("default", Err(EngineFailure::Failed("worker died".to_string()))),
        Err(MediaSoupError::CreateRouter("worker died".to_string()))
    );
    // The room is still missing: a connection asks for its router again.
    assert_eq!(
        server.handle_connection("default"),
        Ok(Admission::NeedsRouter(RouterOptions {
            worker: 100,
            media_codecs: Room::media_codecs()
        }))
    );
}

#[test]
fn the_first_connection_makes_the_room_and_then_joins() {
    let mut server = server_with_workers(2);
    let options = match server.handle_connection("default") {
        Ok(Admission::NeedsRouter(options)) => options,
        other => panic!("the room is there already: {:?}", other),
    };
    assert_eq!(options, RouterOptions { worker: 100, media_codecs: Room::media_codecs() });
    server
        .install_room("default", Ok(Router { handle: 7, rtp_capabilities: capabilities() }))
        .unwrap();
    let first = join(&mut server);
    let second = join(&mut server);
    assert_eq!(first.len(), 36);
    assert_ne!(first, second);
    assert!(server.take_messages("default", &first).is_empty());
}

#[test]
fn a_gateway_without_workers_makes_no_room() {
    let mut server = server_with_workers(0);
    assert_eq!(
        server.get_or_create_room("default"),
        Err(MediaSoupError::Config("No workers available".to_string()))
    );
    assert_eq!(
        server.handle_connection("default"),
        Err(MediaSoupError::Config("No workers available".to_string()))
    );
}

#[test]
fn frames_for_an_unknown_room_end_the_connection() {
    let mut server = server_with_workers(1);
    assert_eq!(
        server.handle_incoming_messages(Frame::Other, "peer", "nowhere"),
        Step::Close(Some(MediaSoupError::RoomNotFound("nowhere".to_string())))
    );
    assert!(server.take_messages("nowhere", "peer").is_empty());
    assert_eq!(server.handle_disconnect("nowhere", "peer"), Ok(()));
}

#[test]
fn close_frames_end_and_other_frames_are_passed_over() {
    let mut server = server_with_room();
    let peer = join(&mut server);
    assert_eq!(server.handle_incoming_messages(Frame::Close, &peer, "default"), Step::Close(None));
    assert_eq!(server.handle_incoming_messages(Frame::Other, &peer, "default"), Step::Done);
    assert!(server.take_messages("default", &peer).is_empty());
}

#[test]
fn a_text_frame_that_holds_no_message_ends_the_connection() {
    let mut server = server_with_room();
    let peer = join(&mut server);
    assert_eq!(
        server.handle_incoming_messages(
            Frame::Text(Err("expected value at line 1 column 1".to_string())),
            &peer,
            "default"
        ),
        Step::Close(Some(MediaSoupError::Json("expected value at line 1 column 1".to_string())))
    );
    assert_eq!(
        server.handle_incoming_messages(
            Frame::Text(Ok(record(vec![("id", word("1"))]))),
            &peer,
            "default"
        ),
        Step::Close(Some(MediaSoupError::Json("missing field `method`".to_string())))
    );
    assert!(server.take_messages("default", &peer).is_empty());
}

#[test]
fn an_unknown_method_is_answered_with_an_error_and_the_connection_stays() {
    let mut server = server_with_room();
    let peer = join(&mut server);
    let step = server.handle_incoming_messages(request("2", "bogus", Value::Null), &peer, "default");
    assert_eq!(step, Step::Done);
    assert_eq!(
        server.take_messages("default", &peer),
        vec![failure("2", "Unknown method: bogus")]
    );
    // A valid request that follows still succeeds.
    let step = server.handle_incoming_messages(
        request("3", "getRouterRtpCapabilities", Value::Null),
        &peer,
        "default",
    );
    assert_eq!(step, Step::Done);
    assert_eq!(server.take_messages("default", &peer), vec![response("3", capabilities())]);
}

#[test]
fn a_notification_is_never_answered() {
    let mut server = server_with_room();
    let peer = join(&mut server);
    for method in ["bogus", "getRouterRtpCapabilities", "produce"] {
        let frame = Frame::Text(Ok(record(vec![("id", Value::Null), ("method", word(method))])));
        assert_eq!(server.handle_incoming_messages(frame, &peer, "default"), Step::Done);
        assert!(server.take_messages("default", &peer).is_empty());
    }
}

#[test]
fn capabilities_then_produce_then_the_other_peer_is_told() {
    let mut server = server_with_room();
    let a = join(&mut server);
    let b = join(&mut server);
    // Before any producer is there the capabilities can be asked for.
    let step = server.handle_incoming_messages(
        request("1", "getRouterRtpCapabilities", Value::Null),
        &a,
        "default",
    );
    assert_eq!(step, Step::Done);
    assert_eq!(server.take_messages("default", &a), vec![response("1", capabilities())]);

    open_transport(&mut server, &a, 40, "transport-a");
    let data = record(vec![
        ("transportId", word("transport-a")),
        ("kind", word("audio")),
        ("rtpParameters", record(vec![("mid", word("0"))])),
    ]);
    let pending =
        pending_of(server.handle_incoming_messages(request("2", "produce", data), &a, "default"));
    assert_eq!(
        pending.call,
        EngineCall::Produce(ProducerOptions {
            transport: 40,
            kind: MediaKind::Audio,
            rtp_parameters: record(vec![("mid", word("0"))]),
            app_data: None,
        })
    );
    // Nothing is sent while the engine works.
    assert!(server.take_messages("default", &a).is_empty());
    assert!(server.take_messages("default", &b).is_empty());

    let reply = EngineReply::Produced(Ok(Producer {
        handle: 41,
        id: "producer-1".to_string(),
        kind: MediaKind::Audio,
    }));
    assert_eq!(server.handle_reply(pending, reply, &a, "default"), Step::Done);
    assert_eq!(
        server.take_messages("default", &a),
        vec![response("2", record(vec![("id", word("producer-1"))]))]
    );
    let told = server.take_messages("default", &b);
    assert_eq!(told.len(), 1);
    assert_eq!(told[0].id, None);
    assert_eq!(told[0].method, "newProducer");
    let data = told[0].data.as_ref().unwrap();
    assert_eq!(data.get_text("id"), Some("producer-1"));
    assert_eq!(data.get_text("kind"), Some("Audio"));
    assert_eq!(data.get_text("userId").map(|u| u.len()), Some(36));
}

#[test]
fn a_peer_that_disconnects_closes_its_two_producers_for_the_other_peer() {
    let mut server = server_with_room();
    let a = join(&mut server);
    let b = join(&mut server);
    open_transport(&mut server, &a, 40, "transport-a");
    open_producer(&mut server, &a, "transport-a", "producer-1");
    open_producer(&mut server, &a, "transport-a", "producer-2");
    server.take_messages("default", &b);

    assert_eq!(server.handle_disconnect("default", &a), Ok(()));
    let told = server.take_messages("default", &b);
    assert_eq!(told.len(), 2);
    let mut closed: Vec<String> = told
        .iter()
        .map(|m| {
            assert_eq!(m.id, None);
            assert_eq!(m.method, "producerClosed");
            m.data.as_ref().unwrap().get_text("producerId").unwrap().to_string()
        })
        .collect();
    closed.sort();
    assert_eq!(closed, vec!["producer-1".to_string(), "producer-2".to_string()]);
    // The peer is gone: its frames find nobody to answer.
    assert!(server.take_messages("default", &a).is_empty());
}

#[test]
fn create_transport_asks_for_sctp_when_capabilities_are_named() {
    let mut server = server_with_room();
    let peer = join(&mut server);
    let plain = pending_of(server.handle_incoming_messages(
        request("1", "createWebRtcTransport", record(vec![("producing", Value::Bool(true))])),
        &peer,
        "default",
    ));
    let expected = |enable_sctp| {
        EngineCall::CreateWebRtcTransport(WebRtcTransportOptions {
            router: 7,
            listen_info: ListenInfo {
                ip: "0.0.0.0".to_string(),
                announced_address: Some("203.0.113.9".to_string()),
            },
            enable_udp: true,
            enable_tcp: true,
            prefer_udp: true,
            enable_sctp,
        })
    };
    assert_eq!(plain.call, expected(false));
    let sctp = pending_of(server.handle_incoming_messages(
        request("2", "createWebRtcTransport", record(vec![("sctpCapabilities", record(vec![]))])),
        &peer,
        "default",
    ));
    assert_eq!(sctp.call, expected(true));

    let reply = EngineReply::TransportCreated(Ok(made_transport(40, "transport-a")));
    assert_eq!(server.handle_reply(sctp, reply, &peer, "default"), Step::Done);
    assert_eq!(
        server.take_messages("default", &peer),
        vec![response(
            "2",
            record(vec![
                ("id", word("transport-a")),
                ("iceParameters", word("ice")),
                ("iceCandidates", Value::Array(vec![])),
                ("dtlsParameters", word("dtls")),
                ("sctpParameters", Value::Null),
            ])
        )]
    );

    let reply = EngineReply::TransportCreated(Err(EngineFailure::Failed("no port".to_string())));
    assert_eq!(server.handle_reply(plain, reply, &peer, "default"), Step::Done);
    assert_eq!(
        server.take_messages("default", &peer),
        vec![failure("1", "MediaSoup request error: no port")]
    );

    let step = server.handle_incoming_messages(
        request("3", "createWebRtcTransport", record(vec![("producing", word("yes"))])),
        &peer,
        "default",
    );
    assert_eq!(step, Step::Done);
    assert_eq!(
        server.take_messages("default", &peer),
        vec![failure("3", "Invalid request: Invalid producing")]
    );
}

#[test]
fn connect_transport_needs_a_transport_of_the_peer() {
    let mut server = server_with_room();
    let peer = join(&mut server);
    open_transport(&mut server, &peer, 40, "transport-a");

    let step =
        server.handle_incoming_messages(request("1", "connectTransport", Value::Null), &peer, "default");
    assert_eq!(step, Step::Done);
    let data = record(vec![("transportId", word("transport-z")), ("dtlsParameters", word("d"))]);
    let step =
        server.handle_incoming_messages(request("2", "connectTransport", data), &peer, "default");
    assert_eq!(step, Step::Done);
    assert_eq!(
        server.take_messages("default", &peer),
        vec![
            failure("1", "Invalid request: Missing data"),
            failure("2", "Transport not found: transport-z"),
        ]
    );

    let data = record(vec![("transportId", word("transport-a")), ("dtlsParameters", word("d"))]);
    let pending = pending_of(server.handle_incoming_messages(
        request("3", "connectTransport", data.clone()),
        &peer,
        "default",
    ));
    assert_eq!(
        pending.call,
        EngineCall::ConnectTransport { transport: 40, dtls_parameters: word("d") }
    );
    let reply = EngineReply::TransportConnected(Ok(()));
    assert_eq!(server.handle_reply(pending, reply, &peer, "default"), Step::Done);

    let pending = pending_of(server.handle_incoming_messages(
        request("4", "connectTransport", data.clone()),
        &peer,
        "default",
    ));
    let reply = EngineReply::TransportConnected(Err(EngineFailure::Failed("bad role".to_string())));
    assert_eq!(server.handle_reply(pending, reply, &peer, "default"), Step::Done);

    let pending = pending_of(server.handle_incoming_messages(
        request("5", "connectTransport", data),
        &peer,
        "default",
    ));
    let reply =
        EngineReply::TransportConnected(Err(EngineFailure::Malformed("no role".to_string())));
    assert_eq!(server.handle_reply(pending, reply, &peer, "default"), Step::Done);
    assert_eq!(
        server.take_messages("default", &peer),
        vec![
            response("3", record(vec![])),
            failure("4", "MediaSoup transport error: bad role"),
            failure("5", "JSON serialization error: no role"),
        ]
    );
}

#[test]
fn produce_takes_audio_and_video_only() {
    let mut server = server_with_room();
    let peer = join(&mut server);
    open_transport(&mut server, &peer, 40, "transport-a");
    let data = record(vec![
        ("transportId", word("transport-a")),
        ("kind", word("text")),
        ("rtpParameters", Value::Null),
    ]);
    assert_eq!(
        server.handle_incoming_messages(request("1", "produce", data), &peer, "default"),
        Step::Done
    );
    let data = record(vec![("transportId", word("transport-a")), ("kind", word("video"))]);
    assert_eq!(
        server.handle_incoming_messages(request("2", "produce", data), &peer, "default"),
        Step::Done
    );
    let data = record(vec![
        ("transportId", word("transport-a")),
        ("kind", word("video")),
        ("rtpParameters", Value::Null),
        ("appData", word("camera")),
    ]);
    let pending =
        pending_of(server.handle_incoming_messages(request("3", "produce", data), &peer, "default"));
    assert_eq!(
        pending.call,
        EngineCall::Produce(ProducerOptions {
            transport: 40,
            kind: MediaKind::Video,
            rtp_parameters: Value::Null,
            app_data: Some(word("camera")),
        })
    );
    let reply = EngineReply::Produced(Err(EngineFailure::Failed("no codec".to_string())));
    assert_eq!(server.handle_reply(pending, reply, &peer, "default"), Step::Done);
    assert_eq!(
        server.take_messages("default", &peer),
        vec![
            failure("1", "Invalid request: Invalid media kind: text"),
            failure("2", "Invalid request: Missing rtpParameters"),
            failure("3", "MediaSoup producer error: no codec"),
        ]
    );
}

#[test]
fn consume_asks_the_router_and_then_makes_the_consumer() {
    let mut server = server_with_room();
    let a = join(&mut server);
    let b = join(&mut server);
    open_transport(&mut server, &a, 40, "transport-a");
    open_producer(&mut server, &a, "transport-a", "producer-1");
    open_transport(&mut server, &b, 60, "transport-b");
    server.take_messages("default", &b);

    let data = |producer: &str| {
        record(vec![
            ("transportId", word("transport-b")),
            ("producerId", word(producer)),
            ("rtpCapabilities", word("caps")),
        ])
    };
    // An unknown producer is refused before the router is asked.
    assert_eq!(
        server.handle_incoming_messages(request("1", "consume", data("producer-9")), &b, "default"),
        Step::Done
    );
    assert_eq!(
        server.take_messages("default", &b),
        vec![failure("1", "Producer not found: producer-9")]
    );

    let pending = pending_of(server.handle_incoming_messages(
        request("2", "consume", data("producer-1")),
        &b,
        "default",
    ));
    assert_eq!(
        pending.call,
        EngineCall::CanConsume {
            router: 7,
            transport_id: "transport-b".to_string(),
            producer_id: "producer-1".to_string(),
            rtp_capabilities: word("caps"),
        }
    );
    assert_eq!(
        server.handle_reply(pending, EngineReply::CanConsume(Ok(false)), &b, "default"),
        Step::Done
    );
    assert_eq!(
        server.take_messages("default", &b),
        vec![failure("2", "MediaSoup consumer error: Cannot consume producer")]
    );

    let pending = pending_of(server.handle_incoming_messages(
        request("4", "consume", data("producer-1")),
        &b,
        "default",
    ));
    let unread = EngineReply::CanConsume(Err(EngineFailure::Malformed("no codecs".to_string())));
    assert_eq!(server.handle_reply(pending, unread, &b, "default"), Step::Done);
    assert_eq!(
        server.take_messages("default", &b),
        vec![failure("4", "JSON serialization error: no codecs")]
    );

    let pending = pending_of(server.handle_incoming_messages(
        request("3", "consume", data("producer-1")),
        &b,
        "default",
    ));
    let pending =
        pending_of(server.handle_reply(pending, EngineReply::CanConsume(Ok(true)), &b, "default"));
    assert_eq!(
        pending.call,
        EngineCall::Consume(ConsumerOptions {
            transport: 60,
            producer_id: "producer-1".to_string(),
            rtp_capabilities: word("caps"),
        })
    );
    let reply = EngineReply::Consumed(Ok(Consumer {
        handle: 61,
        id: "consumer-1".to_string(),
        kind: MediaKind::Audio,
        rtp_parameters: word("rtp"),
    }));
    assert_eq!(server.handle_reply(pending, reply, &b, "default"), Step::Done);
    assert_eq!(
        server.take_messages("default", &b),
        vec![response(
            "3",
            record(vec![
                ("id", word("consumer-1")),
                ("producerId", word("producer-1")),
                ("kind", word("Audio")),
                ("rtpParameters", word("rtp")),
            ])
        )]
    );
    // Nobody is told of a consumer.
    assert!(server.take_messages("default", &a).is_empty());
}

#[test]
fn pause_and_resume_look_at_the_own_producers_only() {
    let mut server = server_with_room();
    let a = join(&mut server);
    let b = join(&mut server);
    open_transport(&mut server, &a, 40, "transport-a");
    open_producer(&mut server, &a, "transport-a", "producer-1");
    server.take_messages("default", &b);

    let named = record(vec![("producerId", word("producer-1"))]);
    assert_eq!(
        server.handle_incoming_messages(request("1", "pauseProducer", named.clone()), &b, "default"),
        Step::Done
    );
    assert_eq!(
        server.handle_incoming_messages(request("2", "resumeProducer", record(vec![])), &a, "default"),
        Step::Done
    );
    assert_eq!(
        server.handle_incoming_messages(request("3", "pauseProducer", Value::Null), &a, "default"),
        Step::Done
    );
    assert_eq!(
        server.take_messages("default", &b),
        vec![failure("1", "Producer not found: producer-1")]
    );
    assert_eq!(
        server.take_messages("default", &a),
        vec![
            failure("2", "Invalid request: Missing producerId"),
            failure("3", "Invalid request: Missing data"),
        ]
    );

    let paused = pending_of(server.handle_incoming_messages(
        request("4", "pauseProducer", named.clone()),
        &a,
        "default",
    ));
    assert_eq!(paused.call, EngineCall::PauseProducer { producer: 50 });
    assert_eq!(
        server.handle_reply(paused, EngineReply::ProducerPaused(Ok(())), &a, "default"),
        Step::Done
    );
    let resumed =
        pending_of(server.handle_incoming_messages(request("5", "resumeProducer", named), &a, "default"));
    assert_eq!(resumed.call, EngineCall::ResumeProducer { producer: 50 });
    let reply = EngineReply::ProducerResumed(Err(EngineFailure::Failed("closed".to_string())));
    assert_eq!(server.handle_reply(resumed, reply, &a, "default"), Step::Done);
    assert_eq!(
        server.take_messages("default", &a),
        vec![response("4", record(vec![])), failure("5", "MediaSoup producer error: closed")]
    );
}

#[test]
fn an_answer_that_fits_no_call_is_an_error() {
    let mut server = server_with_room();
    let peer = join(&mut server);
    let pending = pending_of(server.handle_incoming_messages(
        request("1", "createWebRtcTransport", Value::Null),
        &peer,
        "default",
    ));
    assert_eq!(
        server.handle_reply(pending, EngineReply::CanConsume(Ok(true)), &peer, "default"),
        Step::Done
    );
    assert_eq!(
        server.take_messages("default", &peer),
        vec![failure("1", "Invalid request: Unexpected engine reply")]
    );
}

#[test]
fn a_peer_whose_writer_has_ended_gets_nothing_more() {
    let mut server = server_with_room();
    let a = join(&mut server);
    let b = join(&mut server);
    server.writer_closed("default", &b);
    open_transport(&mut server, &a, 40, "transport-a");
    open_producer(&mut server, &a, "transport-a", "producer-1");
    assert!(server.take_messages("default", &b).is_empty());
    let step = server.handle_incoming_messages(
        request("1", "getRouterRtpCapabilities", Value::Null),
        &b,
        "default",
    );
    assert_eq!(step, Step::Done);
    assert!(server.take_messages("default", &b).is_empty());
}

#[test]
fn handlers_work_on_a_room_that_is_handed_in() {
    let server = server_with_workers(1);
    let mut room = Room::new(
        "side".to_string(),
        Router { handle: 3, rtp_capabilities: capabilities() },
    );
    let peer = mediasoup_server::peer::Peer::new("carol".to_string());
    let peer_id = peer.id.clone();
    room.add_peer(peer).unwrap();

    let message = SignalingMessage {
        id: Some("1".to_string()),
        method: "getRouterRtpCapabilities".to_string(),
        data: None,
    };
    let answer = server.handle_get_router_rtp_capabilities(&message, &room).unwrap();
    assert_eq!(answer.id, "1");
    assert_eq!(answer.response, Some(capabilities()));
    assert_eq!(answer.error, None);

    assert_eq!(server.handle_signaling_message(message, &peer_id, &mut room), Step::Done);
    assert_eq!(room.take_messages(&peer_id), vec![response("1", capabilities())]);

    let consume = SignalingMessage {
        id: Some("2".to_string()),
        method: "consume".to_string(),
        data: Some(record(vec![
            ("transportId", word("t")),
            ("producerId", word("p")),
            ("rtpCapabilities", Value::Null),
        ])),
    };
    assert_eq!(
        server.handle_consume(&consume, &peer_id, &mut room),
        Err(MediaSoupError::TransportNotFound("t".to_string()))
    );
    assert_eq!(
        server.handle_consume(&consume, "nobody", &mut room),
        Err(MediaSoupError::PeerNotFound("nobody".to_string()))
    );
    assert_eq!(
        server.handle_frame(Frame::Close, &peer_id, &mut room),
        Step::Close(None)
    );
}
