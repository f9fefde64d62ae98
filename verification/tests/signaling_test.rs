use mediasoup_server::error::MediaSoupError;
use mediasoup_server::json::{Number, Value};
use mediasoup_server::payload::{
    optional_flag, optional_member, required_member, required_text, ConnectTransportData,
    ConsumeData, ConsumedResponse, CreateWebRtcTransportData, NewProducerNotification,
    ProduceData, ProducedResponse, ProducerClosedNotification, TransportCreatedResponse,
};
use mediasoup_server::signaling::{SignalingMessage, SignalingMethod, SignalingResponse};

fn text_value(s: &str) -> Value {
    Value::String(s.to_string())
}

fn object_of(members: Vec<(&str, Value)>) -> Value {
    Value::Object(members.into_iter().map(|(k, v)| (k.to_string(), v)).collect())
}

#[test]
fn a_request_has_a_fresh_identifier() {
    let a = SignalingMessage::request("produce".to_string(), None);
    let b = SignalingMessage::request("produce".to_string(), None);
    assert_eq!(a.id.as_ref().unwrap().len(), 36);
    assert_ne!(a.id, b.id);
    assert_eq!(a.method, "produce");
    assert_eq!(a.data, None);
    assert!(a.is_request());
    assert!(!a.is_notification());
}

#[test]
fn a_notification_has_no_identifier() {
    let n = SignalingMessage::notification("producerClosed".to_string(), Some(Value::Null));
    assert_eq!(
        n,
        SignalingMessage {
            id: None,
            method: "producerClosed".to_string(),
            data: Some(Value::Null)
        }
    );
    assert!(n.is_notification());
    assert!(!n.is_request());
}

#[test]
fn to_response_carries_the_identifier_of_the_request() {
    let request = SignalingMessage {
        id: Some("7".to_string()),
        method: "consume".to_string(),
        data: None,
    };
    assert_eq!(
        request.to_response(Some(Value::Bool(true)), None),
        SignalingResponse {
            id: "7".to_string(),
            response: Some(Value::Bool(true)),
            error: None
        }
    );
    let notification = SignalingMessage::notification("x".to_string(), None);
    assert_eq!(
        notification.to_response(None, Some("bad".to_string())),
        SignalingResponse { id: String::new(), response: None, error: Some("bad".to_string()) }
    );
}

#[test]
fn a_response_becomes_a_frame_with_payload_or_error() {
    let ok = SignalingResponse {
        id: "1".to_string(),
        response: Some(object_of(vec![("id", text_value("p1"))])),
        error: None,
    };
    assert_eq!(
        ok.into_message(),
        SignalingMessage {
            id: Some("1".to_string()),
            method: "response".to_string(),
            data: Some(object_of(vec![("id", text_value("p1"))])),
        }
    );
    let failed = SignalingResponse {
        id: "2".to_string(),
        response: Some(Value::Bool(true)),
        error: Some("Unknown method: bogus".to_string()),
    };
    assert_eq!(
        failed.into_message(),
        SignalingMessage {
            id: Some("2".to_string()),
            method: "response".to_string(),
            data: Some(object_of(vec![("error", text_value("Unknown method: bogus"))])),
        }
    );
}

#[test]
fn the_frame_of_a_message_has_id_method_and_data() {
    let request = SignalingMessage {
        id: Some("1".to_string()),
        method: "getRouterRtpCapabilities".to_string(),
        data: None,
    };
    assert_eq!(
        request.to_value(),
        object_of(vec![
            ("id", text_value("1")),
            ("method", text_value("getRouterRtpCapabilities")),
            ("data", Value::Null),
        ])
    );
    let notification = SignalingMessage::notification(
        "newProducer".to_string(),
        Some(object_of(vec![("id", text_value("p"))])),
    );
    assert_eq!(
        notification.to_value(),
        object_of(vec![
            ("id", Value::Null),
            ("method", text_value("newProducer")),
            ("data", object_of(vec![("id", text_value("p"))])),
        ])
    );
}

#[test]
fn decoding_a_frame_gives_the_message_back() {
    let messages = vec![
        SignalingMessage { id: Some("1".to_string()), method: "produce".to_string(), data: None },
        SignalingMessage { id: None, method: "m".to_string(), data: Some(Value::Bool(false)) },
        SignalingMessage {
            id: Some(String::new()),
            method: String::new(),
            data: Some(Value::Array(vec![Value::Number(Number::PosInt(1)), Value::Null])),
        },
    ];
    for m in messages {
        assert_eq!(SignalingMessage::from_value(&m.to_value()), Ok(m));
    }
}

#[test]
fn data_that_is_null_itself_comes_back_as_no_data() {
    let m = SignalingMessage { id: None, method: "m".to_string(), data: Some(Value::Null) };
    assert_eq!(
        SignalingMessage::from_value(&m.to_value()),
        Ok(SignalingMessage { id: None, method: "m".to_string(), data: None })
    );
}

#[test]
fn a_frame_without_id_or_with_null_id_is_a_notification() {
    let absent = object_of(vec![("method", text_value("m"))]);
    let null = object_of(vec![("id", Value::Null), ("method", text_value("m"))]);
    let present = object_of(vec![("id", text_value("9")), ("method", text_value("m"))]);
    assert!(SignalingMessage::from_value(&absent).unwrap().is_notification());
    assert!(SignalingMessage::from_value(&null).unwrap().is_notification());
    assert!(SignalingMessage::from_value(&present).unwrap().is_request());
    assert_eq!(SignalingMessage::from_value(&present).unwrap().id, Some("9".to_string()));
}

#[test]
fn a_frame_that_holds_no_message_is_refused() {
    assert_eq!(
        SignalingMessage::from_value(&object_of(vec![("id", text_value("1"))])),
        Err(MediaSoupError::Json("missing field `method`".to_string()))
    );
    assert_eq!(
        SignalingMessage::from_value(&object_of(vec![
            ("method", Value::Number(Number::PosInt(1)))
        ])),
        Err(MediaSoupError::Json("missing field `method`".to_string()))
    );
    assert_eq!(
        SignalingMessage::from_value(&text_value("produce")),
        Err(MediaSoupError::Json("missing field `method`".to_string()))
    );
    assert_eq!(
        SignalingMessage::from_value(&object_of(vec![
            ("id", Value::Number(Number::PosInt(5))),
            ("method", text_value("m")),
        ])),
        Err(MediaSoupError::Json("invalid type for field `id`".to_string()))
    );
}

#[test]
fn every_method_is_found_by_its_wire_name() {
    let all = vec![
        (SignalingMethod::GetRouterRtpCapabilities, "getRouterRtpCapabilities"),
        (SignalingMethod::CreateWebRtcTransport, "createWebRtcTransport"),
        (SignalingMethod::ConnectTransport, "connectTransport"),
        (SignalingMethod::Produce, "produce"),
        (SignalingMethod::Consume, "consume"),
        (SignalingMethod::PauseProducer, "pauseProducer"),
        (SignalingMethod::ResumeProducer, "resumeProducer"),
    ];
    for (method, name) in all {
        assert_eq!(method.name(), name);
        assert_eq!(SignalingMethod::parse(name), Some(method));
    }
    assert_eq!(SignalingMethod::parse("bogus"), None);
    assert_eq!(SignalingMethod::parse("Produce"), None);
    assert_eq!(SignalingMethod::parse(""), None);
}

#[test]
fn payload_members_are_read_by_kind() {
    let v = object_of(vec![
        ("transportId", text_value("t1")),
        ("count", Value::Number(Number::PosInt(2))),
        ("flag", Value::Bool(true)),
        ("nothing", Value::Null),
    ]);
    assert_eq!(required_text(&v, "transportId"), Ok("t1".to_string()));
    assert_eq!(
        required_text(&v, "count"),
        Err(MediaSoupError::InvalidRequest("Missing count".to_string()))
    );
    assert_eq!(required_member(&v, "nothing"), Ok(Value::Null));
    assert_eq!(
        required_member(&v, "other"),
        Err(MediaSoupError::InvalidRequest("Missing other".to_string()))
    );
    assert_eq!(optional_member(&v, "nothing"), None);
    assert_eq!(optional_member(&v, "flag"), Some(Value::Bool(true)));
    assert_eq!(optional_flag(&v, "flag"), Ok(Some(true)));
    assert_eq!(optional_flag(&v, "nothing"), Ok(None));
    assert_eq!(optional_flag(&v, "other"), Ok(None));
    assert_eq!(
        optional_flag(&v, "count"),
        Err(MediaSoupError::InvalidRequest("Invalid count".to_string()))
    );
}

#[test]
fn connect_transport_data_wants_both_members() {
    let full = object_of(vec![
        ("transportId", text_value("t1")),
        ("dtlsParameters", object_of(vec![("role", text_value("client"))])),
    ]);
    assert_eq!(
        ConnectTransportData::from_value(&full),
        Ok(ConnectTransportData {
            transport_id: "t1".to_string(),
            dtls_parameters: object_of(vec![("role", text_value("client"))]),
        })
    );
    assert_eq!(
        ConnectTransportData::from_value(&object_of(vec![("dtlsParameters", Value::Null)])),
        Err(MediaSoupError::InvalidRequest("Missing transportId".to_string()))
    );
    assert_eq!(
        ConnectTransportData::from_value(&object_of(vec![("transportId", text_value("t"))])),
        Err(MediaSoupError::InvalidRequest("Missing dtlsParameters".to_string()))
    );
}

#[test]
fn produce_data_reads_its_members() {
    let full = object_of(vec![
        ("transportId", text_value("t1")),
        ("kind", text_value("audio")),
        ("rtpParameters", object_of(vec![])),
        ("appData", object_of(vec![("a", Value::Bool(true))])),
    ]);
    assert_eq!(
        ProduceData::from_value(&full),
        Ok(ProduceData {
            transport_id: "t1".to_string(),
            kind: "audio".to_string(),
            rtp_parameters: object_of(vec![]),
            app_data: Some(object_of(vec![("a", Value::Bool(true))])),
        })
    );
    let bare = object_of(vec![
        ("transportId", text_value("t1")),
        ("kind", text_value("video")),
        ("rtpParameters", Value::Null),
        ("appData", Value::Null),
    ]);
    assert_eq!(
        ProduceData::from_value(&bare),
        Ok(ProduceData {
            transport_id: "t1".to_string(),
            kind: "video".to_string(),
            rtp_parameters: Value::Null,
            app_data: None,
        })
    );
    assert_eq!(
        ProduceData::from_value(&object_of(vec![("transportId", text_value("t1"))])),
        Err(MediaSoupError::InvalidRequest("Missing kind".to_string()))
    );
    assert_eq!(
        ProduceData::from_value(&object_of(vec![
            ("transportId", text_value("t1")),
            ("kind", text_value("audio")),
        ])),
        Err(MediaSoupError::InvalidRequest("Missing rtpParameters".to_string()))
    );
    assert_eq!(
        ProduceData::from_value(&Value::Array(vec![])),
        Err(MediaSoupError::InvalidRequest("Missing transportId".to_string()))
    );
}

#[test]
fn consume_data_reads_its_members() {
    let full = object_of(vec![
        ("transportId", text_value("t1")),
        ("producerId", text_value("p1")),
        ("rtpCapabilities", object_of(vec![("codecs", Value::Array(vec![]))])),
    ]);
    assert_eq!(
        ConsumeData::from_value(&full),
        Ok(ConsumeData {
            transport_id: "t1".to_string(),
            producer_id: "p1".to_string(),
            rtp_capabilities: object_of(vec![("codecs", Value::Array(vec![]))]),
        })
    );
    assert_eq!(
        ConsumeData::from_value(&object_of(vec![("transportId", text_value("t1"))])),
        Err(MediaSoupError::InvalidRequest("Missing producerId".to_string()))
    );
    assert_eq!(
        ConsumeData::from_value(&object_of(vec![
            ("transportId", text_value("t1")),
            ("producerId", text_value("p1")),
        ])),
        Err(MediaSoupError::InvalidRequest("Missing rtpCapabilities".to_string()))
    );
}

#[test]
fn create_transport_data_has_only_optional_members() {
    assert_eq!(
        CreateWebRtcTransportData::from_value(&object_of(vec![])),
        Ok(CreateWebRtcTransportData::absent())
    );
    assert_eq!(
        CreateWebRtcTransportData::from_value(&object_of(vec![
            ("producing", Value::Bool(true)),
            ("consuming", Value::Null),
            ("sctpCapabilities", object_of(vec![])),
        ])),
        Ok(CreateWebRtcTransportData {
            producing: Some(true),
            consuming: None,
            sctp_capabilities: Some(object_of(vec![])),
        })
    );
    assert_eq!(
        CreateWebRtcTransportData::from_value(&object_of(vec![(
            "producing",
            text_value("yes")
        )])),
        Err(MediaSoupError::InvalidRequest("Invalid producing".to_string()))
    );
    assert_eq!(
        CreateWebRtcTransportData::from_value(&object_of(vec![(
            "consuming",
            Value::Number(Number::PosInt(1))
        )])),
        Err(MediaSoupError::InvalidRequest("Invalid consuming".to_string()))
    );
}

#[test]
fn response_payloads_have_their_wire_names() {
    let created = TransportCreatedResponse {
        id: "t1".to_string(),
        ice_parameters: Value::Bool(true),
        ice_candidates: Value::Array(vec![]),
        dtls_parameters: object_of(vec![]),
        sctp_parameters: None,
    };
    assert_eq!(
        created.to_value(),
        object_of(vec![
            ("id", text_value("t1")),
            ("iceParameters", Value::Bool(true)),
            ("iceCandidates", Value::Array(vec![])),
            ("dtlsParameters", object_of(vec![])),
            ("sctpParameters", Value::Null),
        ])
    );
    assert_eq!(
        ProducedResponse { id: "p1".to_string() }.to_value(),
        object_of(vec![("id", text_value("p1"))])
    );
    let consumed = ConsumedResponse {
        id: "c1".to_string(),
        producer_id: "p1".to_string(),
        kind: "Video".to_string(),
        rtp_parameters: Value::Null,
    };
    assert_eq!(
        consumed.to_value(),
        object_of(vec![
            ("id", text_value("c1")),
            ("producerId", text_value("p1")),
            ("kind", text_value("Video")),
            ("rtpParameters", Value::Null),
        ])
    );
    let news = NewProducerNotification {
        id: "p1".to_string(),
        user_id: "u1".to_string(),
        kind: "Audio".to_string(),
    };
    assert_eq!(
        news.to_value(),
        object_of(vec![
            ("id", text_value("p1")),
            ("userId", text_value("u1")),
            ("kind", text_value("Audio")),
        ])
    );
    assert_eq!(
        ProducerClosedNotification { producer_id: "p1".to_string() }.to_value(),
        object_of(vec![("producerId", text_value("p1"))])
    );
}
