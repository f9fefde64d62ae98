use mediasoup_server::error::{ErrorKind, MediaSoupError};

#[test]
fn every_error_shows_its_words_and_its_detail() {
    let cases = vec![
        (MediaSoupError::Io("x".to_string()), "MediaSoup I/O error: x"),
        (MediaSoupError::CreateRouter("x".to_string()), "MediaSoup create router error: x"),
        (MediaSoupError::Request("x".to_string()), "MediaSoup request error: x"),
        (MediaSoupError::Transport("x".to_string()), "MediaSoup transport error: x"),
        (MediaSoupError::Producer("x".to_string()), "MediaSoup producer error: x"),
        (MediaSoupError::Consumer("x".to_string()), "MediaSoup consumer error: x"),
        (MediaSoupError::WebSocket("x".to_string()), "WebSocket error: x"),
        (MediaSoupError::Json("x".to_string()), "JSON serialization error: x"),
        (MediaSoupError::RoomNotFound("x".to_string()), "Room not found: x"),
        (MediaSoupError::PeerNotFound("x".to_string()), "Peer not found: x"),
        (MediaSoupError::TransportNotFound("x".to_string()), "Transport not found: x"),
        (MediaSoupError::ProducerNotFound("x".to_string()), "Producer not found: x"),
        (MediaSoupError::ConsumerNotFound("x".to_string()), "Consumer not found: x"),
        (MediaSoupError::InvalidRequest("x".to_string()), "Invalid request: x"),
        (MediaSoupError::Config("x".to_string()), "Configuration error: x"),
    ];
    for (error, text) in cases {
        assert_eq!(error.message(), text);
        assert_eq!(error.detail(), "x");
    }
}

#[test]
fn an_error_is_made_from_its_kind_and_detail() {
    let kinds = vec![
        ErrorKind::Io,
        ErrorKind::CreateRouter,
        ErrorKind::Request,
        ErrorKind::Transport,
        ErrorKind::Producer,
        ErrorKind::Consumer,
        ErrorKind::WebSocket,
        ErrorKind::Json,
        ErrorKind::RoomNotFound,
        ErrorKind::PeerNotFound,
        ErrorKind::TransportNotFound,
        ErrorKind::ProducerNotFound,
        ErrorKind::ConsumerNotFound,
        ErrorKind::InvalidRequest,
        ErrorKind::Config,
    ];
    for kind in kinds {
        let error = MediaSoupError::of(kind, "detail".to_string());
        assert_eq!(error.kind(), kind);
        assert_eq!(error.detail(), "detail");
    }
    assert_eq!(
        MediaSoupError::of(ErrorKind::WebSocket, "closed".to_string()),
        MediaSoupError::WebSocket("closed".to_string())
    );
    assert_eq!(
        MediaSoupError::of(ErrorKind::ConsumerNotFound, "c1".to_string()).message(),
        "Consumer not found: c1"
    );
}
