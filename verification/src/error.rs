use crate::text::join;
use vstd::prelude::*;

verus! {

/// What went wrong, without the detail.
#[derive(Clone, Copy, Debug, PartialEq, Eq, Structural)]
pub enum ErrorKind {
    Io,
    CreateRouter,
    Request,
    Transport,
    Producer,
    Consumer,
    WebSocket,
    Json,
    RoomNotFound,
    PeerNotFound,
    TransportNotFound,
    ProducerNotFound,
    ConsumerNotFound,
    InvalidRequest,
    Config,
}

impl ErrorKind {
    /// The words that introduce the detail in an error's message.
    pub open spec fn prefix(self) -> Seq<char> {
        match self {
            ErrorKind::Io => "MediaSoup I/O error: "@,
            ErrorKind::CreateRouter => "MediaSoup create router error: "@,
            ErrorKind::Request => "MediaSoup request error: "@,
            ErrorKind::Transport => "MediaSoup transport error: "@,
            ErrorKind::Producer => "MediaSoup producer error: "@,
            ErrorKind::Consumer => "MediaSoup consumer error: "@,
            ErrorKind::WebSocket => "WebSocket error: "@,
            ErrorKind::Json => "JSON serialization error: "@,
            ErrorKind::RoomNotFound => "Room not found: "@,
            ErrorKind::PeerNotFound => "Peer not found: "@,
            ErrorKind::TransportNotFound => "Transport not found: "@,
            ErrorKind::ProducerNotFound => "Producer not found: "@,
            ErrorKind::ConsumerNotFound => "Consumer not found: "@,
            ErrorKind::InvalidRequest => "Invalid request: "@,
            ErrorKind::Config => "Configuration error: "@,
        }
    }

    fn prefix_text(self) -> (r: &'static str)
        ensures
            r@ == self.prefix(),
    {
        match self {
            ErrorKind::Io => "MediaSoup I/O error: ",
            ErrorKind::CreateRouter => "MediaSoup create router error: ",
            ErrorKind::Request => "MediaSoup request error: ",
            ErrorKind::Transport => "MediaSoup transport error: ",
            ErrorKind::Producer => "MediaSoup producer error: ",
            ErrorKind::Consumer => "MediaSoup consumer error: ",
            ErrorKind::WebSocket => "WebSocket error: ",
            ErrorKind::Json => "JSON serialization error: ",
            ErrorKind::RoomNotFound => "Room not found: ",
            ErrorKind::PeerNotFound => "Peer not found: ",
            ErrorKind::TransportNotFound => "Transport not found: ",
            ErrorKind::ProducerNotFound => "Producer not found: ",
            ErrorKind::ConsumerNotFound => "Consumer not found: ",
            ErrorKind::InvalidRequest => "Invalid request: ",
            ErrorKind::Config => "Configuration error: ",
        }
    }
}

/// An error of the gateway. Each variant carries its detail: the text of the failure that
/// the media engine, the socket or the decoder reported, or the identifier that was not
/// found.
#[derive(Debug, PartialEq)]
pub enum MediaSoupError {
    Io(String),
    CreateRouter(String),
    Request(String),
    Transport(String),
    Producer(String),
    Consumer(String),
    WebSocket(String),
    Json(String),
    RoomNotFound(String),
    PeerNotFound(String),
    TransportNotFound(String),
    ProducerNotFound(String),
    ConsumerNotFound(String),
    InvalidRequest(String),
    Config(String),
}

/// An error as mathematical data.
pub struct ErrorView {
    pub kind: ErrorKind,
    pub detail: Seq<char>,
}

impl ErrorView {
    /// The text shown for the error: the kind's words, then the detail.
    pub open spec fn message(self) -> Seq<char> {
        self.kind.prefix() + self.detail
    }
}

impl View for MediaSoupError {
    type V = ErrorView;

    open spec fn view(&self) -> ErrorView {
        match self {
            MediaSoupError::Io(d) => ErrorView { kind: ErrorKind::Io, detail: d@ },
            MediaSoupError::CreateRouter(d) => ErrorView {
                kind: ErrorKind::CreateRouter,
                detail: d@,
            },
            MediaSoupError::Request(d) => ErrorView { kind: ErrorKind::Request, detail: d@ },
            MediaSoupError::Transport(d) => ErrorView { kind: ErrorKind::Transport, detail: d@ },
            MediaSoupError::Producer(d) => ErrorView { kind: ErrorKind::Producer, detail: d@ },
            MediaSoupError::Consumer(d) => ErrorView { kind: ErrorKind::Consumer, detail: d@ },
            MediaSoupError::WebSocket(d) => ErrorView { kind: ErrorKind::WebSocket, detail: d@ },
            MediaSoupError::Json(d) => ErrorView { kind: ErrorKind::Json, detail: d@ },
            MediaSoupError::RoomNotFound(d) => ErrorView {
                kind: ErrorKind::RoomNotFound,
                detail: d@,
            },
            MediaSoupError::PeerNotFound(d) => ErrorView {
                kind: ErrorKind::PeerNotFound,
                detail: d@,
            },
            MediaSoupError::TransportNotFound(d) => ErrorView {
                kind: ErrorKind::TransportNotFound,
                detail: d@,
            },
            MediaSoupError::ProducerNotFound(d) => ErrorView {
                kind: ErrorKind::ProducerNotFound,
                detail: d@,
            },
            MediaSoupError::ConsumerNotFound(d) => ErrorView {
                kind: ErrorKind::ConsumerNotFound,
                detail: d@,
            },
            MediaSoupError::InvalidRequest(d) => ErrorView {
                kind: ErrorKind::InvalidRequest,
                detail: d@,
            },
            MediaSoupError::Config(d) => ErrorView { kind: ErrorKind::Config, detail: d@ },
        }
    }
}

/// The view of the error of kind `kind` whose detail is `detail`.
pub open spec fn error_view(kind: ErrorKind, detail: Seq<char>) -> ErrorView {
    ErrorView { kind, detail }
}

impl MediaSoupError {
    /// The error of kind `kind` with the detail `detail`.
    pub fn of(kind: ErrorKind, detail: String) -> (r: MediaSoupError)
        ensures
            r@ == error_view(kind, detail@),
    {
        match kind {
            ErrorKind::Io => MediaSoupError::Io(detail),
            ErrorKind::CreateRouter => MediaSoupError::CreateRouter(detail),
            ErrorKind::Request => MediaSoupError::Request(detail),
            ErrorKind::Transport => MediaSoupError::Transport(detail),
            ErrorKind::Producer => MediaSoupError::Producer(detail),
            ErrorKind::Consumer => MediaSoupError::Consumer(detail),
            ErrorKind::WebSocket => MediaSoupError::WebSocket(detail),
            ErrorKind::Json => MediaSoupError::Json(detail),
            ErrorKind::RoomNotFound => MediaSoupError::RoomNotFound(detail),
            ErrorKind::PeerNotFound => MediaSoupError::PeerNotFound(detail),
            ErrorKind::TransportNotFound => MediaSoupError::TransportNotFound(detail),
            ErrorKind::ProducerNotFound => MediaSoupError::ProducerNotFound(detail),
            ErrorKind::ConsumerNotFound => MediaSoupError::ConsumerNotFound(detail),
            ErrorKind::InvalidRequest => MediaSoupError::InvalidRequest(detail),
            ErrorKind::Config => MediaSoupError::Config(detail),
        }
    }

    /// The kind of the error.
    pub fn kind(&self) -> (r: ErrorKind)
        ensures
            r == self@.kind,
    {
        match self {
            MediaSoupError::Io(_) => ErrorKind::Io,
            MediaSoupError::CreateRouter(_) => ErrorKind::CreateRouter,
            MediaSoupError::Request(_) => ErrorKind::Request,
            MediaSoupError::Transport(_) => ErrorKind::Transport,
            MediaSoupError::Producer(_) => ErrorKind::Producer,
            MediaSoupError::Consumer(_) => ErrorKind::Consumer,
            MediaSoupError::WebSocket(_) => ErrorKind::WebSocket,
            MediaSoupError::Json(_) => ErrorKind::Json,
            MediaSoupError::RoomNotFound(_) => ErrorKind::RoomNotFound,
            MediaSoupError::PeerNotFound(_) => ErrorKind::PeerNotFound,
            MediaSoupError::TransportNotFound(_) => ErrorKind::TransportNotFound,
            MediaSoupError::ProducerNotFound(_) => ErrorKind::ProducerNotFound,
            MediaSoupError::ConsumerNotFound(_) => ErrorKind::ConsumerNotFound,
            MediaSoupError::InvalidRequest(_) => ErrorKind::InvalidRequest,
            MediaSoupError::Config(_) => ErrorKind::Config,
        }
    }

    /// The detail that the error carries.
    pub fn detail(&self) -> (r: &str)
        ensures
            r@ == self@.detail,
    {
        match self {
            MediaSoupError::Io(d) => d.as_str(),
            MediaSoupError::CreateRouter(d) => d.as_str(),
            MediaSoupError::Request(d) => d.as_str(),
            MediaSoupError::Transport(d) => d.as_str(),
            MediaSoupError::Producer(d) => d.as_str(),
            MediaSoupError::Consumer(d) => d.as_str(),
            MediaSoupError::WebSocket(d) => d.as_str(),
            MediaSoupError::Json(d) => d.as_str(),
            MediaSoupError::RoomNotFound(d) => d.as_str(),
            MediaSoupError::PeerNotFound(d) => d.as_str(),
            MediaSoupError::TransportNotFound(d) => d.as_str(),
            MediaSoupError::ProducerNotFound(d) => d.as_str(),
            MediaSoupError::ConsumerNotFound(d) => d.as_str(),
            MediaSoupError::InvalidRequest(d) => d.as_str(),
            MediaSoupError::Config(d) => d.as_str(),
        }
    }

    /// The text shown for the error, such as `Peer not found: ` followed by the peer's
    /// identifier.
    pub fn message(&self) -> (r: String)
        ensures
            r@ == self@.message(),
    {
        join(self.kind().prefix_text(), self.detail())
    }
}

} // verus!
