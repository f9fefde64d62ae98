use crate::json::{opt_value, Value, ValueView};
use crate::text::{opt_text, str_eq};
use vstd::prelude::*;

verus! {

/// The kind of a media stream.
#[derive(Clone, Copy, Debug, PartialEq, Eq, Structural)]
pub enum MediaKind {
    Audio,
    Video,
}

impl MediaKind {
    /// The kind that a client names: `audio` or `video`.
    pub open spec fn named(name: Seq<char>) -> Option<MediaKind> {
        if name == "audio"@ {
            Some(MediaKind::Audio)
        } else if name == "video"@ {
            Some(MediaKind::Video)
        } else {
            None
        }
    }

    /// The word that stands for the kind in notifications and responses.
    pub open spec fn label(self) -> Seq<char> {
        match self {
            MediaKind::Audio => "Audio"@,
            MediaKind::Video => "Video"@,
        }
    }

    /// The kind that a client names; nothing for any other word than `audio` and `video`.
    pub fn parse(name: &str) -> (r: Option<MediaKind>)
        ensures
            r == Self::named(name@),
    {
        if str_eq(name, "audio") {
            Some(MediaKind::Audio)
        } else if str_eq(name, "video") {
            Some(MediaKind::Video)
        } else {
            None
        }
    }

    /// The word that stands for the kind in notifications and responses.
    pub fn debug_name(&self) -> (r: &'static str)
        ensures
            r@ == self.label(),
    {
        match self {
            MediaKind::Audio => "Audio",
            MediaKind::Video => "Video",
        }
    }
}

/// A failure of a call into the media engine.
#[derive(Debug, PartialEq)]
pub enum EngineFailure {
    /// The parameters that the client sent are not what the engine's call takes.
    Malformed(String),
    /// The engine refused or failed the call.
    Failed(String),
}

/// A worker of the media engine, known by its handle.
#[derive(Clone, Copy, Debug, PartialEq, Eq, Structural)]
pub struct Worker {
    pub handle: u64,
}

/// A router of the media engine: its handle and its capability set, which is fixed when
/// the router is made.
#[derive(Debug, PartialEq)]
pub struct Router {
    pub handle: u64,
    pub rtp_capabilities: Value,
}

/// A router as mathematical data.
pub struct RouterView {
    pub handle: u64,
    pub rtp_capabilities: ValueView,
}

impl View for Router {
    type V = RouterView;

    open spec fn view(&self) -> RouterView {
        RouterView { handle: self.handle, rtp_capabilities: self.rtp_capabilities@ }
    }
}

/// A transport that the engine has made: its handle, its identifier and the parameters that
/// the client needs to connect to it.
#[derive(Debug, PartialEq)]
pub struct WebRtcTransport {
    pub handle: u64,
    pub id: String,
    pub ice_parameters: Value,
    pub ice_candidates: Value,
    pub dtls_parameters: Value,
    pub sctp_parameters: Option<Value>,
}

/// A transport as mathematical data.
pub struct WebRtcTransportView {
    pub handle: u64,
    pub id: Seq<char>,
    pub ice_parameters: ValueView,
    pub ice_candidates: ValueView,
    pub dtls_parameters: ValueView,
    pub sctp_parameters: Option<ValueView>,
}

impl View for WebRtcTransport {
    type V = WebRtcTransportView;

    open spec fn view(&self) -> WebRtcTransportView {
        WebRtcTransportView {
            handle: self.handle,
            id: self.id@,
            ice_parameters: self.ice_parameters@,
            ice_candidates: self.ice_candidates@,
            dtls_parameters: self.dtls_parameters@,
            sctp_parameters: opt_value(self.sctp_parameters),
        }
    }
}

/// A producer that the engine has made.
#[derive(Debug, PartialEq)]
pub struct Producer {
    pub handle: u64,
    pub id: String,
    pub kind: MediaKind,
}

/// A producer as mathematical data.
pub struct ProducerView {
    pub handle: u64,
    pub id: Seq<char>,
    pub kind: MediaKind,
}

impl View for Producer {
    type V = ProducerView;

    open spec fn view(&self) -> ProducerView {
        ProducerView { handle: self.handle, id: self.id@, kind: self.kind }
    }
}

/// A consumer that the engine has made.
#[derive(Debug, PartialEq)]
pub struct Consumer {
    pub handle: u64,
    pub id: String,
    pub kind: MediaKind,
    pub rtp_parameters: Value,
}

/// A consumer as mathematical data.
pub struct ConsumerView {
    pub handle: u64,
    pub id: Seq<char>,
    pub kind: MediaKind,
    pub rtp_parameters: ValueView,
}

impl View for Consumer {
    type V = ConsumerView;

    open spec fn view(&self) -> ConsumerView {
        ConsumerView {
            handle: self.handle,
            id: self.id@,
            kind: self.kind,
            rtp_parameters: self.rtp_parameters@,
        }
    }
}

/// The address on which a transport listens. The protocol is UDP and the engine picks the
/// port.
#[derive(Debug, PartialEq)]
pub struct ListenInfo {
    pub ip: String,
    pub announced_address: Option<String>,
}

/// A listen address as mathematical data.
pub struct ListenInfoView {
    pub ip: Seq<char>,
    pub announced_address: Option<Seq<char>>,
}

impl View for ListenInfo {
    type V = ListenInfoView;

    open spec fn view(&self) -> ListenInfoView {
        ListenInfoView { ip: self.ip@, announced_address: opt_text(self.announced_address) }
    }
}

/// What the engine is asked for when a transport is made.
#[derive(Debug, PartialEq)]
pub struct WebRtcTransportOptions {
    pub router: u64,
    pub listen_info: ListenInfo,
    pub enable_udp: bool,
    pub enable_tcp: bool,
    pub prefer_udp: bool,
    pub enable_sctp: bool,
}

/// The options of a transport as mathematical data.
pub struct WebRtcTransportOptionsView {
    pub router: u64,
    pub listen_info: ListenInfoView,
    pub enable_udp: bool,
    pub enable_tcp: bool,
    pub prefer_udp: bool,
    pub enable_sctp: bool,
}

impl View for WebRtcTransportOptions {
    type V = WebRtcTransportOptionsView;

    open spec fn view(&self) -> WebRtcTransportOptionsView {
        WebRtcTransportOptionsView {
            router: self.router,
            listen_info: self.listen_info@,
            enable_udp: self.enable_udp,
            enable_tcp: self.enable_tcp,
            prefer_udp: self.prefer_udp,
            enable_sctp: self.enable_sctp,
        }
    }
}

/// What the engine is asked for when a producer is made on the transport `transport`.
#[derive(Debug, PartialEq)]
pub struct ProducerOptions {
    pub transport: u64,
    pub kind: MediaKind,
    pub rtp_parameters: Value,
    pub app_data: Option<Value>,
}

/// The options of a producer as mathematical data.
pub struct ProducerOptionsView {
    pub transport: u64,
    pub kind: MediaKind,
    pub rtp_parameters: ValueView,
    pub app_data: Option<ValueView>,
}

impl View for ProducerOptions {
    type V = ProducerOptionsView;

    open spec fn view(&self) -> ProducerOptionsView {
        ProducerOptionsView {
            transport: self.transport,
            kind: self.kind,
            rtp_parameters: self.rtp_parameters@,
            app_data: opt_value(self.app_data),
        }
    }
}

/// What the engine is asked for when a consumer of the producer `producer_id` is made on
/// the transport `transport`.
#[derive(Debug, PartialEq)]
pub struct ConsumerOptions {
    pub transport: u64,
    pub producer_id: String,
    pub rtp_capabilities: Value,
}

/// The options of a consumer as mathematical data.
pub struct ConsumerOptionsView {
    pub transport: u64,
    pub producer_id: Seq<char>,
    pub rtp_capabilities: ValueView,
}

impl View for ConsumerOptions {
    type V = ConsumerOptionsView;

    open spec fn view(&self) -> ConsumerOptionsView {
        ConsumerOptionsView {
            transport: self.transport,
            producer_id: self.producer_id@,
            rtp_capabilities: self.rtp_capabilities@,
        }
    }
}

/// A call into the media engine that a request needs.
#[derive(Debug, PartialEq)]
pub enum EngineCall {
    CreateWebRtcTransport(WebRtcTransportOptions),
    ConnectTransport { transport: u64, dtls_parameters: Value },
    Produce(ProducerOptions),
    CanConsume { router: u64, transport_id: String, producer_id: String, rtp_capabilities: Value },
    Consume(ConsumerOptions),
    PauseProducer { producer: u64 },
    ResumeProducer { producer: u64 },
}

/// A call into the engine as mathematical data.
pub enum EngineCallView {
    CreateWebRtcTransport(WebRtcTransportOptionsView),
    ConnectTransport { transport: u64, dtls_parameters: ValueView },
    Produce(ProducerOptionsView),
    CanConsume {
        router: u64,
        transport_id: Seq<char>,
        producer_id: Seq<char>,
        rtp_capabilities: ValueView,
    },
    Consume(ConsumerOptionsView),
    PauseProducer { producer: u64 },
    ResumeProducer { producer: u64 },
}

impl View for EngineCall {
    type V = EngineCallView;

    open spec fn view(&self) -> EngineCallView {
        match self {
            EngineCall::CreateWebRtcTransport(o) => EngineCallView::CreateWebRtcTransport(o@),
            EngineCall::ConnectTransport { transport, dtls_parameters } => {
                EngineCallView::ConnectTransport {
                    transport: *transport,
                    dtls_parameters: dtls_parameters@,
                }
            },
            EngineCall::Produce(o) => EngineCallView::Produce(o@),
            EngineCall::CanConsume { router, transport_id, producer_id, rtp_capabilities } => {
                EngineCallView::CanConsume {
                    router: *router,
                    transport_id: transport_id@,
                    producer_id: producer_id@,
                    rtp_capabilities: rtp_capabilities@,
                }
            },
            EngineCall::Consume(o) => EngineCallView::Consume(o@),
            EngineCall::PauseProducer { producer } => EngineCallView::PauseProducer {
                producer: *producer,
            },
            EngineCall::ResumeProducer { producer } => EngineCallView::ResumeProducer {
                producer: *producer,
            },
        }
    }
}

/// What the engine answered to a call.
#[derive(Debug, PartialEq)]
pub enum EngineReply {
    TransportCreated(Result<WebRtcTransport, EngineFailure>),
    TransportConnected(Result<(), EngineFailure>),
    Produced(Result<Producer, EngineFailure>),
    CanConsume(Result<bool, EngineFailure>),
    Consumed(Result<Consumer, EngineFailure>),
    ProducerPaused(Result<(), EngineFailure>),
    ProducerResumed(Result<(), EngineFailure>),
}

/// The audio codecs that a router may be made with.
#[derive(Clone, Copy, Debug, PartialEq, Eq, Structural)]
pub enum MimeTypeAudio {
    Opus,
}

/// The video codecs that a router may be made with.
#[derive(Clone, Copy, Debug, PartialEq, Eq, Structural)]
pub enum MimeTypeVideo {
    Vp8,
    Vp9,
    H264,
}

/// The feedback messages that a codec supports.
#[derive(Clone, Copy, Debug, PartialEq, Eq, Structural)]
pub enum RtcpFeedback {
    Nack,
    NackPli,
    CcmFir,
    GoogRemb,
}

/// A codec that a router is made with. Clock rates and channel counts are not zero.
#[derive(Debug, PartialEq)]
#[allow(inconsistent_fields)]
pub enum RtpCodecCapability {
    Audio {
        mime_type: MimeTypeAudio,
        preferred_payload_type: Option<u8>,
        clock_rate: u32,
        channels: u8,
        parameters: Vec<(String, String)>,
        rtcp_feedback: Vec<RtcpFeedback>,
    },
    Video {
        mime_type: MimeTypeVideo,
        preferred_payload_type: Option<u8>,
        clock_rate: u32,
        parameters: Vec<(String, String)>,
        rtcp_feedback: Vec<RtcpFeedback>,
    },
}

/// A codec as mathematical data.
#[allow(inconsistent_fields)]
pub enum RtpCodecCapabilityView {
    Audio {
        mime_type: MimeTypeAudio,
        preferred_payload_type: Option<u8>,
        clock_rate: u32,
        channels: u8,
        parameters: Seq<(Seq<char>, Seq<char>)>,
        rtcp_feedback: Seq<RtcpFeedback>,
    },
    Video {
        mime_type: MimeTypeVideo,
        preferred_payload_type: Option<u8>,
        clock_rate: u32,
        parameters: Seq<(Seq<char>, Seq<char>)>,
        rtcp_feedback: Seq<RtcpFeedback>,
    },
}

/// The names and values of codec parameters.
pub open spec fn parameters_view(p: Seq<(String, String)>) -> Seq<(Seq<char>, Seq<char>)> {
    Seq::new(p.len(), |i: int| (p[i].0@, p[i].1@))
}

impl View for RtpCodecCapability {
    type V = RtpCodecCapabilityView;

    open spec fn view(&self) -> RtpCodecCapabilityView {
        match self {
            RtpCodecCapability::Audio {
                mime_type,
                preferred_payload_type,
                clock_rate,
                channels,
                parameters,
                rtcp_feedback,
            } => RtpCodecCapabilityView::Audio {
                mime_type: *mime_type,
                preferred_payload_type: *preferred_payload_type,
                clock_rate: *clock_rate,
                channels: *channels,
                parameters: parameters_view(parameters@),
                rtcp_feedback: rtcp_feedback@,
            },
            RtpCodecCapability::Video {
                mime_type,
                preferred_payload_type,
                clock_rate,
                parameters,
                rtcp_feedback,
            } => RtpCodecCapabilityView::Video {
                mime_type: *mime_type,
                preferred_payload_type: *preferred_payload_type,
                clock_rate: *clock_rate,
                parameters: parameters_view(parameters@),
                rtcp_feedback: rtcp_feedback@,
            },
        }
    }
}

impl RtpCodecCapabilityView {
    /// The clock rate and, for audio, the channel count are positive.
    pub open spec fn wf(self) -> bool {
        match self {
            RtpCodecCapabilityView::Audio { clock_rate, channels, .. } => clock_rate > 0
                && channels > 0,
            RtpCodecCapabilityView::Video { clock_rate, .. } => clock_rate > 0,
        }
    }
}

/// The views of a list of codecs.
pub open spec fn codecs_view(codecs: Seq<RtpCodecCapability>) -> Seq<RtpCodecCapabilityView> {
    Seq::new(codecs.len(), |i: int| codecs[i]@)
}

/// What the engine is asked for when a router is made on the worker `worker`.
#[derive(Debug, PartialEq)]
pub struct RouterOptions {
    pub worker: u64,
    pub media_codecs: Vec<RtpCodecCapability>,
}

} // verus!
