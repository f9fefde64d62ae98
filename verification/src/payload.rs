use crate::error::{error_view, ErrorKind, ErrorView, MediaSoupError};
use crate::json::{members_view, opt_value, push_member, Value, ValueView};
use crate::signaling::value_or_null;
use crate::text::join;
use vstd::prelude::*;

verus! {

/// The error for a payload that lacks the member `field`, or holds it with another type
/// than the method asks for.
pub open spec fn missing(field: Seq<char>) -> ErrorView {
    error_view(ErrorKind::InvalidRequest, "Missing "@ + field)
}

/// The error for a payload whose optional member `field` has the wrong type.
pub open spec fn invalid(field: Seq<char>) -> ErrorView {
    error_view(ErrorKind::InvalidRequest, "Invalid "@ + field)
}

/// The optional boolean member `key`: absent and `null` stand for none; a value that is no
/// boolean is an error.
pub open spec fn flag_member(v: ValueView, key: Seq<char>) -> Result<Option<bool>, ErrorView> {
    match v.present_member(key) {
        None => Ok(None),
        Some(ValueView::Bool(b)) => Ok(Some(b)),
        Some(_) => Err(invalid(key)),
    }
}

/// The error that reports the missing member `field`.
pub fn missing_field(field: &str) -> (r: MediaSoupError)
    ensures
        r@ == missing(field@),
{
    MediaSoupError::InvalidRequest(join("Missing ", field))
}

/// The string member `key` of a payload.
pub fn required_text(v: &Value, key: &str) -> (r: Result<String, MediaSoupError>)
    ensures
        match r {
            Ok(s) => v@.text_member(key@) == Some(s@),
            Err(e) => v@.text_member(key@) is None && e@ == missing(key@),
        },
{
    match v.get_text(key) {
        Some(s) => Ok(s.to_owned()),
        None => Err(missing_field(key)),
    }
}

/// The member `key` of a payload, whatever its type.
pub fn required_member(v: &Value, key: &str) -> (r: Result<Value, MediaSoupError>)
    ensures
        match r {
            Ok(m) => v@.member(key@) == Some(m@),
            Err(e) => v@.member(key@) is None && e@ == missing(key@),
        },
{
    match v.get(key) {
        Some(m) => Ok(m.clone()),
        None => Err(missing_field(key)),
    }
}

/// The member `key` of a payload unless it is absent or `null`.
pub fn optional_member(v: &Value, key: &str) -> (r: Option<Value>)
    ensures
        opt_value(r) == v@.present_member(key@),
{
    match v.get_present(key) {
        Some(m) => Some(m.clone()),
        None => None,
    }
}

/// The optional boolean member `key` of a payload.
pub fn optional_flag(v: &Value, key: &str) -> (r: Result<Option<bool>, MediaSoupError>)
    ensures
        match r {
            Ok(b) => flag_member(v@, key@) == Ok::<Option<bool>, ErrorView>(b),
            Err(e) => flag_member(v@, key@) == Err::<Option<bool>, ErrorView>(e@),
        },
{
    match v.get_present(key) {
        None => Ok(None),
        Some(Value::Bool(b)) => Ok(Some(*b)),
        Some(_) => Err(MediaSoupError::InvalidRequest(join("Invalid ", key))),
    }
}

/// The payload of `connectTransport`.
#[derive(Debug, PartialEq)]
pub struct ConnectTransportData {
    pub transport_id: String,
    pub dtls_parameters: Value,
}

impl ConnectTransportData {
    /// Why a payload is no `connectTransport` payload: the first member that it lacks.
    pub open spec fn rejection(v: ValueView) -> Option<ErrorView> {
        if v.text_member("transportId"@) is None {
            Some(missing("transportId"@))
        } else if v.member("dtlsParameters"@) is None {
            Some(missing("dtlsParameters"@))
        } else {
            None
        }
    }

    /// Reads the payload: `transportId` is a string, `dtlsParameters` any value.
    pub fn from_value(v: &Value) -> (r: Result<ConnectTransportData, MediaSoupError>)
        ensures
            match r {
                Ok(d) => Self::rejection(v@) is None && v@.text_member("transportId"@) == Some(
                    d.transport_id@,
                ) && v@.member("dtlsParameters"@) == Some(d.dtls_parameters@),
                Err(e) => Self::rejection(v@) == Some(e@),
            },
    {
        let transport_id = required_text(v, "transportId")?;
        let dtls_parameters = required_member(v, "dtlsParameters")?;
        Ok(ConnectTransportData { transport_id, dtls_parameters })
    }
}

/// The payload of `produce`.
#[derive(Debug, PartialEq)]
pub struct ProduceData {
    pub transport_id: String,
    pub kind: String,
    pub rtp_parameters: Value,
    pub app_data: Option<Value>,
}

impl ProduceData {
    /// Why a payload is no `produce` payload: the first member that it lacks.
    pub open spec fn rejection(v: ValueView) -> Option<ErrorView> {
        if v.text_member("transportId"@) is None {
            Some(missing("transportId"@))
        } else if v.text_member("kind"@) is None {
            Some(missing("kind"@))
        } else if v.member("rtpParameters"@) is None {
            Some(missing("rtpParameters"@))
        } else {
            None
        }
    }

    /// Reads the payload: `transportId` and `kind` are strings, `rtpParameters` is any
    /// value, `appData` may be absent or `null`.
    pub fn from_value(v: &Value) -> (r: Result<ProduceData, MediaSoupError>)
        ensures
            match r {
                Ok(d) => Self::rejection(v@) is None && v@.text_member("transportId"@) == Some(
                    d.transport_id@,
                ) && v@.text_member("kind"@) == Some(d.kind@) && v@.member("rtpParameters"@)
                    == Some(d.rtp_parameters@) && v@.present_member("appData"@) == opt_value(
                    d.app_data,
                ),
                Err(e) => Self::rejection(v@) == Some(e@),
            },
    {
        let transport_id = required_text(v, "transportId")?;
        let kind = required_text(v, "kind")?;
        let rtp_parameters = required_member(v, "rtpParameters")?;
        let app_data = optional_member(v, "appData");
        Ok(ProduceData { transport_id, kind, rtp_parameters, app_data })
    }
}

/// The payload of `consume`.
#[derive(Debug, PartialEq)]
pub struct ConsumeData {
    pub transport_id: String,
    pub producer_id: String,
    pub rtp_capabilities: Value,
}

impl ConsumeData {
    /// Why a payload is no `consume` payload: the first member that it lacks.
    pub open spec fn rejection(v: ValueView) -> Option<ErrorView> {
        if v.text_member("transportId"@) is None {
            Some(missing("transportId"@))
        } else if v.text_member("producerId"@) is None {
            Some(missing("producerId"@))
        } else if v.member("rtpCapabilities"@) is None {
            Some(missing("rtpCapabilities"@))
        } else {
            None
        }
    }

    /// Reads the payload: `transportId` and `producerId` are strings, `rtpCapabilities` is
    /// any value.
    pub fn from_value(v: &Value) -> (r: Result<ConsumeData, MediaSoupError>)
        ensures
            match r {
                Ok(d) => Self::rejection(v@) is None && v@.text_member("transportId"@) == Some(
                    d.transport_id@,
                ) && v@.text_member("producerId"@) == Some(d.producer_id@) && v@.member(
                    "rtpCapabilities"@,
                ) == Some(d.rtp_capabilities@),
                Err(e) => Self::rejection(v@) == Some(e@),
            },
    {
        let transport_id = required_text(v, "transportId")?;
        let producer_id = required_text(v, "producerId")?;
        let rtp_capabilities = required_member(v, "rtpCapabilities")?;
        Ok(ConsumeData { transport_id, producer_id, rtp_capabilities })
    }
}

/// The payload of `createWebRtcTransport`. Every member is optional.
#[derive(Debug, PartialEq)]
pub struct CreateWebRtcTransportData {
    pub producing: Option<bool>,
    pub consuming: Option<bool>,
    pub sctp_capabilities: Option<Value>,
}

impl CreateWebRtcTransportData {
    /// Why a payload is no `createWebRtcTransport` payload: the first of `producing` and
    /// `consuming` that is there and is no boolean.
    pub open spec fn rejection(v: ValueView) -> Option<ErrorView> {
        if flag_member(v, "producing"@) is Err {
            Some(invalid("producing"@))
        } else if flag_member(v, "consuming"@) is Err {
            Some(invalid("consuming"@))
        } else {
            None
        }
    }

    /// The payload of a request that came without data: no member is set.
    pub fn absent() -> (r: CreateWebRtcTransportData)
        ensures
            r.producing is None,
            r.consuming is None,
            r.sctp_capabilities is None,
    {
        CreateWebRtcTransportData { producing: None, consuming: None, sctp_capabilities: None }
    }

    /// Reads the payload: `producing` and `consuming` are booleans, `sctpCapabilities` is
    /// any value; each may be absent or `null`.
    pub fn from_value(v: &Value) -> (r: Result<CreateWebRtcTransportData, MediaSoupError>)
        ensures
            match r {
                Ok(d) => Self::rejection(v@) is None && flag_member(v@, "producing"@) == Ok::<
                    Option<bool>,
                    ErrorView,
                >(d.producing) && flag_member(v@, "consuming"@) == Ok::<Option<bool>, ErrorView>(
                    d.consuming,
                ) && v@.present_member("sctpCapabilities"@) == opt_value(d.sctp_capabilities),
                Err(e) => Self::rejection(v@) == Some(e@),
            },
    {
        let producing = optional_flag(v, "producing")?;
        let consuming = optional_flag(v, "consuming")?;
        let sctp_capabilities = optional_member(v, "sctpCapabilities");
        Ok(CreateWebRtcTransportData { producing, consuming, sctp_capabilities })
    }
}

/// The payload of the response to `createWebRtcTransport`.
#[derive(Debug, PartialEq)]
pub struct TransportCreatedResponse {
    pub id: String,
    pub ice_parameters: Value,
    pub ice_candidates: Value,
    pub dtls_parameters: Value,
    pub sctp_parameters: Option<Value>,
}

/// The wire object of a created transport.
pub open spec fn transport_created_payload(
    id: Seq<char>,
    ice_parameters: ValueView,
    ice_candidates: ValueView,
    dtls_parameters: ValueView,
    sctp_parameters: Option<ValueView>,
) -> ValueView {
    ValueView::Object(
        seq![
            ("id"@, ValueView::String(id)),
            ("iceParameters"@, ice_parameters),
            ("iceCandidates"@, ice_candidates),
            ("dtlsParameters"@, dtls_parameters),
            ("sctpParameters"@, value_or_null(sctp_parameters)),
        ],
    )
}

impl TransportCreatedResponse {
    /// The wire object: `id`, `iceParameters`, `iceCandidates`, `dtlsParameters` and
    /// `sctpParameters`, the last one `null` where the transport has none.
    pub fn to_value(&self) -> (r: Value)
        ensures
            r@ == transport_created_payload(
                self.id@,
                self.ice_parameters@,
                self.ice_candidates@,
                self.dtls_parameters@,
                opt_value(self.sctp_parameters),
            ),
    {
        let sctp = match &self.sctp_parameters {
            Some(p) => p.clone(),
            None => Value::Null,
        };
        let mut members: Vec<(String, Value)> = Vec::new();
        push_member(&mut members, "id", Value::String(self.id.clone()));
        push_member(&mut members, "iceParameters", self.ice_parameters.clone());
        push_member(&mut members, "iceCandidates", self.ice_candidates.clone());
        push_member(&mut members, "dtlsParameters", self.dtls_parameters.clone());
        push_member(&mut members, "sctpParameters", sctp);
        assert(members_view(members@) =~= seq![
            ("id"@, ValueView::String(self.id@)),
            ("iceParameters"@, self.ice_parameters@),
            ("iceCandidates"@, self.ice_candidates@),
            ("dtlsParameters"@, self.dtls_parameters@),
            ("sctpParameters"@, value_or_null(opt_value(self.sctp_parameters))),
        ]);
        Value::object(members)
    }
}

/// The payload of the response to `produce`.
#[derive(Debug, PartialEq)]
pub struct ProducedResponse {
    pub id: String,
}

/// The wire object `{"id": id}`.
pub open spec fn produced_payload(id: Seq<char>) -> ValueView {
    ValueView::Object(seq![("id"@, ValueView::String(id))])
}

impl ProducedResponse {
    /// The wire object `{"id": id}`.
    pub fn to_value(&self) -> (r: Value)
        ensures
            r@ == produced_payload(self.id@),
    {
        let mut members: Vec<(String, Value)> = Vec::new();
        push_member(&mut members, "id", Value::String(self.id.clone()));
        assert(members_view(members@) =~= seq![("id"@, ValueView::String(self.id@))]);
        Value::object(members)
    }
}

/// The payload of the response to `consume`.
#[derive(Debug, PartialEq)]
pub struct ConsumedResponse {
    pub id: String,
    pub producer_id: String,
    pub kind: String,
    pub rtp_parameters: Value,
}

/// The wire object of a created consumer.
pub open spec fn consumed_payload(
    id: Seq<char>,
    producer_id: Seq<char>,
    kind: Seq<char>,
    rtp_parameters: ValueView,
) -> ValueView {
    ValueView::Object(
        seq![
            ("id"@, ValueView::String(id)),
            ("producerId"@, ValueView::String(producer_id)),
            ("kind"@, ValueView::String(kind)),
            ("rtpParameters"@, rtp_parameters),
        ],
    )
}

impl ConsumedResponse {
    /// The wire object: `id`, `producerId`, `kind` and `rtpParameters`.
    pub fn to_value(&self) -> (r: Value)
        ensures
            r@ == consumed_payload(self.id@, self.producer_id@, self.kind@, self.rtp_parameters@),
    {
        let mut members: Vec<(String, Value)> = Vec::new();
        push_member(&mut members, "id", Value::String(self.id.clone()));
        push_member(&mut members, "producerId", Value::String(self.producer_id.clone()));
        push_member(&mut members, "kind", Value::String(self.kind.clone()));
        push_member(&mut members, "rtpParameters", self.rtp_parameters.clone());
        assert(members_view(members@) =~= seq![
            ("id"@, ValueView::String(self.id@)),
            ("producerId"@, ValueView::String(self.producer_id@)),
            ("kind"@, ValueView::String(self.kind@)),
            ("rtpParameters"@, self.rtp_parameters@),
        ]);
        Value::object(members)
    }
}

/// The payload of the notification `newProducer`.
#[derive(Debug, PartialEq)]
pub struct NewProducerNotification {
    pub id: String,
    pub user_id: String,
    pub kind: String,
}

/// The wire object `{"id": id, "userId": user_id, "kind": kind}`.
pub open spec fn new_producer_payload(id: Seq<char>, user_id: Seq<char>, kind: Seq<char>) -> ValueView {
    ValueView::Object(
        seq![
            ("id"@, ValueView::String(id)),
            ("userId"@, ValueView::String(user_id)),
            ("kind"@, ValueView::String(kind)),
        ],
    )
}

impl NewProducerNotification {
    /// The wire object: `id`, `userId` and `kind`.
    pub fn to_value(&self) -> (r: Value)
        ensures
            r@ == new_producer_payload(self.id@, self.user_id@, self.kind@),
    {
        let mut members: Vec<(String, Value)> = Vec::new();
        push_member(&mut members, "id", Value::String(self.id.clone()));
        push_member(&mut members, "userId", Value::String(self.user_id.clone()));
        push_member(&mut members, "kind", Value::String(self.kind.clone()));
        assert(members_view(members@) =~= seq![
            ("id"@, ValueView::String(self.id@)),
            ("userId"@, ValueView::String(self.user_id@)),
            ("kind"@, ValueView::String(self.kind@)),
        ]);
        Value::object(members)
    }
}

/// The payload of the notification `producerClosed`.
#[derive(Debug, PartialEq)]
pub struct ProducerClosedNotification {
    pub producer_id: String,
}

/// The wire object `{"producerId": producer_id}`.
pub open spec fn producer_closed_payload(producer_id: Seq<char>) -> ValueView {
    ValueView::Object(seq![("producerId"@, ValueView::String(producer_id))])
}

impl ProducerClosedNotification {
    /// The wire object `{"producerId": producer_id}`.
    pub fn to_value(&self) -> (r: Value)
        ensures
            r@ == producer_closed_payload(self.producer_id@),
    {
        let mut members: Vec<(String, Value)> = Vec::new();
        push_member(&mut members, "producerId", Value::String(self.producer_id.clone()));
        assert(members_view(members@) =~= seq![
            ("producerId"@, ValueView::String(self.producer_id@)),
        ]);
        Value::object(members)
    }
}

} // verus!
