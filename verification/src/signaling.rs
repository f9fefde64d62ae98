use crate::error::{error_view, ErrorKind, ErrorView, MediaSoupError};
use crate::ident::fresh_id;
use crate::json::{
    clone_opt_value, lemma_lookup_at, members_view, opt_value, push_member, Value, ValueView,
};
use crate::text::{clone_opt_text, opt_text, str_eq};
use vstd::prelude::*;

verus! {

/// A frame of the signaling protocol. With an `id` it is a request, which is owed one
/// response; without one it is a notification.
#[derive(Debug, PartialEq)]
pub struct SignalingMessage {
    pub id: Option<String>,
    pub method: String,
    pub data: Option<Value>,
}

/// A signaling message as mathematical data.
pub struct MessageView {
    pub id: Option<Seq<char>>,
    pub method: Seq<char>,
    pub data: Option<ValueView>,
}

/// The value that stands on the wire for an optional string: the string, or `null`.
pub open spec fn text_or_null(o: Option<Seq<char>>) -> ValueView {
    match o {
        Some(s) => ValueView::String(s),
        None => ValueView::Null,
    }
}

/// The value that stands on the wire for an optional value: the value, or `null`.
pub open spec fn value_or_null(o: Option<ValueView>) -> ValueView {
    match o {
        Some(v) => v,
        None => ValueView::Null,
    }
}

impl MessageView {
    /// A message with an identifier is a request.
    pub open spec fn is_request(self) -> bool {
        self.id is Some
    }

    /// The object that carries the message on the wire: the members `id`, `method` and
    /// `data`, with `null` for what the message does not have.
    pub open spec fn frame(self) -> ValueView {
        ValueView::Object(
            seq![
                ("id"@, text_or_null(self.id)),
                ("method"@, ValueView::String(self.method)),
                ("data"@, value_or_null(self.data)),
            ],
        )
    }
}

/// The message that a frame carries. The frame is an object whose member `method` is a
/// string; `id` is a string, `null` or absent; `data` is any value, `null` or absent. Other
/// members are ignored.
pub open spec fn decode_frame(v: ValueView) -> Result<MessageView, ErrorView> {
    match v.text_member("method"@) {
        None => Err(error_view(ErrorKind::Json, "missing field `method`"@)),
        Some(method) => match v.present_member("id"@) {
            None => Ok(MessageView { id: None, method, data: v.present_member("data"@) }),
            Some(ValueView::String(id)) => Ok(
                MessageView { id: Some(id), method, data: v.present_member("data"@) },
            ),
            Some(_) => Err(error_view(ErrorKind::Json, "invalid type for field `id`"@)),
        },
    }
}

impl View for SignalingMessage {
    type V = MessageView;

    open spec fn view(&self) -> MessageView {
        MessageView { id: opt_text(self.id), method: self.method@, data: opt_value(self.data) }
    }
}

impl Clone for SignalingMessage {
    fn clone(&self) -> (r: SignalingMessage)
        ensures
            r@ == self@,
    {
        SignalingMessage {
            id: clone_opt_text(&self.id),
            method: self.method.clone(),
            data: clone_opt_value(&self.data),
        }
    }
}

/// A request: a message that has an identifier.
#[derive(Debug, PartialEq)]
pub struct SignalingRequest {
    pub id: String,
    pub method: String,
    pub data: Option<Value>,
}

/// What a handler hands back for a request: the payload, or the text of the error.
#[derive(Debug, PartialEq)]
pub struct SignalingResponse {
    pub id: String,
    pub response: Option<Value>,
    pub error: Option<String>,
}

/// A message that asks for no response.
#[derive(Debug, PartialEq)]
pub struct SignalingNotification {
    pub method: String,
    pub data: Option<Value>,
}

/// The object `{"error": text}`.
pub open spec fn error_payload(text: Seq<char>) -> ValueView {
    ValueView::Object(seq![("error"@, ValueView::String(text))])
}

/// The frame that answers the request `id`: its method is `response`; its data is the
/// error object where there is an error, and the payload otherwise.
pub open spec fn response_frame(
    id: Seq<char>,
    response: Option<ValueView>,
    error: Option<Seq<char>>,
) -> MessageView {
    MessageView {
        id: Some(id),
        method: "response"@,
        data: match error {
            Some(text) => Some(error_payload(text)),
            None => response,
        },
    }
}

impl SignalingResponse {
    /// The frame that carries this response.
    pub fn into_message(self) -> (r: SignalingMessage)
        ensures
            r@ == response_frame(self.id@, opt_value(self.response), opt_text(self.error)),
    {
        let data = match self.error {
            Some(text) => {
                let mut members: Vec<(String, Value)> = Vec::new();
                push_member(&mut members, "error", Value::String(text));
                assert(members_view(members@) =~= seq![("error"@, ValueView::String(text@))]);
                Some(Value::object(members))
            },
            None => self.response,
        };
        SignalingMessage { id: Some(self.id), method: "response".to_owned(), data }
    }
}

impl SignalingMessage {
    /// A new request: the identifier is fresh.
    pub fn request(method: String, data: Option<Value>) -> (r: SignalingMessage)
        ensures
            r@.id is Some,
            r@.id->Some_0.len() == 36,
            r@.method == method@,
            r@.data == opt_value(data),
    {
        SignalingMessage { id: Some(fresh_id()), method, data }
    }

    /// A new notification.
    pub fn notification(method: String, data: Option<Value>) -> (r: SignalingMessage)
        ensures
            r@ == (MessageView { id: None, method: method@, data: opt_value(data) }),
    {
        SignalingMessage { id: None, method, data }
    }

    /// The response to this message. A notification has no identifier to answer to: the
    /// response then carries the empty one.
    pub fn to_response(&self, response: Option<Value>, error: Option<String>) -> (r:
        SignalingResponse)
        ensures
            r.id@ == (match self@.id {
                Some(id) => id,
                None => Seq::empty(),
            }),
            opt_value(r.response) == opt_value(response),
            opt_text(r.error) == opt_text(error),
    {
        let id = match &self.id {
            Some(id) => id.clone(),
            None => String::new(),
        };
        SignalingResponse { id, response, error }
    }

    /// True for a message that has an identifier.
    pub fn is_request(&self) -> (r: bool)
        ensures
            r == self@.is_request(),
    {
        self.id.is_some()
    }

    /// True for a message that has no identifier.
    pub fn is_notification(&self) -> (r: bool)
        ensures
            r == !self@.is_request(),
    {
        self.id.is_none()
    }

    /// The object that carries the message on the wire.
    pub fn to_value(&self) -> (r: Value)
        ensures
            r@ == self@.frame(),
    {
        let id = match &self.id {
            Some(id) => Value::String(id.clone()),
            None => Value::Null,
        };
        let data = match &self.data {
            Some(data) => data.clone(),
            None => Value::Null,
        };
        let mut members: Vec<(String, Value)> = Vec::new();
        push_member(&mut members, "id", id);
        push_member(&mut members, "method", Value::String(self.method.clone()));
        push_member(&mut members, "data", data);
        assert(members_view(members@) =~= seq![
            ("id"@, text_or_null(self@.id)),
            ("method"@, ValueView::String(self@.method)),
            ("data"@, value_or_null(self@.data)),
        ]);
        Value::object(members)
    }

    /// The message that the wire object `v` carries, or why it carries none.
    pub fn from_value(v: &Value) -> (r: Result<SignalingMessage, MediaSoupError>)
        ensures
            match r {
                Ok(m) => decode_frame(v@) == Ok::<MessageView, ErrorView>(m@),
                Err(e) => decode_frame(v@) == Err::<MessageView, ErrorView>(e@),
            },
    {
        let method = match v.get_text("method") {
            Some(method) => method.to_owned(),
            None => {
                return Err(MediaSoupError::Json("missing field `method`".to_owned()));
            },
        };
        let id = match v.get_present("id") {
            None => None,
            Some(Value::String(id)) => Some(id.clone()),
            Some(_) => {
                return Err(MediaSoupError::Json("invalid type for field `id`".to_owned()));
            },
        };
        let data = match v.get_present("data") {
            Some(data) => Some(data.clone()),
            None => None,
        };
        Ok(SignalingMessage { id, method, data })
    }
}

/// The methods that a client may call.
#[derive(Clone, Copy, Debug, PartialEq, Eq, Structural)]
pub enum SignalingMethod {
    GetRouterRtpCapabilities,
    CreateWebRtcTransport,
    ConnectTransport,
    Produce,
    Consume,
    PauseProducer,
    ResumeProducer,
}

impl SignalingMethod {
    /// The name of the method on the wire.
    pub open spec fn wire_name(self) -> Seq<char> {
        match self {
            SignalingMethod::GetRouterRtpCapabilities => "getRouterRtpCapabilities"@,
            SignalingMethod::CreateWebRtcTransport => "createWebRtcTransport"@,
            SignalingMethod::ConnectTransport => "connectTransport"@,
            SignalingMethod::Produce => "produce"@,
            SignalingMethod::Consume => "consume"@,
            SignalingMethod::PauseProducer => "pauseProducer"@,
            SignalingMethod::ResumeProducer => "resumeProducer"@,
        }
    }

    /// The method that the wire name `name` stands for.
    pub open spec fn named(name: Seq<char>) -> Option<SignalingMethod> {
        if name == "getRouterRtpCapabilities"@ {
            Some(SignalingMethod::GetRouterRtpCapabilities)
        } else if name == "createWebRtcTransport"@ {
            Some(SignalingMethod::CreateWebRtcTransport)
        } else if name == "connectTransport"@ {
            Some(SignalingMethod::ConnectTransport)
        } else if name == "produce"@ {
            Some(SignalingMethod::Produce)
        } else if name == "consume"@ {
            Some(SignalingMethod::Consume)
        } else if name == "pauseProducer"@ {
            Some(SignalingMethod::PauseProducer)
        } else if name == "resumeProducer"@ {
            Some(SignalingMethod::ResumeProducer)
        } else {
            None
        }
    }

    /// The name of the method on the wire.
    pub fn name(&self) -> (r: &'static str)
        ensures
            r@ == self.wire_name(),
    {
        match self {
            SignalingMethod::GetRouterRtpCapabilities => "getRouterRtpCapabilities",
            SignalingMethod::CreateWebRtcTransport => "createWebRtcTransport",
            SignalingMethod::ConnectTransport => "connectTransport",
            SignalingMethod::Produce => "produce",
            SignalingMethod::Consume => "consume",
            SignalingMethod::PauseProducer => "pauseProducer",
            SignalingMethod::ResumeProducer => "resumeProducer",
        }
    }

    /// The method that the wire name `name` stands for; nothing for an unknown name.
    pub fn parse(name: &str) -> (r: Option<SignalingMethod>)
        ensures
            r == Self::named(name@),
    {
        if str_eq(name, "getRouterRtpCapabilities") {
            Some(SignalingMethod::GetRouterRtpCapabilities)
        } else if str_eq(name, "createWebRtcTransport") {
            Some(SignalingMethod::CreateWebRtcTransport)
        } else if str_eq(name, "connectTransport") {
            Some(SignalingMethod::ConnectTransport)
        } else if str_eq(name, "produce") {
            Some(SignalingMethod::Produce)
        } else if str_eq(name, "consume") {
            Some(SignalingMethod::Consume)
        } else if str_eq(name, "pauseProducer") {
            Some(SignalingMethod::PauseProducer)
        } else if str_eq(name, "resumeProducer") {
            Some(SignalingMethod::ResumeProducer)
        } else {
            None
        }
    }
}

/// Every method is found again by its wire name.
pub proof fn law_method_names(m: SignalingMethod)
    ensures
        SignalingMethod::named(m.wire_name()) == Some(m),
{
    reveal_strlit("getRouterRtpCapabilities");
    reveal_strlit("createWebRtcTransport");
    reveal_strlit("connectTransport");
    reveal_strlit("produce");
    reveal_strlit("consume");
    reveal_strlit("pauseProducer");
    reveal_strlit("resumeProducer");
    assert("getRouterRtpCapabilities"@.len() == 24);
    assert("createWebRtcTransport"@.len() == 21);
    assert("connectTransport"@.len() == 16);
    assert("produce"@.len() == 7);
    assert("consume"@.len() == 7);
    assert("pauseProducer"@.len() == 13);
    assert("resumeProducer"@.len() == 14);
    assert("produce"@[0] == 'p');
    assert("consume"@[0] == 'c');
}

/// The three keys of a frame differ from one another.
proof fn lemma_frame_keys()
    ensures
        "id"@ != "method"@,
        "id"@ != "data"@,
        "method"@ != "data"@,
{
    reveal_strlit("id");
    reveal_strlit("method");
    reveal_strlit("data");
    assert("id"@.len() == 2);
    assert("method"@.len() == 6);
    assert("data"@.len() == 4);
}

/// Decoding the frame of a message gives the message back: the same identifier, method
/// and data. A message whose data is `null` itself is left out: on the wire `null` stands
/// for no data.
pub proof fn law_frame_round_trip(m: MessageView)
    requires
        m.data != Some(ValueView::Null),
    ensures
        decode_frame(m.frame()) == Ok::<MessageView, ErrorView>(m),
{
    lemma_frame_keys();
    let members = m.frame()->Object_0;
    lemma_lookup_at(members, "id"@, 0);
    lemma_lookup_at(members, "method"@, 1);
    lemma_lookup_at(members, "data"@, 2);
}

/// A frame decodes to a notification exactly when its `id` is `null` or absent, and to a
/// request exactly when it has one.
pub proof fn law_request_has_id(v: ValueView, m: MessageView)
    requires
        decode_frame(v) == Ok::<MessageView, ErrorView>(m),
    ensures
        m.is_request() <==> v.present_member("id"@) is Some,
        !m.is_request() <==> (v.member("id"@) is None || v.member("id"@) == Some(
            ValueView::Null,
        )),
{
}

} // verus!
