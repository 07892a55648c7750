//! The connection channel: it opens and closes the logical connection to a
//! destination, which every other channel needs before it may talk to it.

use crate::errors::{outcome, ChannelError, ChannelErrorView};
use crate::json::{decode, encode, json_decoding, json_encoding, json_of, member, Json};
use crate::message::{CastMessage, CastMessagePayload, CastMessageView, PayloadView};
use crate::proxies::{
    lemma_request_members, request_json, ConnectionRequest, FIELD_TYPE, FIELD_USER_AGENT,
};
use vstd::prelude::*;

verus! {

/// The namespace that the connection channel owns.
pub const CHANNEL_NAMESPACE: &'static str = "urn:x-cast:com.google.cast.tp.connection";

/// The name under which this client presents itself in every request.
pub const CHANNEL_USER_AGENT: &'static str = "RustCast";

/// The kind of the message that opens a connection.
pub const MESSAGE_TYPE_CONNECT: &'static str = "CONNECT";

/// The kind of the message that closes a connection.
pub const MESSAGE_TYPE_CLOSE: &'static str = "CLOSE";

/// What an envelope on the connection namespace says.
#[derive(Debug, PartialEq, Eq)]
pub enum ConnectionResponse {
    Connect,
    Close,
    /// A message of a kind that this channel does not know: the kind as it
    /// was written, empty where the message names none, and the whole
    /// document.
    NotImplemented(String, serde_json::Value),
}

/// The model of a [`ConnectionResponse`].
pub enum ConnectionResponseView {
    Connect,
    Close,
    NotImplemented(Seq<char>, Json),
}

impl View for ConnectionResponse {
    type V = ConnectionResponseView;

    open spec fn view(&self) -> ConnectionResponseView {
        match *self {
            ConnectionResponse::Connect => ConnectionResponseView::Connect,
            ConnectionResponse::Close => ConnectionResponseView::Close,
            ConnectionResponse::NotImplemented(kind, reply) => ConnectionResponseView::NotImplemented(
                kind@,
                json_of(reply),
            ),
        }
    }
}

/// The kind that a document names: the string under its member `type`. It is
/// empty where the document is no object, has no such member, or holds
/// something other than a string there.
pub open spec fn message_type_of(reply: Json) -> Seq<char> {
    match reply {
        Json::Object(members) => if members.contains_key(FIELD_TYPE@) {
            match members[FIELD_TYPE@] {
                Json::String(kind) => kind,
                _ => Seq::empty(),
            }
        } else {
            Seq::empty()
        },
        _ => Seq::empty(),
    }
}

/// The response that a document of a given kind stands for. The kind is
/// matched letter for letter.
pub open spec fn response_of(kind: Seq<char>, reply: Json) -> ConnectionResponseView {
    if kind == MESSAGE_TYPE_CONNECT@ {
        ConnectionResponseView::Connect
    } else if kind == MESSAGE_TYPE_CLOSE@ {
        ConnectionResponseView::Close
    } else {
        ConnectionResponseView::NotImplemented(kind, reply)
    }
}

impl ConnectionResponse {
    /// Reads the kind that a document names.
    pub fn message_type(reply: &serde_json::Value) -> (kind: String)
        ensures
            kind@ == message_type_of(json_of(*reply)),
    {
        let named: Option<&str> = match reply.as_object() {
            Some(object) => match member(object, FIELD_TYPE) {
                Some(property) => property.as_str(),
                None => None,
            },
            None => None,
        };
        match named {
            Some(kind) => kind.to_owned(),
            None => String::new(),
        }
    }

    /// Classifies a document by the kind that it was found to name.
    pub fn classify(message_type: String, reply: serde_json::Value) -> (response: ConnectionResponse)
        ensures
            response@ == response_of(message_type@, json_of(reply)),
    {
        if *message_type.as_str() == *MESSAGE_TYPE_CONNECT {
            ConnectionResponse::Connect
        } else if *message_type.as_str() == *MESSAGE_TYPE_CLOSE {
            ConnectionResponse::Close
        } else {
            ConnectionResponse::NotImplemented(message_type, reply)
        }
    }
}

/// The channel of the connection namespace, bound to the identity of the
/// local endpoint. It keeps no state between calls.
pub struct ConnectionChannel {
    sender: String,
}

impl ConnectionChannel {
    /// The identity that this channel writes as the source of its envelopes.
    pub closed spec fn sender(&self) -> Seq<char> {
        self.sender@
    }

    /// The envelope of a request to a destination, given the text that the
    /// request was written as.
    pub open spec fn envelope_of(&self, destination: Seq<char>, payload: Seq<char>) -> CastMessageView {
        CastMessageView {
            namespace: CHANNEL_NAMESPACE@,
            source: self.sender(),
            destination,
            payload: PayloadView::Text(payload),
        }
    }

    /// What a request of a given kind to a destination comes to: the envelope
    /// whose text is the request written as JSON, or the fault of writing it.
    pub open spec fn requested(&self, kind: Seq<char>, destination: Seq<char>) -> Result<
        CastMessageView,
        ChannelErrorView,
    > {
        match json_encoding(request_json(kind, CHANNEL_USER_AGENT@)) {
            Some(payload) => Ok(self.envelope_of(destination, payload)),
            None => Err(ChannelErrorView::Encoding),
        }
    }

    /// What an envelope parses to. Bytes are refused, whatever the namespace;
    /// text that is no JSON document is a decoding fault; every document
    /// gives a response.
    pub open spec fn parsed(message: CastMessageView) -> Result<ConnectionResponseView, ChannelErrorView> {
        match message.payload {
            PayloadView::Binary(_) => Err(ChannelErrorView::PayloadKind),
            PayloadView::Text(text) => match json_decoding(text) {
                Some(reply) => Ok(response_of(message_type_of(reply), reply)),
                None => Err(ChannelErrorView::Decoding),
            },
        }
    }

    /// Binds a channel to the identity of the local endpoint.
    pub fn new(sender: &str) -> (channel: ConnectionChannel)
        ensures
            channel.sender() == sender@,
    {
        ConnectionChannel { sender: sender.to_owned() }
    }

    /// Wraps the text of a request in an envelope from this channel to a
    /// destination.
    pub fn envelope(&self, destination: &str, payload: String) -> (message: CastMessage)
        ensures
            message@ == self.envelope_of(destination@, payload@),
    {
        CastMessage {
            namespace: CHANNEL_NAMESPACE.to_owned(),
            source: self.sender.clone(),
            destination: destination.to_owned(),
            payload: CastMessagePayload::String(payload),
        }
    }

    /// Builds the envelope of a request of a given kind to a destination.
    fn request(&self, kind: &str, destination: &str) -> (result: Result<CastMessage, ChannelError>)
        ensures
            outcome(result) == self.requested(kind@, destination@),
    {
        let request = ConnectionRequest {
            typ: kind.to_owned(),
            user_agent: CHANNEL_USER_AGENT.to_owned(),
        };
        match encode(&request.to_value()) {
            Ok(payload) => Ok(self.envelope(destination, payload)),
            Err(fault) => Err(ChannelError::Encoding(fault)),
        }
    }

    /// Builds the envelope that asks a destination to open a connection: from
    /// this channel's sender to the destination, on the connection namespace,
    /// with the `CONNECT` request written as JSON for its text. It fails only
    /// where the request cannot be written.
    pub fn connect(&self, destination: &str) -> (result: Result<CastMessage, ChannelError>)
        ensures
            outcome(result) == self.requested(MESSAGE_TYPE_CONNECT@, destination@),
            result matches Ok(message) ==> {
                &&& message.namespace@ == CHANNEL_NAMESPACE@
                &&& message.source@ == self.sender()
                &&& message.destination@ == destination@
                &&& message.payload matches CastMessagePayload::String(text)
                &&& json_encoding(request_json(MESSAGE_TYPE_CONNECT@, CHANNEL_USER_AGENT@)) == Some(text@)
            },
            result matches Err(fault) ==> fault is Encoding,
    {
        self.request(MESSAGE_TYPE_CONNECT, destination)
    }

    /// Builds the envelope that tells a destination that the connection is
    /// closed: as [`ConnectionChannel::connect`] does, with the `CLOSE`
    /// request.
    pub fn disconnect(&self, destination: &str) -> (result: Result<CastMessage, ChannelError>)
        ensures
            outcome(result) == self.requested(MESSAGE_TYPE_CLOSE@, destination@),
            result matches Ok(message) ==> {
                &&& message.namespace@ == CHANNEL_NAMESPACE@
                &&& message.source@ == self.sender()
                &&& message.destination@ == destination@
                &&& message.payload matches CastMessagePayload::String(text)
                &&& json_encoding(request_json(MESSAGE_TYPE_CLOSE@, CHANNEL_USER_AGENT@)) == Some(text@)
            },
            result matches Err(fault) ==> fault is Encoding,
    {
        self.request(MESSAGE_TYPE_CLOSE, destination)
    }

    /// Tells whether an envelope belongs to this channel: whether its
    /// namespace is the connection namespace, letter for letter.
    pub fn can_handle(&self, message: &CastMessage) -> (handled: bool)
        ensures
            handled == (message@.namespace == CHANNEL_NAMESPACE@),
    {
        *message.namespace.as_str() == *CHANNEL_NAMESPACE
    }

    /// Reads the response that an envelope carries. The namespace plays no
    /// part: bytes are refused on every namespace, and text is read on every
    /// namespace.
    pub fn parse(&self, message: &CastMessage) -> (result: Result<ConnectionResponse, ChannelError>)
        ensures
            outcome(result) == Self::parsed(message@),
            message.payload is Binary ==> result matches Err(ChannelError::PayloadKind),
            message.payload matches CastMessagePayload::String(text) ==> (result is Ok <==> json_decoding(
                text@,
            ) is Some),
    {
        let reply = match &message.payload {
            CastMessagePayload::String(payload) => match decode(payload.as_str()) {
                Ok(reply) => reply,
                Err(fault) => return Err(ChannelError::Decoding(fault)),
            },
            CastMessagePayload::Binary(_) => return Err(ChannelError::PayloadKind),
        };
        let message_type = ConnectionResponse::message_type(&reply);
        Ok(ConnectionResponse::classify(message_type, reply))
    }
}

/// The two kinds that the channel knows are different words, and neither is
/// the empty word.
pub proof fn lemma_known_kinds()
    ensures
        MESSAGE_TYPE_CONNECT@ != MESSAGE_TYPE_CLOSE@,
        MESSAGE_TYPE_CONNECT@.len() == 7,
        MESSAGE_TYPE_CLOSE@.len() == 5,
{
    reveal_strlit("CONNECT");
    reveal_strlit("CLOSE");
    assert(MESSAGE_TYPE_CONNECT@.len() == 7);
    assert(MESSAGE_TYPE_CLOSE@.len() == 5);
}

/// The connection namespace is not the empty word: an envelope without a
/// namespace belongs to no channel.
pub proof fn lemma_namespace_is_named()
    ensures
        CHANNEL_NAMESPACE@.len() == 40,
        CHANNEL_NAMESPACE@ != Seq::<char>::empty(),
{
    reveal_strlit("urn:x-cast:com.google.cast.tp.connection");
    assert(CHANNEL_NAMESPACE@.len() == 40);
}

/// A document stands for `Connect` exactly when it names the kind `CONNECT`,
/// for `Close` exactly when it names `CLOSE`, and in every other case for
/// `NotImplemented`, with the kind that it names and the document itself.
pub proof fn lemma_response_by_kind(reply: Json)
    ensures
        response_of(message_type_of(reply), reply) is Connect <==> message_type_of(reply)
            == MESSAGE_TYPE_CONNECT@,
        response_of(message_type_of(reply), reply) is Close <==> message_type_of(reply)
            == MESSAGE_TYPE_CLOSE@,
        message_type_of(reply) != MESSAGE_TYPE_CONNECT@ && message_type_of(reply)
            != MESSAGE_TYPE_CLOSE@ ==> response_of(message_type_of(reply), reply)
            == ConnectionResponseView::NotImplemented(message_type_of(reply), reply),
{
    lemma_known_kinds();
}

/// A document that names no kind (it is no object, has no member `type`, or
/// holds there something other than a string) stands for `NotImplemented`
/// with the empty kind and the document itself.
pub proof fn lemma_response_without_kind(reply: Json)
    requires
        !(reply matches Json::Object(members) && members.contains_key(FIELD_TYPE@)
            && members[FIELD_TYPE@] is String),
    ensures
        message_type_of(reply) == Seq::<char>::empty(),
        response_of(message_type_of(reply), reply) == ConnectionResponseView::NotImplemented(
            Seq::empty(),
            reply,
        ),
{
    lemma_known_kinds();
}

/// Parsing keeps no state: two results of [`ConnectionChannel::parse`] for
/// one envelope have the same model, which is the same response or the same
/// kind of fault.
pub proof fn lemma_parse_repeats(
    message: CastMessage,
    first: Result<ConnectionResponse, ChannelError>,
    second: Result<ConnectionResponse, ChannelError>,
)
    requires
        outcome(first) == ConnectionChannel::parsed(message@),
        outcome(second) == ConnectionChannel::parsed(message@),
    ensures
        outcome(first) == outcome(second),
{
}

/// A request, read as a reply, names the kind and the user agent that it was
/// made with. So the document of a `CONNECT` request stands for `Connect`,
/// and that of a `CLOSE` request for `Close`.
pub proof fn lemma_request_names_its_kind(typ: Seq<char>, user_agent: Seq<char>)
    ensures
        message_type_of(request_json(typ, user_agent)) == typ,
        request_json(typ, user_agent) matches Json::Object(members) && members[FIELD_USER_AGENT@]
            == Json::String(user_agent),
        typ == MESSAGE_TYPE_CONNECT@ ==> response_of(
            message_type_of(request_json(typ, user_agent)),
            request_json(typ, user_agent),
        ) is Connect,
        typ == MESSAGE_TYPE_CLOSE@ ==> response_of(
            message_type_of(request_json(typ, user_agent)),
            request_json(typ, user_agent),
        ) is Close,
{
    lemma_request_members(typ, user_agent);
    lemma_known_kinds();
}

} // verus!
