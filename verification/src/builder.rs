//! Building new messages with `up_rust::UMessageBuilder`.
//!
//! The builder draws a fresh identifier for every message from the clock and
//! from random bits.

use protobuf::Enum;
use up_rust::{UMessage, UMessageBuilder, UPayloadFormat, UUri, UUID};
use vstd::prelude::*;

use crate::attributes::{
    attributes_valid, attributes_verdict, uuid_valid, Attributes, AttributesView, Uuid,
};
use crate::classic::{decoded_view, ClassicMessage, MessageView};
use crate::uri::{Uri, UriView};

verus! {

/// The generated message type.
#[verifier::external_type_specification]
#[verifier::external_body]
pub struct ExUMessage(UMessage);

impl From<&UMessage> for ClassicMessage {
    /// Copies attributes and payload out of the generated type.
    #[verifier::external_body]
    fn from(message: &UMessage) -> ClassicMessage {
        ClassicMessage {
            attributes: Attributes::from(message.attributes.get_or_default()),
            payload: message.payload.as_ref().map(|payload| payload.to_vec()),
        }
    }
}

/// What distinguishes a new message: its kind, its addresses and what only a
/// request or a response has.
#[verifier::ext_equal]
pub struct DraftView {
    /// Kind of message.
    pub message_type: i32,
    /// Where the message comes from.
    pub source: UriView,
    /// Where the message goes to.
    pub sink: Option<UriView>,
    /// Priority.
    pub priority: i32,
    /// Time to live in milliseconds.
    pub ttl: Option<u32>,
    /// Identifier of the answered request.
    pub reqid: Option<Uuid>,
    /// Format of the payload.
    pub payload_format: i32,
}

/// The attributes of a new message with the given identifier.
pub open spec fn drafted(draft: DraftView, id: Uuid) -> AttributesView {
    AttributesView {
        id: Some(id),
        message_type: draft.message_type,
        source: Some(draft.source),
        sink: draft.sink,
        priority: draft.priority,
        ttl: draft.ttl,
        permission_level: None,
        commstatus: None,
        reqid: draft.reqid,
        token: None,
        traceparent: None,
        payload_format: draft.payload_format,
    }
}

/// An identifier of the kind that the builder draws.
pub open spec fn sample_id() -> Uuid {
    Uuid { msb: 0x7000, lsb: 0x8000_0000_0000_0000 }
}

/// Whether a new message with this content is valid, which does not depend on
/// the identifier that is drawn for it.
pub open spec fn draft_valid(draft: DraftView) -> bool {
    attributes_valid(drafted(draft, sample_id()))
}

/// Whether building a message came out as its content asks for: it succeeds
/// exactly for valid content, and then only the identifier is new; otherwise
/// the refusal of the attributes is passed on.
pub open spec fn built_from(
    built: Result<MessageView, Seq<char>>,
    draft: DraftView,
    payload: Seq<u8>,
) -> bool {
    match built {
        Ok(message) => {
            &&& draft_valid(draft)
            &&& message.attributes.id is Some
            &&& uuid_valid(message.attributes.id)
            &&& message.attributes == drafted(draft, message.attributes.id->Some_0)
            &&& message.payload == Some(payload)
        },
        Err(detail) => {
            &&& !draft_valid(draft)
            &&& exists|id: Uuid|
                uuid_valid(Some(id)) && detail
                    == "Builder state is not consistent with message type: "@ + (
                #[trigger] attributes_verdict(drafted(draft, id)))->Some_0
        },
    }
}

/// Content of a publication.
pub open spec fn publication(topic: UriView, payload_format: i32) -> DraftView {
    DraftView {
        message_type: 1,
        source: topic,
        sink: None,
        priority: 0,
        ttl: None,
        reqid: None,
        payload_format,
    }
}

/// Content of a notification.
pub open spec fn notification(
    origin: UriView,
    destination: UriView,
    payload_format: i32,
) -> DraftView {
    DraftView {
        message_type: 4,
        source: origin,
        sink: Some(destination),
        priority: 0,
        ttl: None,
        reqid: None,
        payload_format,
    }
}

/// Content of a request: it comes from the address for the reply and has a
/// priority that requests need.
pub open spec fn request(
    method: UriView,
    reply_to: UriView,
    ttl: u32,
    payload_format: i32,
) -> DraftView {
    DraftView {
        message_type: 2,
        source: reply_to,
        sink: Some(method),
        priority: 5,
        ttl: Some(ttl),
        reqid: None,
        payload_format,
    }
}

/// Content of a response: it comes from the invoked method and goes to the
/// address for the reply.
pub open spec fn response(
    reply_to: UriView,
    request_id: Uuid,
    method: UriView,
    payload_format: i32,
) -> DraftView {
    DraftView {
        message_type: 3,
        source: method,
        sink: Some(reply_to),
        priority: 5,
        ttl: None,
        reqid: Some(request_id),
        payload_format,
    }
}

/// `UMessageBuilder::publish` and `build_with_payload`, with the error as its
/// `Display` text.
///
/// Trusted: whatever identifier is drawn, the outcome is the one of
/// [`built_from`].
#[verifier::external_body]
pub(crate) fn build_publication(topic: &Uri, payload: Vec<u8>, payload_format: i32) -> (built:
    Result<ClassicMessage, String>)
    requires
        0 <= payload_format <= 8,
    ensures
        built_from(decoded_view(built), publication(topic@, payload_format), payload@),
{
    let format = UPayloadFormat::from_i32(payload_format).unwrap_or_default();
    match UMessageBuilder::publish(UUri::from(topic)).build_with_payload(payload, format) {
        Ok(message) => Ok(ClassicMessage::from(&message)),
        Err(error) => Err(error.to_string()),
    }
}

/// `UMessageBuilder::notification` and `build_with_payload`, with the error as
/// its `Display` text.
///
/// Trusted: whatever identifier is drawn, the outcome is the one of
/// [`built_from`].
#[verifier::external_body]
pub(crate) fn build_notification(
    origin: &Uri,
    destination: &Uri,
    payload: Vec<u8>,
    payload_format: i32,
) -> (built: Result<ClassicMessage, String>)
    requires
        0 <= payload_format <= 8,
    ensures
        built_from(
            decoded_view(built),
            notification(origin@, destination@, payload_format),
            payload@,
        ),
{
    let format = UPayloadFormat::from_i32(payload_format).unwrap_or_default();
    let mut builder = UMessageBuilder::notification(UUri::from(origin), UUri::from(destination));
    match builder.build_with_payload(payload, format) {
        Ok(message) => Ok(ClassicMessage::from(&message)),
        Err(error) => Err(error.to_string()),
    }
}

/// `UMessageBuilder::request` and `build_with_payload`, with the error as its
/// `Display` text.
///
/// Trusted: whatever identifier is drawn, the outcome is the one of
/// [`built_from`].
#[verifier::external_body]
pub(crate) fn build_request(
    method: &Uri,
    reply_to: &Uri,
    ttl: u32,
    payload: Vec<u8>,
    payload_format: i32,
) -> (built: Result<ClassicMessage, String>)
    requires
        0 <= payload_format <= 8,
    ensures
        built_from(
            decoded_view(built),
            request(method@, reply_to@, ttl, payload_format),
            payload@,
        ),
{
    let format = UPayloadFormat::from_i32(payload_format).unwrap_or_default();
    let mut builder = UMessageBuilder::request(UUri::from(method), UUri::from(reply_to), ttl);
    match builder.build_with_payload(payload, format) {
        Ok(message) => Ok(ClassicMessage::from(&message)),
        Err(error) => Err(error.to_string()),
    }
}

/// `UMessageBuilder::response` and `build_with_payload`, with the error as its
/// `Display` text.
///
/// Trusted: whatever identifier is drawn, the outcome is the one of
/// [`built_from`].
#[verifier::external_body]
pub(crate) fn build_response(
    reply_to: &Uri,
    request_id: Uuid,
    method: &Uri,
    payload: Vec<u8>,
    payload_format: i32,
) -> (built: Result<ClassicMessage, String>)
    requires
        0 <= payload_format <= 8,
    ensures
        built_from(
            decoded_view(built),
            response(reply_to@, request_id, method@, payload_format),
            payload@,
        ),
{
    let format = UPayloadFormat::from_i32(payload_format).unwrap_or_default();
    let (reply_to, method) = (UUri::from(reply_to), UUri::from(method));
    let mut builder = UMessageBuilder::response(reply_to, UUID::from(&request_id), method);
    match builder.build_with_payload(payload, format) {
        Ok(message) => Ok(ClassicMessage::from(&message)),
        Err(error) => Err(error.to_string()),
    }
}

/// Every message that is built makes a valid message, whose source decides
/// where it is routed from.
pub proof fn law_built_messages_are_valid(
    built: Result<MessageView, Seq<char>>,
    draft: DraftView,
    payload: Seq<u8>,
)
    requires
        built_from(built, draft, payload),
        built is Ok,
    ensures
        attributes_valid(built->Ok_0.attributes),
        built->Ok_0.attributes.source == Some(draft.source),
        built->Ok_0.attributes.sink == draft.sink,
{
}

/// The content of each kind of message: a publication has its topic as source
/// and no sink; a notification goes from its origin to its destination; a
/// request comes from where the reply goes to and goes to the method, with a
/// time to live; a response goes the other way and names the request. Requests
/// and responses have the priority that they need at least.
pub proof fn law_contents_of_messages(
    first: UriView,
    second: UriView,
    ttl: u32,
    request_id: Uuid,
    format: i32,
)
    ensures
        ({
            let draft = publication(first, format);
            &&& draft.message_type == 1 && draft.source == first && draft.sink is None
            &&& draft.priority == 0 && draft.ttl is None && draft.reqid is None
            &&& draft.payload_format == format
        }),
        ({
            let draft = notification(first, second, format);
            &&& draft.message_type == 4 && draft.source == first && draft.sink == Some(second)
            &&& draft.priority == 0 && draft.ttl is None && draft.reqid is None
            &&& draft.payload_format == format
        }),
        ({
            let draft = request(first, second, ttl, format);
            &&& draft.message_type == 2 && draft.source == second && draft.sink == Some(first)
            &&& draft.priority == 5 && draft.ttl == Some(ttl) && draft.reqid is None
            &&& draft.payload_format == format
        }),
        ({
            let draft = response(first, request_id, second, format);
            &&& draft.message_type == 3 && draft.source == second && draft.sink == Some(first)
            &&& draft.priority == 5 && draft.ttl is None && draft.reqid == Some(request_id)
            &&& draft.payload_format == format
        }),
{
}

/// A response answers its request: it comes from the method that the request
/// went to, goes to where the request came from, and names it.
pub proof fn law_responses_answer_their_requests(
    method: UriView,
    reply_to: UriView,
    ttl: u32,
    request_id: Uuid,
    format: i32,
)
    ensures
        ({
            let asked = request(method, reply_to, ttl, format);
            let answer = response(asked.source, request_id, asked.sink->Some_0, format);
            &&& asked.sink == Some(answer.source)
            &&& answer.sink == Some(asked.source)
            &&& answer.reqid == Some(request_id)
        }),
{
}

/// A built message has the content that was asked for, an identifier of its
/// own, exactly the payload that was handed over, and nothing else.
pub proof fn law_built_messages_have_their_content(
    built: Result<MessageView, Seq<char>>,
    draft: DraftView,
    payload: Seq<u8>,
)
    requires
        built_from(built, draft, payload),
    ensures
        built matches Ok(message) ==> {
            &&& uuid_valid(message.attributes.id)
            &&& message.attributes.message_type == draft.message_type
            &&& message.attributes.source == Some(draft.source)
            &&& message.attributes.sink == draft.sink
            &&& message.attributes.priority == draft.priority
            &&& message.attributes.ttl == draft.ttl
            &&& message.attributes.reqid == draft.reqid
            &&& message.attributes.payload_format == draft.payload_format
            &&& message.attributes.permission_level is None
            &&& message.attributes.commstatus is None
            &&& message.attributes.token is None
            &&& message.attributes.traceparent is None
            &&& message.payload == Some(payload)
        },
{
}

/// Building succeeds if and only if the content is valid, under whatever valid
/// identifier.
pub proof fn law_valid_content_is_built(
    built: Result<MessageView, Seq<char>>,
    draft: DraftView,
    payload: Seq<u8>,
    id: Uuid,
)
    requires
        built_from(built, draft, payload),
        uuid_valid(Some(id)),
    ensures
        built is Ok <==> attributes_valid(drafted(draft, id)),
        drafted(draft, id).id == Some(id),
{
}

} // verus!
