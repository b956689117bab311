//! Attributes of a uProtocol message as plain data.
//!
//! Their protobuf form and the rules on them are those of
//! `up_rust::UAttributes`.

use protobuf::{EnumOrUnknown, Message};
use up_rust::{UAttributes, UAttributesValidators, UUri, UUID};
use vstd::prelude::*;
use vstd::utf8::encode_utf8;

use crate::uri::{copy_maybe, maybe_view, Uri, UriView};

verus! {

/// Identifier of a message.
#[derive(Clone, Copy, Debug, PartialEq, Eq, Structural)]
pub struct Uuid {
    /// Upper half.
    pub msb: u64,
    /// Lower half.
    pub lsb: u64,
}

/// Attributes of a message. Enumerations are held by their protobuf numbers.
#[derive(Debug, PartialEq, Eq)]
pub struct Attributes {
    /// Identifier of the message.
    pub id: Option<Uuid>,
    /// Publication 1, request 2, response 3, notification 4.
    pub message_type: i32,
    /// Where the message comes from.
    pub source: Option<Uri>,
    /// Where the message goes to.
    pub sink: Option<Uri>,
    /// Priority, unspecified 0, then CS0 1 up to CS6 7.
    pub priority: i32,
    /// Time to live in milliseconds.
    pub ttl: Option<u32>,
    /// Permission level of a request.
    pub permission_level: Option<u32>,
    /// Outcome of a request.
    pub commstatus: Option<i32>,
    /// Identifier of the request that a response belongs to.
    pub reqid: Option<Uuid>,
    /// Access token.
    pub token: Option<String>,
    /// Tracing context.
    pub traceparent: Option<String>,
    /// Format of the payload.
    pub payload_format: i32,
}

/// Attributes as contracts see them.
#[verifier::ext_equal]
pub struct AttributesView {
    /// Identifier of the message.
    pub id: Option<Uuid>,
    /// Kind of message.
    pub message_type: i32,
    /// Where the message comes from.
    pub source: Option<UriView>,
    /// Where the message goes to.
    pub sink: Option<UriView>,
    /// Priority.
    pub priority: i32,
    /// Time to live in milliseconds.
    pub ttl: Option<u32>,
    /// Permission level of a request.
    pub permission_level: Option<u32>,
    /// Outcome of a request.
    pub commstatus: Option<i32>,
    /// Identifier of the request that a response belongs to.
    pub reqid: Option<Uuid>,
    /// Access token.
    pub token: Option<Seq<char>>,
    /// Tracing context.
    pub traceparent: Option<Seq<char>>,
    /// Format of the payload.
    pub payload_format: i32,
}

/// An optional text as contracts see it.
pub open spec fn maybe_text(text: Option<String>) -> Option<Seq<char>> {
    match text {
        Some(text) => Some(text@),
        None => None,
    }
}

impl View for Attributes {
    type V = AttributesView;

    open spec fn view(&self) -> AttributesView {
        AttributesView {
            id: self.id,
            message_type: self.message_type,
            source: maybe_view(self.source),
            sink: maybe_view(self.sink),
            priority: self.priority,
            ttl: self.ttl,
            permission_level: self.permission_level,
            commstatus: self.commstatus,
            reqid: self.reqid,
            token: maybe_text(self.token),
            traceparent: maybe_text(self.traceparent),
            payload_format: self.payload_format,
        }
    }
}

/// Copies an optional text.
fn copy_text(text: &Option<String>) -> (copy: Option<String>)
    ensures
        maybe_text(copy) == maybe_text(*text),
{
    match text {
        Some(text) => Some(text.clone()),
        None => None,
    }
}

impl Clone for Attributes {
    fn clone(&self) -> (copy: Attributes)
        ensures
            copy@ == self@,
    {
        Attributes {
            id: self.id,
            message_type: self.message_type,
            source: copy_maybe(self.source.as_ref()),
            sink: copy_maybe(self.sink.as_ref()),
            priority: self.priority,
            ttl: self.ttl,
            permission_level: self.permission_level,
            commstatus: self.commstatus,
            reqid: self.reqid,
            token: copy_text(&self.token),
            traceparent: copy_text(&self.traceparent),
            payload_format: self.payload_format,
        }
    }
}

/// A parse result as contracts see it.
pub open spec fn parsed_attributes_view(parsed: Result<Attributes, String>) -> Result<
    AttributesView,
    Seq<char>,
> {
    match parsed {
        Ok(attributes) => Ok(attributes@),
        Err(detail) => Err(detail@),
    }
}

/// Written bytes as contracts see them.
pub open spec fn written_view(written: Result<Vec<u8>, String>) -> Result<Seq<u8>, Seq<char>> {
    match written {
        Ok(bytes) => Ok(bytes@),
        Err(detail) => Err(detail@),
    }
}

/// Number of bytes of a text, if there is one.
pub open spec fn text_size(text: Option<Seq<char>>) -> nat {
    match text {
        Some(text) => encode_utf8(text).len(),
        None => 0,
    }
}

/// Number of bytes of the authority name of an address, if there is one.
pub open spec fn authority_size(uri: Option<UriView>) -> nat {
    match uri {
        Some(uri) => encode_utf8(uri.authority_name).len(),
        None => 0,
    }
}

/// Number of bytes of all texts among attributes.
pub open spec fn texts_size(attributes: AttributesView) -> nat {
    authority_size(attributes.source) + authority_size(attributes.sink) + text_size(
        attributes.token,
    ) + text_size(attributes.traceparent)
}

/// Whether bytes are as many as the 32 bit lengths of protobuf can count.
pub open spec fn countable(bytes: Seq<u8>) -> bool {
    bytes.len() <= u32::MAX
}

/// A version 7 identifier of the RFC 4122 variant.
pub open spec fn uuid_valid(id: Option<Uuid>) -> bool {
    id is Some && (id->Some_0.msb / 0x1000) % 16 == 7 && id->Some_0.lsb / 0x4000_0000_0000_0000 == 2
}

/// An address that is present and holds no wildcard.
pub open spec fn concrete(uri: Option<UriView>) -> bool {
    &&& uri is Some
    &&& uri->Some_0.authority_name != "*"@
    &&& uri->Some_0.ue_id % 0x1_0000 != 0xFFFF
    &&& uri->Some_0.ue_id / 0x1_0000 != 0xFFFF
    &&& uri->Some_0.ue_version_major != 0xFF
    &&& uri->Some_0.resource_id != 0xFFFF
}

/// A resource identifier of an RPC method.
pub open spec fn is_method(uri: Option<UriView>) -> bool {
    0 < uri->Some_0.resource_id < 0x8000
}

/// Attributes that make a valid message of their kind.
pub open spec fn attributes_valid(attributes: AttributesView) -> bool {
    &&& uuid_valid(attributes.id)
    &&& concrete(attributes.source)
    &&& if attributes.message_type == 1 {
        attributes.source->Some_0.resource_id >= 0x8000 && attributes.sink is None
    } else if attributes.message_type == 4 {
        attributes.source->Some_0.resource_id != 0 && concrete(attributes.sink)
            && attributes.sink->Some_0.resource_id == 0
    } else if attributes.message_type == 2 {
        attributes.source->Some_0.resource_id == 0 && concrete(attributes.sink) && is_method(
            attributes.sink,
        ) && attributes.ttl is Some && attributes.ttl->Some_0 > 0 && 5 <= attributes.priority <= 7
    } else if attributes.message_type == 3 {
        is_method(attributes.source) && concrete(attributes.sink)
            && attributes.sink->Some_0.resource_id == 0 && uuid_valid(attributes.reqid) && (
        attributes.commstatus is Some ==> 0 <= attributes.commstatus->Some_0 <= 16) && 5
            <= attributes.priority <= 7
    } else {
        false
    }
}

/// What parsing protobuf bytes as attributes yields: the attributes, or the
/// reason why there are none.
pub uninterp spec fn attributes_parse(bytes: Seq<u8>) -> Result<AttributesView, Seq<char>>;

/// What writing attributes as protobuf yields: the bytes, or the reason why
/// there are none.
pub uninterp spec fn attributes_write(attributes: AttributesView) -> Result<Seq<u8>, Seq<char>>;

/// Why attributes do not make a valid message, `None` when they do.
pub uninterp spec fn attributes_verdict(attributes: AttributesView) -> Option<Seq<char>>;

/// The outcome of a successful parse.
pub open spec fn read_back(attributes: AttributesView) -> Result<AttributesView, Seq<char>> {
    Ok(attributes)
}

/// The generated identifier type.
#[verifier::external_type_specification]
#[verifier::external_body]
pub struct ExUUID(UUID);

/// The generated attributes type.
#[verifier::external_type_specification]
#[verifier::external_body]
pub struct ExUAttributes(UAttributes);

impl From<&Uuid> for UUID {
    /// Copies both halves into the generated type.
    #[verifier::external_body]
    fn from(id: &Uuid) -> UUID {
        UUID { msb: id.msb, lsb: id.lsb, ..Default::default() }
    }
}

impl From<&UUID> for Uuid {
    /// Copies both halves out of the generated type.
    #[verifier::external_body]
    fn from(id: &UUID) -> Uuid {
        Uuid { msb: id.msb, lsb: id.lsb }
    }
}

impl From<&Attributes> for UAttributes {
    /// Copies every field into the generated type.
    #[verifier::external_body]
    fn from(a: &Attributes) -> UAttributes {
        UAttributes {
            id: a.id.as_ref().map(UUID::from).into(),
            type_: EnumOrUnknown::from_i32(a.message_type),
            source: a.source.as_ref().map(UUri::from).into(),
            sink: a.sink.as_ref().map(UUri::from).into(),
            priority: EnumOrUnknown::from_i32(a.priority),
            ttl: a.ttl,
            permission_level: a.permission_level,
            commstatus: a.commstatus.map(EnumOrUnknown::from_i32),
            reqid: a.reqid.as_ref().map(UUID::from).into(),
            token: a.token.clone(),
            traceparent: a.traceparent.clone(),
            payload_format: EnumOrUnknown::from_i32(a.payload_format),
            ..Default::default()
        }
    }
}

impl From<&UAttributes> for Attributes {
    /// Copies every field out of the generated type.
    #[verifier::external_body]
    fn from(a: &UAttributes) -> Attributes {
        Attributes {
            id: a.id.as_ref().map(Uuid::from),
            message_type: a.type_.value(),
            source: a.source.as_ref().map(Uri::from),
            sink: a.sink.as_ref().map(Uri::from),
            priority: a.priority.value(),
            ttl: a.ttl,
            permission_level: a.permission_level,
            commstatus: a.commstatus.map(|code| code.value()),
            reqid: a.reqid.as_ref().map(Uuid::from),
            token: a.token.clone(),
            traceparent: a.traceparent.clone(),
            payload_format: a.payload_format.value(),
        }
    }
}

/// `protobuf::Message::parse_from_bytes` for `UAttributes`, with the error as
/// its `Display` text.
///
/// Trusted: the outcome depends on the bytes alone.
#[verifier::external_body]
pub(crate) fn parse_attributes(bytes: &[u8]) -> (parsed: Result<Attributes, String>)
    ensures
        parsed_attributes_view(parsed) == attributes_parse(bytes@),
{
    match UAttributes::parse_from_bytes(bytes) {
        Ok(attributes) => Ok(Attributes::from(&attributes)),
        Err(error) => Err(error.to_string()),
    }
}

/// `protobuf::Message::write_to_bytes` for `UAttributes`, with the error as its
/// `Display` text.
///
/// Trusted: the outcome depends on the attributes alone. Writing into memory
/// always succeeds, no field being required. Bytes within the 32 bit lengths of
/// protobuf are read back as the same attributes. The fields take up the bytes
/// of their texts and less than 256 more: at most 20 for each identifier, 40
/// for each address, 11 for each text and 12 for each number.
#[verifier::external_body]
pub(crate) fn write_attributes(attributes: &Attributes) -> (written: Result<Vec<u8>, String>)
    ensures
        written_view(written) == attributes_write(attributes@),
        written_view(written) is Ok,
        written_view(written)->Ok_0.len() < texts_size(attributes@) + 256,
        countable(written_view(written)->Ok_0) ==> attributes_parse(written_view(written)->Ok_0)
            == read_back(attributes@),
{
    match UAttributes::from(attributes).write_to_bytes() {
        Ok(bytes) => Ok(bytes),
        Err(error) => Err(error.to_string()),
    }
}

/// `UAttributesValidator::validate` of the validator that
/// `UAttributesValidators::get_validator_for_attributes` selects, with the
/// error as its `Display` text.
///
/// Trusted: the outcome depends on the attributes alone; exactly the
/// attributes described by [`attributes_valid`] are accepted.
#[verifier::external_body]
pub(crate) fn judge_attributes(attributes: &Attributes) -> (refusal: Option<String>)
    ensures
        maybe_text(refusal) == attributes_verdict(attributes@),
        maybe_text(refusal) is None <==> attributes_valid(attributes@),
{
    let attributes = UAttributes::from(attributes);
    let validator = UAttributesValidators::get_validator_for_attributes(&attributes);
    match validator.validate(&attributes) {
        Ok(()) => None,
        Err(error) => Some(error.to_string()),
    }
}

/// The view of attributes shows every field, and the views of what parsing and
/// writing yield show the result or the reason why there is none.
pub proof fn law_attributes_are_seen_whole(attributes: Attributes, bytes: Vec<u8>, text: String)
    ensures
        attributes@.id == attributes.id,
        attributes@.message_type == attributes.message_type,
        attributes@.source is Some <==> attributes.source is Some,
        attributes.source is Some ==> attributes@.source->Some_0 == attributes.source->Some_0@,
        attributes@.sink is Some <==> attributes.sink is Some,
        attributes.sink is Some ==> attributes@.sink->Some_0 == attributes.sink->Some_0@,
        attributes@.priority == attributes.priority,
        attributes@.ttl == attributes.ttl,
        attributes@.permission_level == attributes.permission_level,
        attributes@.commstatus == attributes.commstatus,
        attributes@.reqid == attributes.reqid,
        attributes@.token is Some <==> attributes.token is Some,
        attributes.token is Some ==> attributes@.token->Some_0 == attributes.token->Some_0@,
        attributes@.traceparent is Some <==> attributes.traceparent is Some,
        attributes.traceparent is Some ==> attributes@.traceparent->Some_0
            == attributes.traceparent->Some_0@,
        attributes@.payload_format == attributes.payload_format,
        maybe_text(Some(text)) == Some(text@),
        maybe_text(None) is None,
        parsed_attributes_view(Ok(attributes)) == Ok::<AttributesView, Seq<char>>(attributes@),
        parsed_attributes_view(Err(text)) == Err::<AttributesView, Seq<char>>(text@),
        written_view(Ok(bytes)) == Ok::<Seq<u8>, Seq<char>>(bytes@),
        written_view(Err(text)) == Err::<Seq<u8>, Seq<char>>(text@),
{
}

/// Attributes of at most four gigabytes can be counted, and their texts are the
/// authority names of both addresses, the token and the tracing context.
pub proof fn law_sizes_count_every_text(attributes: AttributesView, bytes: Seq<u8>)
    ensures
        countable(bytes) <==> bytes.len() < 0x1_0000_0000,
        attributes.source is None && attributes.sink is None && attributes.token is None
            && attributes.traceparent is None ==> texts_size(attributes) == 0,
        attributes.token is Some ==> texts_size(attributes) == texts_size(
            AttributesView { token: None, ..attributes },
        ) + encode_utf8(attributes.token->Some_0).len(),
        attributes.traceparent is Some ==> texts_size(attributes) == texts_size(
            AttributesView { traceparent: None, ..attributes },
        ) + encode_utf8(attributes.traceparent->Some_0).len(),
        attributes.source is Some ==> texts_size(attributes) == texts_size(
            AttributesView { source: None, ..attributes },
        ) + encode_utf8(attributes.source->Some_0.authority_name).len(),
        attributes.sink is Some ==> texts_size(attributes) == texts_size(
            AttributesView { sink: None, ..attributes },
        ) + encode_utf8(attributes.sink->Some_0.authority_name).len(),
{
}

/// Valid attributes have an identifier of version 7 and a source without
/// wildcards. A publication comes from a topic and has no sink; a notification
/// goes from a resource to an endpoint; a request goes from an endpoint to a
/// method, with a time to live; a response goes from a method to an endpoint
/// and names its request. Requests and responses have a priority of at least
/// CS4. There are no other kinds.
pub proof fn law_valid_attributes(attributes: AttributesView)
    requires
        attributes.source is Some,
    ensures
        ({
            let source = attributes.source->Some_0;
            let sink = attributes.sink->Some_0;
            let addressed = attributes.sink is Some && sink.authority_name != "*"@ && sink.ue_id
                % 0x1_0000 != 0xFFFF && sink.ue_id / 0x1_0000 != 0xFFFF && sink.ue_version_major
                != 0xFF && sink.resource_id != 0xFFFF;
            let sound = attributes.id is Some && (attributes.id->Some_0.msb / 0x1000) % 16 == 7
                && attributes.id->Some_0.lsb / 0x4000_0000_0000_0000 == 2 && source.authority_name
                != "*"@ && source.ue_id % 0x1_0000 != 0xFFFF && source.ue_id / 0x1_0000 != 0xFFFF
                && source.ue_version_major != 0xFF && source.resource_id != 0xFFFF;
            let urgent = 5 <= attributes.priority <= 7;
            &&& attributes.message_type == 1 ==> (attributes_valid(attributes) <==> sound
                && source.resource_id >= 0x8000 && attributes.sink is None)
            &&& attributes.message_type == 4 ==> (attributes_valid(attributes) <==> sound
                && source.resource_id > 0 && addressed && sink.resource_id == 0)
            &&& attributes.message_type == 2 ==> (attributes_valid(attributes) <==> sound
                && source.resource_id == 0 && addressed && 0 < sink.resource_id < 0x8000
                && attributes.ttl is Some && attributes.ttl->Some_0 > 0 && urgent)
            &&& attributes.message_type == 3 ==> (attributes_valid(attributes) <==> sound && 0
                < source.resource_id < 0x8000 && addressed && sink.resource_id == 0
                && attributes.reqid is Some && (attributes.reqid->Some_0.msb / 0x1000) % 16 == 7
                && attributes.reqid->Some_0.lsb / 0x4000_0000_0000_0000 == 2 && (
            attributes.commstatus is Some ==> 0 <= attributes.commstatus->Some_0 <= 16) && urgent)
            &&& attributes.message_type < 1 || attributes.message_type > 4 ==> !attributes_valid(
                attributes,
            )
        }),
{
}

/// Attributes without a source or without an identifier are never valid.
pub proof fn law_anonymous_attributes_are_invalid(attributes: AttributesView)
    ensures
        attributes.source is None || attributes.id is None ==> !attributes_valid(attributes),
        read_back(attributes) == Ok::<AttributesView, Seq<char>>(attributes),
{
}

} // verus!
