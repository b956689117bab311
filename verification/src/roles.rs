//! Role processes: publisher, subscriber, notifier, notifyee, RPC client and
//! RPC server.

use vstd::prelude::*;
use vstd::utf8::encode_utf8;

use crate::attributes::{attributes_valid, attributes_verdict, uuid_valid, Uuid};
use crate::builder::{
    build_notification, build_publication, build_request, build_response, built_from, drafted,
    notification, publication, request, response, sample_id, DraftView,
};
use crate::classic::{ClassicMessage, MessageView};
use crate::config::{
    default_config, origin_text, ConfigView, DdsConfig, DdsQos, Interval, Reliability,
};
use crate::family::Family;
use crate::owned::{metadata_result, FrameMetadata, FrameView, MetadataView, OwnedFrame};
use crate::payload::{content, copy_bytes};
use crate::status::{fail, invalid, invalid_view, Status, StatusCode, StatusView};
use crate::text::{decimal, decimal_text, join, join3};
use crate::uri::{
    copy_maybe, filter_rule, from_parts, maybe_view, plain_authority, reads_back, uri_from_parts, Uri,
    UriView,
};

verus! {

/// Entity that every role process belongs to.
pub const ENTITY_ID: u32 = 0x5BA0;

/// Major version of that entity.
pub const ENTITY_VERSION: u8 = 1;

/// What a role process does.
#[derive(Clone, Copy, Debug, PartialEq, Eq, Structural)]
pub enum Role {
    /// Publishes one message.
    Publisher,
    /// Observes one publication.
    Subscriber,
    /// Sends one notification.
    Notifier,
    /// Observes one notification.
    Notifyee,
    /// Sends one request and observes its response.
    Client,
    /// Answers one request.
    Server,
}

/// Payload encoding that a role process is told to use.
#[derive(Clone, Copy, Debug, PartialEq, Eq, Structural)]
pub enum Encoding {
    /// Raw bytes.
    Native,
    /// Protobuf.
    Protobuf,
    /// OMG XCDR version 2.
    Xcdrv2,
    /// Apache Arrow.
    Arrow,
    /// OMG IDL.
    OmgIdl,
}

/// What a role process is told.
#[derive(Debug, PartialEq, Eq)]
pub struct RoleArgs {
    /// DDS domain used for discovery and traffic.
    pub domain_id: i32,
    /// Unique local transport identity used for self-origin suppression.
    pub origin_id: Option<String>,
    /// DDS reliability policy.
    pub reliability: Reliability,
    /// DDS `KEEP_LAST` history depth.
    pub history_depth: u32,
    /// Authority of this role.
    pub local_authority: String,
    /// Authority of the peer role.
    pub peer_authority: String,
    /// Publish or notification resource ID.
    pub topic_resource_id: u16,
    /// RPC method resource ID.
    pub method_resource_id: u16,
    /// Text sent by active roles and echoed by servers.
    pub payload: String,
    /// Receive and discovery timeout in milliseconds.
    pub timeout_ms: u64,
}

/// Name of a role in its reports.
pub open spec fn role_text(role: Role) -> Seq<char> {
    match role {
        Role::Publisher => "publisher"@,
        Role::Subscriber => "subscriber"@,
        Role::Notifier => "notifier"@,
        Role::Notifyee => "notifyee"@,
        Role::Client => "rpc_client"@,
        Role::Server => "rpc_server"@,
    }
}

/// Name of a role in its reports.
pub fn role_name(role: Role) -> (name: &'static str)
    ensures
        name@ == role_text(role),
{
    match role {
        Role::Publisher => "publisher",
        Role::Subscriber => "subscriber",
        Role::Notifier => "notifier",
        Role::Notifyee => "notifyee",
        Role::Client => "rpc_client",
        Role::Server => "rpc_server",
    }
}

/// The report of a sent payload.
pub fn sent_line(role: Role, payload_len: usize) -> (line: String)
    ensures
        line@ == "FLOW sent_payload_bytes="@ + decimal_text(payload_len as nat) + " role="@
            + role_text(role),
{
    let head = join3("FLOW sent_payload_bytes=", decimal(payload_len as u64).as_str(), " role=");
    join(head.as_str(), role_name(role))
}

/// The report of an observed payload.
pub fn observed_line(role: Role, payload_len: usize) -> (line: String)
    ensures
        line@ == "FLOW observed_payload_bytes="@ + decimal_text(payload_len as nat) + " role="@
            + role_text(role),
{
    let head = join3(
        "FLOW observed_payload_bytes=",
        decimal(payload_len as u64).as_str(),
        " role=",
    );
    join(head.as_str(), role_name(role))
}

/// Configuration of the transport of a role process.
pub fn config(args: &RoleArgs, process_id: u32, sequence: u64) -> (config: DdsConfig)
    ensures
        config@ == (ConfigView {
            origin_id: match args.origin_id {
                Some(origin) => origin@,
                None => origin_text(process_id, sequence),
            },
            qos: DdsQos { reliability: args.reliability, history_depth: args.history_depth },
            ..default_config(args.domain_id, process_id, sequence)
        }),
{
    let mut config = DdsConfig::new(args.domain_id, process_id, sequence);
    if let Some(origin) = &args.origin_id {
        config.origin_id = origin.clone();
    }
    config.qos = DdsQos { reliability: args.reliability, history_depth: args.history_depth };
    config
}

/// How long a role process waits for discovery and for messages.
pub fn timeout(args: &RoleArgs) -> (timeout: Interval)
    ensures
        timeout.length() == args.timeout_ms * 1_000_000,
{
    Interval::from_millis(args.timeout_ms)
}

/// Numbers of the payload formats that the selected wire formats bring along.
#[derive(Clone, Copy, Debug, PartialEq, Eq, Structural)]
pub struct WireFormats {
    /// Number of OMG XCDR version 2.
    pub xcdrv2: i32,
    /// Number of Apache Arrow.
    pub arrow: i32,
    /// Number of OMG IDL.
    pub omg_idl: i32,
}

/// Number of the payload format that an encoding travels under. Raw bytes and
/// protobuf have theirs from the generated protocol, the other encodings from
/// their wire formats.
pub open spec fn payload_format(encoding: Encoding, wires: WireFormats) -> i32 {
    match encoding {
        Encoding::Native => 6,
        Encoding::Protobuf => 2,
        Encoding::Xcdrv2 => wires.xcdrv2,
        Encoding::Arrow => wires.arrow,
        Encoding::OmgIdl => wires.omg_idl,
    }
}

/// Number of the payload format that an encoding travels under.
pub fn encoding(value: Encoding, wires: WireFormats) -> (format: i32)
    ensures
        format == payload_format(value, wires),
{
    match value {
        Encoding::Native => 6,
        Encoding::Protobuf => 2,
        Encoding::Xcdrv2 => wires.xcdrv2,
        Encoding::Arrow => wires.arrow,
        Encoding::OmgIdl => wires.omg_idl,
    }
}

/// An address as the result of an operation, as contracts see it.
pub open spec fn address_view(outcome: Result<Uri, Status>) -> Result<UriView, StatusView> {
    match outcome {
        Ok(uri) => Ok(uri@),
        Err(status) => Err(status@),
    }
}

/// The address of a resource of the role entity at an authority, or the
/// refusal under the given heading.
pub open spec fn entity_address(
    heading: Seq<char>,
    authority: Seq<char>,
    resource_id: u16,
) -> Result<UriView, StatusView> {
    match uri_from_parts(authority, ENTITY_ID, ENTITY_VERSION, resource_id) {
        Ok(uri) => Ok(uri),
        Err(detail) => Err(invalid_view(heading + detail)),
    }
}

/// The plain address of a resource of the role entity.
pub open spec fn entity_uri(authority: Seq<char>, resource_id: u16) -> UriView {
    UriView {
        authority_name: authority,
        ue_id: ENTITY_ID,
        ue_version_major: ENTITY_VERSION as u32,
        resource_id: resource_id as u32,
    }
}

/// Builds the address of a resource of the role entity. A plain authority is
/// always accepted.
fn address(heading: &str, authority: &str, resource_id: u16) -> (built: Result<Uri, Status>)
    ensures
        address_view(built) == entity_address(heading@, authority@, resource_id),
        built is Ok ==> built->Ok_0@.resource_id == resource_id,
        built is Ok ==> reads_back(built->Ok_0@),
        plain_authority(authority@) ==> built is Ok && built->Ok_0@ == entity_uri(
            authority@,
            resource_id,
        ),
{
    match from_parts(authority, ENTITY_ID, ENTITY_VERSION, resource_id) {
        Ok(uri) => Ok(uri),
        Err(detail) => Err(
            fail(StatusCode::InvalidArgument, join(heading, detail.as_str())),
        ),
    }
}

/// The topic of an authority.
pub fn topic(authority: &str, resource_id: u16) -> (built: Result<Uri, Status>)
    ensures
        address_view(built) == entity_address("invalid topic URI: "@, authority@, resource_id),
        built is Ok ==> built->Ok_0@.resource_id == resource_id,
        built is Ok ==> reads_back(built->Ok_0@),
        plain_authority(authority@) ==> built is Ok && built->Ok_0@ == entity_uri(
            authority@,
            resource_id,
        ),
{
    address("invalid topic URI: ", authority, resource_id)
}

/// The endpoint of an authority.
pub fn endpoint(authority: &str) -> (built: Result<Uri, Status>)
    ensures
        address_view(built) == entity_address("invalid endpoint URI: "@, authority@, 0),
        built is Ok ==> built->Ok_0@.resource_id == 0,
        built is Ok ==> reads_back(built->Ok_0@),
        plain_authority(authority@) ==> built is Ok && built->Ok_0@ == entity_uri(authority@, 0),
{
    address("invalid endpoint URI: ", authority, 0)
}

/// A method of an authority.
pub fn method(authority: &str, resource_id: u16) -> (built: Result<Uri, Status>)
    ensures
        address_view(built) == entity_address("invalid method URI: "@, authority@, resource_id),
        built is Ok ==> built->Ok_0@.resource_id == resource_id,
        built is Ok ==> reads_back(built->Ok_0@),
        plain_authority(authority@) ==> built is Ok && built->Ok_0@ == entity_uri(
            authority@,
            resource_id,
        ),
{
    address("invalid method URI: ", authority, resource_id)
}

/// A pair of addresses, the first refusal counting.
pub open spec fn address_pair(
    first: Result<UriView, StatusView>,
    second: Result<UriView, StatusView>,
) -> Result<(UriView, Option<UriView>), StatusView> {
    match first {
        Err(status) => Err(status),
        Ok(first) => match second {
            Err(status) => Err(status),
            Ok(second) => Ok((first, Some(second))),
        },
    }
}

/// The filters that a role listens with.
pub open spec fn role_filters(role: Role, args: RoleArgs) -> Result<
    (UriView, Option<UriView>),
    StatusView,
> {
    let topic = entity_address(
        "invalid topic URI: "@,
        args.peer_authority@,
        args.topic_resource_id,
    );
    let local_endpoint = entity_address("invalid endpoint URI: "@, args.local_authority@, 0);
    match role {
        Role::Subscriber => match topic {
            Ok(topic) => Ok((topic, None)),
            Err(status) => Err(status),
        },
        Role::Notifyee => address_pair(topic, local_endpoint),
        Role::Client => address_pair(
            entity_address(
                "invalid method URI: "@,
                args.peer_authority@,
                args.method_resource_id,
            ),
            local_endpoint,
        ),
        Role::Server => address_pair(
            entity_address("invalid endpoint URI: "@, args.peer_authority@, 0),
            entity_address(
                "invalid method URI: "@,
                args.local_authority@,
                args.method_resource_id,
            ),
        ),
        Role::Publisher => Err(invalid_view("active one-way role has no filter"@)),
        Role::Notifier => Err(invalid_view("active one-way role has no filter"@)),
    }
}

/// Filters as contracts see them.
pub open spec fn filters_view(filters: Result<(Uri, Option<Uri>), Status>) -> Result<
    (UriView, Option<UriView>),
    StatusView,
> {
    match filters {
        Ok((source, sink)) => Ok((source@, maybe_view(sink))),
        Err(status) => Err(status@),
    }
}

/// Joins two addresses, the first refusal counting.
fn pair(first: Result<Uri, Status>, second: Result<Uri, Status>) -> (filters: Result<
    (Uri, Option<Uri>),
    Status,
>)
    ensures
        filters_view(filters) == address_pair(address_view(first), address_view(second)),
{
    match first {
        Err(status) => Err(status),
        Ok(first) => match second {
            Err(status) => Err(status),
            Ok(second) => Ok((first, Some(second))),
        },
    }
}

/// The filters that a role listens with. With resources of the right kind they
/// follow the rule for pairs of filters.
pub fn filters(role: Role, args: &RoleArgs) -> (filters: Result<(Uri, Option<Uri>), Status>)
    ensures
        filters_view(filters) == role_filters(role, *args),
        filters is Ok && args.topic_resource_id >= 0x8000 && 0 < args.method_resource_id < 0x8000
            ==> filter_rule(filters->Ok_0.0@, maybe_view(filters->Ok_0.1)) is None,
{
    let peer = args.peer_authority.as_str();
    let local = args.local_authority.as_str();
    match role {
        Role::Subscriber => match topic(peer, args.topic_resource_id) {
            Ok(topic) => Ok((topic, None)),
            Err(status) => Err(status),
        },
        Role::Notifyee => pair(topic(peer, args.topic_resource_id), endpoint(local)),
        Role::Client => pair(method(peer, args.method_resource_id), endpoint(local)),
        Role::Server => pair(endpoint(peer), method(local, args.method_resource_id)),
        Role::Publisher | Role::Notifier => Err(invalid("active one-way role has no filter")),
    }
}

/// Time to live of a request: the timeout as far as 32 bits reach.
pub open spec fn request_ttl(timeout_ms: u64) -> u32 {
    if timeout_ms <= u32::MAX {
        timeout_ms as u32
    } else {
        u32::MAX
    }
}

/// The content of the message that a role sends first.
pub open spec fn outbound_draft(role: Role, args: RoleArgs, format: i32) -> Result<
    DraftView,
    StatusView,
> {
    let topic = entity_address(
        "invalid topic URI: "@,
        args.local_authority@,
        args.topic_resource_id,
    );
    match role {
        Role::Publisher => match topic {
            Ok(topic) => Ok(publication(topic, format)),
            Err(status) => Err(status),
        },
        Role::Notifier => match address_pair(
            topic,
            entity_address("invalid endpoint URI: "@, args.peer_authority@, 0),
        ) {
            Ok((origin, destination)) => Ok(notification(origin, destination->Some_0, format)),
            Err(status) => Err(status),
        },
        Role::Client => match address_pair(
            entity_address(
                "invalid method URI: "@,
                args.peer_authority@,
                args.method_resource_id,
            ),
            entity_address("invalid endpoint URI: "@, args.local_authority@, 0),
        ) {
            Ok((method, reply_to)) => Ok(
                request(method, reply_to->Some_0, request_ttl(args.timeout_ms), format),
            ),
            Err(status) => Err(status),
        },
        _ => Err(invalid_view("passive role has no outbound request"@)),
    }
}

/// Whether building a message came out as its content asks for, with the
/// refusal of the builder under a heading.
pub open spec fn message_outcome(
    outcome: Result<ClassicMessage, Status>,
    draft: DraftView,
    payload: Seq<u8>,
    heading: Seq<char>,
) -> bool {
    match outcome {
        Ok(message) => built_from(Ok(message@), draft, payload),
        Err(status) => exists|detail: Seq<char>|
            built_from(Err::<MessageView, Seq<char>>(detail), draft, payload) && status@
                == invalid_view(#[trigger] (heading + detail)),
    }
}

/// Puts the refusal of the builder under a heading.
pub fn conclude_build(heading: &str, built: Result<ClassicMessage, String>) -> (outcome: Result<
    ClassicMessage,
    Status,
>)
    ensures
        match built {
            Ok(message) => outcome == Ok::<ClassicMessage, Status>(message),
            Err(detail) => outcome is Err && outcome->Err_0@ == invalid_view(heading@ + detail@),
        },
{
    match built {
        Ok(message) => Ok(message),
        Err(detail) => Err(fail(StatusCode::InvalidArgument, join(heading, detail.as_str()))),
    }
}

/// Builds the message that a role sends first. Its addresses are read back from
/// their texts.
pub fn outbound_message(role: Role, args: &RoleArgs, format: i32) -> (outcome: Result<
    ClassicMessage,
    Status,
>)
    requires
        0 <= format <= 8,
    ensures
        match outbound_draft(role, *args, format) {
            Err(status) => outcome is Err && outcome->Err_0@ == status,
            Ok(draft) => message_outcome(
                outcome,
                draft,
                encode_utf8(args.payload@),
                "build outbound message: "@,
            ),
        },
        outcome is Ok ==> reads_back(outcome->Ok_0@.attributes.source->Some_0),
        outcome is Ok && outcome->Ok_0@.attributes.sink is Some ==> reads_back(
            outcome->Ok_0@.attributes.sink->Some_0,
        ),
{
    let payload = copy_bytes(args.payload.as_str().as_bytes());
    let peer = args.peer_authority.as_str();
    let local = args.local_authority.as_str();
    let built = match role {
        Role::Publisher => match topic(local, args.topic_resource_id) {
            Err(status) => {
                return Err(status);
            },
            Ok(topic) => build_publication(&topic, payload, format),
        },
        Role::Notifier => match (topic(local, args.topic_resource_id), endpoint(peer)) {
            (Err(status), _) => {
                return Err(status);
            },
            (_, Err(status)) => {
                return Err(status);
            },
            (Ok(origin), Ok(destination)) => {
                build_notification(&origin, &destination, payload, format)
            },
        },
        Role::Client => match (method(peer, args.method_resource_id), endpoint(local)) {
            (Err(status), _) => {
                return Err(status);
            },
            (_, Err(status)) => {
                return Err(status);
            },
            (Ok(method), Ok(reply_to)) => {
                let ttl: u32 = if args.timeout_ms <= 0xFFFF_FFFF {
                    args.timeout_ms as u32
                } else {
                    0xFFFF_FFFF
                };
                build_request(&method, &reply_to, ttl, payload, format)
            },
        },
        _ => {
            return Err(invalid("passive role has no outbound request"));
        },
    };
    conclude_build("build outbound message: ", built)
}

/// Builds the answer of a server: it goes back to where the request came from,
/// from the method that was invoked, with the payload of the request.
pub fn response_message(request: &ClassicMessage, format: i32) -> (outcome: Result<
    ClassicMessage,
    Status,
>)
    requires
        attributes_valid(request@.attributes),
        0 <= format <= 8,
    ensures
        match request@.attributes.sink {
            None => outcome is Err && outcome->Err_0@ == invalid_view("request has no sink"@),
            Some(method) => message_outcome(
                outcome,
                response(
                    request@.attributes.source->Some_0,
                    request@.attributes.id->Some_0,
                    method,
                    format,
                ),
                content(request@.payload),
                "build response message: "@,
            ),
        },
{
    let attributes = &request.attributes;
    let payload = match &request.payload {
        Some(bytes) => copy_bytes(bytes.as_slice()),
        None => Vec::new(),
    };
    match (&attributes.sink, &attributes.source, attributes.id) {
        (Some(method), Some(reply_to), Some(request_id)) => conclude_build(
            "build response message: ",
            build_response(reply_to, request_id, method, payload, format),
        ),
        _ => Err(invalid("request has no sink")),
    }
}

/// Where the answer to a frame comes from, where it goes to, and which request
/// it belongs to.
#[derive(Debug, PartialEq, Eq)]
pub struct ResponseRoute {
    /// The invoked method.
    pub source: Uri,
    /// The address for the reply.
    pub sink: Uri,
    /// Identifier of the request.
    pub request_id: Uuid,
}

/// Decides where the answer to a request frame goes.
pub fn response_metadata(request: &FrameMetadata) -> (route: Result<ResponseRoute, Status>)
    ensures
        match request@.sink {
            None => route is Err && route->Err_0@ == invalid_view("request metadata has no sink"@),
            Some(method) => route is Ok && route->Ok_0.source@ == method && route->Ok_0.sink@
                == request@.source && route->Ok_0.request_id == request@.id,
        },
{
    match &request.sink {
        None => Err(invalid("request metadata has no sink")),
        Some(method) => Ok(
            ResponseRoute {
                source: method.clone(),
                sink: request.source.clone(),
                request_id: request.id,
            },
        ),
    }
}

/// Builds the message of the answer to a request frame.
pub fn response_frame(route: &ResponseRoute, payload: &[u8], format: i32) -> (outcome: Result<
    ClassicMessage,
    Status,
>)
    requires
        0 <= format <= 8,
    ensures
        message_outcome(
            outcome,
            response(route.sink@, route.request_id, route.source@, format),
            payload@,
            "build response metadata: "@,
        ),
{
    conclude_build(
        "build response metadata: ",
        build_response(&route.sink, route.request_id, &route.source, copy_bytes(payload), format),
    )
}

/// The payload encoding under which a message is projected to a frame: that
/// of its attributes if it has a payload, none otherwise.
pub open spec fn projected_encoding(message: MessageView) -> Result<Option<i32>, StatusView> {
    if message.payload is None {
        Ok(None)
    } else if message.attributes.payload_format == 0 {
        Err(invalid_view("payload-bearing message has no encoding"@))
    } else {
        Ok(Some(message.attributes.payload_format))
    }
}

/// Decides the payload encoding under which a message is projected to a frame.
pub fn frame_encoding(message: &ClassicMessage) -> (encoding: Result<Option<i32>, Status>)
    ensures
        match projected_encoding(message@) {
            Ok(format) => encoding == Ok::<Option<i32>, Status>(format),
            Err(status) => encoding is Err && encoding->Err_0@ == status,
        },
{
    match &message.payload {
        None => Ok(None),
        Some(_) => if message.attributes.payload_format == 0 {
            Err(invalid("payload-bearing message has no encoding"))
        } else {
            Ok(Some(message.attributes.payload_format))
        },
    }
}

/// The frame metadata that a message describes, if its attributes identify it
/// and its source. The encoding is the one that it is projected under, so there
/// is none without a payload.
pub open spec fn described_metadata(message: MessageView) -> Option<MetadataView> {
    let attributes = message.attributes;
    if attributes.id is Some && attributes.source is Some {
        Some(
            MetadataView {
                id: attributes.id->Some_0,
                source: attributes.source->Some_0,
                sink: attributes.sink,
                payload_encoding: match projected_encoding(message) {
                    Ok(encoding) => encoding,
                    Err(_) => None,
                },
            },
        )
    } else {
        None
    }
}

/// Reads frame metadata off a message.
pub fn frame_metadata(message: &ClassicMessage) -> (metadata: Option<FrameMetadata>)
    ensures
        (match metadata {
            Some(metadata) => Some(metadata@),
            None => None,
        }) == described_metadata(message@),
{
    let attributes = &message.attributes;
    match (attributes.id, &attributes.source) {
        (Some(id), Some(source)) => {
            let payload_encoding = match frame_encoding(message) {
                Ok(encoding) => encoding,
                Err(_) => None,
            };
            let sink = copy_maybe(attributes.sink.as_ref());
            Some(FrameMetadata { id, source: source.clone(), sink, payload_encoding })
        },
        _ => None,
    }
}

/// The frame of a message, given what its metadata projects to and why the
/// frame is refused, if it is. A payload without an encoding is refused before
/// anything is projected.
pub open spec fn projected_frame(
    message: MessageView,
    projected: Result<MetadataView, Seq<char>>,
    refusal: Option<Seq<char>>,
) -> Result<FrameView, StatusView> {
    match projected_encoding(message) {
        Err(status) => Err(status),
        Ok(_) => match projected {
            Err(detail) => Err(invalid_view("project frame metadata: "@ + detail)),
            Ok(metadata) => match refusal {
                Some(detail) => Err(invalid_view("build owned frame: "@ + detail)),
                None => Ok(FrameView { metadata, payload: message.payload }),
            },
        },
    }
}

/// Builds the frame of a message from what its metadata projected to. A payload
/// without an encoding is refused.
pub fn frame_from_message(
    message: ClassicMessage,
    projected: Result<FrameMetadata, String>,
    refusal: Option<String>,
) -> (outcome: Result<OwnedFrame, Status>)
    ensures
        (match outcome {
            Ok(frame) => Ok::<FrameView, StatusView>(frame@),
            Err(status) => Err(status@),
        }) == projected_frame(
            message@,
            metadata_result(projected),
            crate::attributes::maybe_text(refusal),
        ),
        projected_encoding(message@) is Err ==> outcome is Err && outcome->Err_0@
            == projected_encoding(message@)->Err_0,
{
    if let Err(status) = frame_encoding(&message) {
        return Err(status);
    }
    match projected {
        Err(detail) => Err(
            fail(StatusCode::InvalidArgument, join("project frame metadata: ", detail.as_str())),
        ),
        Ok(metadata) => match refusal {
            Some(detail) => Err(
                fail(StatusCode::InvalidArgument, join("build owned frame: ", detail.as_str())),
            ),
            None => Ok(OwnedFrame { metadata, payload: message.payload }),
        },
    }
}

/// Heading of a refused answer of a family.
pub open spec fn answer_heading(family: Family) -> Seq<char> {
    match family {
        Family::Classic => "build response message: "@,
        Family::Owned => "build owned response: "@,
        Family::ZeroCopy => "build copy-minimized response: "@,
    }
}

/// Builds the frame of an answer from its metadata and the payload of the
/// request, unless the frame is refused.
pub fn answer_frame(
    family: Family,
    metadata: FrameMetadata,
    payload: &[u8],
    refusal: Option<String>,
) -> (outcome: Result<OwnedFrame, Status>)
    ensures
        match refusal {
            Some(detail) => outcome is Err && outcome->Err_0@ == invalid_view(
                answer_heading(family) + detail@,
            ),
            None => outcome is Ok && outcome->Ok_0@ == (FrameView {
                metadata: metadata@,
                payload: Some(payload@),
            }),
        },
{
    match refusal {
        Some(detail) => {
            let heading = match family {
                Family::Classic => "build response message: ",
                Family::Owned => "build owned response: ",
                Family::ZeroCopy => "build copy-minimized response: ",
            };
            Err(fail(StatusCode::InvalidArgument, join(heading, detail.as_str())))
        },
        None => Ok(OwnedFrame { metadata, payload: Some(copy_bytes(payload)) }),
    }
}

/// One thing that a role process does.
#[derive(Clone, Copy, Debug, PartialEq, Eq, Structural)]
pub enum RoleStep {
    /// Wait until the given number of readers is matched.
    AwaitReaders(usize),
    /// Register the listener of the role.
    Register,
    /// Report that the listener is registered.
    AnnounceReady,
    /// Send the first message.
    SendOutbound,
    /// Wait for a message.
    Receive,
    /// Answer the received message.
    SendResponse,
    /// Report what was sent.
    ReportSent,
    /// Report what was received.
    ReportObserved,
}

/// What a role process does, in order.
pub open spec fn script(role: Role, family: Family) -> Seq<RoleStep> {
    match (role, family) {
        (Role::Publisher, _) => seq![
            RoleStep::AwaitReaders(2),
            RoleStep::SendOutbound,
            RoleStep::ReportSent,
        ],
        (Role::Notifier, _) => seq![
            RoleStep::AwaitReaders(2),
            RoleStep::SendOutbound,
            RoleStep::ReportSent,
        ],
        (Role::Client, Family::ZeroCopy) => seq![
            RoleStep::AwaitReaders(2),
            RoleStep::Register,
            RoleStep::AnnounceReady,
            RoleStep::SendOutbound,
            RoleStep::Receive,
            RoleStep::ReportObserved,
        ],
        (Role::Client, _) => seq![
            RoleStep::Register,
            RoleStep::AnnounceReady,
            RoleStep::AwaitReaders(2),
            RoleStep::SendOutbound,
            RoleStep::Receive,
            RoleStep::ReportObserved,
        ],
        (Role::Server, Family::ZeroCopy) => seq![
            RoleStep::AwaitReaders(1),
            RoleStep::Register,
            RoleStep::AnnounceReady,
            RoleStep::Receive,
            RoleStep::SendResponse,
            RoleStep::ReportObserved,
        ],
        (Role::Server, _) => seq![
            RoleStep::Register,
            RoleStep::AnnounceReady,
            RoleStep::Receive,
            RoleStep::AwaitReaders(2),
            RoleStep::SendResponse,
            RoleStep::ReportObserved,
        ],
        (_, Family::ZeroCopy) => seq![
            RoleStep::AwaitReaders(1),
            RoleStep::Register,
            RoleStep::AnnounceReady,
            RoleStep::Receive,
            RoleStep::ReportObserved,
        ],
        _ => seq![
            RoleStep::Register,
            RoleStep::AnnounceReady,
            RoleStep::Receive,
            RoleStep::ReportObserved,
        ],
    }
}

/// Plans what a role process does.
pub fn role_script(role: Role, family: Family) -> (steps: Vec<RoleStep>)
    ensures
        steps@ == script(role, family),
{
    let zero_copy = match family {
        Family::ZeroCopy => true,
        _ => false,
    };
    let mut steps: Vec<RoleStep> = Vec::new();
    match role {
        Role::Publisher | Role::Notifier => {
            steps.push(RoleStep::AwaitReaders(2));
            steps.push(RoleStep::SendOutbound);
            steps.push(RoleStep::ReportSent);
        },
        _ => {
            let client = match role {
                Role::Client => true,
                _ => false,
            };
            let server = match role {
                Role::Server => true,
                _ => false,
            };
            if zero_copy {
                steps.push(
                    RoleStep::AwaitReaders(
                        if client {
                            2
                        } else {
                            1
                        },
                    ),
                );
            }
            steps.push(RoleStep::Register);
            steps.push(RoleStep::AnnounceReady);
            if client {
                if !zero_copy {
                    steps.push(RoleStep::AwaitReaders(2));
                }
                steps.push(RoleStep::SendOutbound);
            }
            steps.push(RoleStep::Receive);
            if server {
                if !zero_copy {
                    steps.push(RoleStep::AwaitReaders(2));
                }
                steps.push(RoleStep::SendResponse);
            }
            steps.push(RoleStep::ReportObserved);
        },
    }
    assert(steps@ =~= script(role, family));
    steps
}

/// The line that reports a registered listener.
pub const READY_LINE: &'static str = "READY listener_registered";

/// What a role process of a family waits for.
pub open spec fn awaited_text(family: Family) -> Seq<char> {
    match family {
        Family::Classic => "classic message"@,
        Family::Owned => "owned frame"@,
        Family::ZeroCopy => "copy-minimized frame"@,
    }
}

/// Why a wait for a message ended without one.
#[derive(Clone, Copy, Debug, PartialEq, Eq, Structural)]
pub enum ReceiveFailure {
    /// The time was up.
    TimedOut,
    /// Nobody can send any more.
    ChannelClosed,
}

/// The status of a wait that ended without a message.
pub fn receive_status(family: Family, failure: ReceiveFailure) -> (status: Status)
    ensures
        status@ == match failure {
            ReceiveFailure::TimedOut => StatusView {
                code: StatusCode::DeadlineExceeded,
                message: "timed out waiting for "@ + awaited_text(family),
            },
            ReceiveFailure::ChannelClosed => StatusView {
                code: StatusCode::Unavailable,
                message: awaited_text(family) + " channel closed"@,
            },
        },
{
    let what = match family {
        Family::Classic => "classic message",
        Family::Owned => "owned frame",
        Family::ZeroCopy => "copy-minimized frame",
    };
    match failure {
        ReceiveFailure::TimedOut => fail(
            StatusCode::DeadlineExceeded,
            join("timed out waiting for ", what),
        ),
        ReceiveFailure::ChannelClosed => fail(
            StatusCode::Unavailable,
            join(what, " channel closed"),
        ),
    }
}

/// Position of a step in a plan.
pub open spec fn occurs_at(steps: Seq<RoleStep>, step: RoleStep, at: int) -> bool {
    0 <= at < steps.len() && steps[at] == step
}

/// A role that receives has announced its listener before; a role that sends
/// has waited for a remote reader before its first message; a server answers
/// only what it received; and every role ends with a report.
pub proof fn law_roles_keep_their_order(role: Role, family: Family, at: int)
    ensures
        occurs_at(script(role, family), RoleStep::Receive, at) ==> exists|before: int|
            before < at && #[trigger] occurs_at(
                script(role, family),
                RoleStep::AnnounceReady,
                before,
            ),
        occurs_at(script(role, family), RoleStep::SendOutbound, at) ==> exists|before: int|
            before < at && #[trigger] occurs_at(
                script(role, family),
                RoleStep::AwaitReaders(2),
                before,
            ),
        occurs_at(script(role, family), RoleStep::SendResponse, at) ==> exists|before: int|
            before < at && #[trigger] occurs_at(script(role, family), RoleStep::Receive, before),
        script(role, family).last() == RoleStep::ReportSent || script(role, family).last()
            == RoleStep::ReportObserved,
{
    let steps = script(role, family);
    assert(occurs_at(steps, steps[0], 0));
    assert(occurs_at(steps, steps[1], 1));
    assert(occurs_at(steps, steps[2], 2));
    if steps.len() > 3 {
        assert(occurs_at(steps, steps[3], 3));
    }
}

/// Partners fit together when each calls the other its peer: what a publisher,
/// a notifier or a client sends is what the filters of its partner name.
pub proof fn law_partners_agree(active: RoleArgs, passive: RoleArgs, format: i32)
    requires
        active.local_authority@ == passive.peer_authority@,
        active.peer_authority@ == passive.local_authority@,
        active.topic_resource_id == passive.topic_resource_id,
        active.method_resource_id == passive.method_resource_id,
    ensures
        outbound_draft(Role::Publisher, active, format) is Ok ==> role_filters(
            Role::Subscriber,
            passive,
        ) == Ok::<(UriView, Option<UriView>), StatusView>(
            (
                outbound_draft(Role::Publisher, active, format)->Ok_0.source,
                outbound_draft(Role::Publisher, active, format)->Ok_0.sink,
            ),
        ),
        outbound_draft(Role::Notifier, active, format) is Ok ==> role_filters(
            Role::Notifyee,
            passive,
        ) == Ok::<(UriView, Option<UriView>), StatusView>(
            (
                outbound_draft(Role::Notifier, active, format)->Ok_0.source,
                outbound_draft(Role::Notifier, active, format)->Ok_0.sink,
            ),
        ),
        outbound_draft(Role::Client, active, format) is Ok ==> role_filters(Role::Server, passive)
            == Ok::<(UriView, Option<UriView>), StatusView>(
            (
                outbound_draft(Role::Client, active, format)->Ok_0.source,
                outbound_draft(Role::Client, active, format)->Ok_0.sink,
            ),
        ),
{
}

/// A frame that is projected from the metadata of its own message has an
/// encoding exactly when it has a payload, and then the one of the message; it
/// is refused exactly when there is a payload without an encoding.
pub proof fn law_frames_carry_their_encoding(message: MessageView)
    requires
        described_metadata(message) is Some,
    ensures
        ({
            let frame = projected_frame(message, Ok(described_metadata(message)->Some_0), None);
            &&& frame is Err <==> message.payload is Some && message.attributes.payload_format == 0
            &&& frame is Ok ==> frame->Ok_0.payload == message.payload
            &&& frame is Ok ==> frame->Ok_0.metadata.payload_encoding == if message.payload
                is Some {
                Some(message.attributes.payload_format)
            } else {
                None
            }
        }),
{
}

/// The answer to a request is what the filters of the client name.
pub proof fn law_response_reaches_client(client: RoleArgs, format: i32, request_id: Uuid)
    requires
        outbound_draft(Role::Client, client, format) is Ok,
    ensures
        ({
            let sent = outbound_draft(Role::Client, client, format)->Ok_0;
            let answer = response(sent.source, request_id, sent.sink->Some_0, format);
            role_filters(Role::Client, client) == Ok::<(UriView, Option<UriView>), StatusView>(
                (answer.source, answer.sink),
            )
        }),
{
}

/// Every role is reported under its own name.
pub proof fn law_roles_have_their_names(role: Role)
    ensures
        role is Publisher ==> role_text(role) == "publisher"@,
        role is Subscriber ==> role_text(role) == "subscriber"@,
        role is Notifier ==> role_text(role) == "notifier"@,
        role is Notifyee ==> role_text(role) == "notifyee"@,
        role is Client ==> role_text(role) == "rpc_client"@,
        role is Server ==> role_text(role) == "rpc_server"@,
{
}

/// Raw bytes and protobuf travel under the numbers of the generated protocol,
/// every other encoding under the number of its own wire format.
pub proof fn law_encodings_have_their_formats(encoding: Encoding, wires: WireFormats)
    ensures
        encoding is Native ==> payload_format(encoding, wires) == 6,
        encoding is Protobuf ==> payload_format(encoding, wires) == 2,
        encoding is Xcdrv2 ==> payload_format(encoding, wires) == wires.xcdrv2,
        encoding is Arrow ==> payload_format(encoding, wires) == wires.arrow,
        encoding is OmgIdl ==> payload_format(encoding, wires) == wires.omg_idl,
{
}

/// An address of a role belongs to the one role entity at the given authority;
/// a refused authority is an invalid argument under the given heading.
pub proof fn law_role_addresses_belong_to_one_entity(
    heading: Seq<char>,
    authority: Seq<char>,
    resource_id: u16,
)
    ensures
        ({
            let built = uri_from_parts(authority, 0x5BA0, 1, resource_id);
            let address = entity_address(heading, authority, resource_id);
            &&& built is Ok ==> address == Ok::<UriView, StatusView>(built->Ok_0)
            &&& built is Err ==> address is Err && address->Err_0.code
                == StatusCode::InvalidArgument && address->Err_0.message == heading + built->Err_0
        }),
        ({
            let plain = entity_uri(authority, resource_id);
            &&& plain.authority_name == authority
            &&& plain.ue_id == 0x5BA0
            &&& plain.ue_version_major == 1
            &&& plain.resource_id == resource_id
        }),
{
}

/// Of two addresses the first refusal counts, and two accepted ones are a
/// source and a sink, in this order.
pub proof fn law_pairs_keep_their_order(
    first: Result<UriView, StatusView>,
    second: Result<UriView, StatusView>,
)
    ensures
        first is Ok && second is Ok ==> address_pair(first, second) == Ok::<
            (UriView, Option<UriView>),
            StatusView,
        >((first->Ok_0, Some(second->Ok_0))),
        first is Err ==> address_pair(first, second) == Err::<
            (UriView, Option<UriView>),
            StatusView,
        >(first->Err_0),
        first is Ok && second is Err ==> address_pair(first, second) == Err::<
            (UriView, Option<UriView>),
            StatusView,
        >(second->Err_0),
{
}

/// A subscriber listens to the topic of its peer, a notifyee to that topic
/// addressed to its own endpoint, a client to the method of its peer addressed
/// to its own endpoint, and a server to the endpoint of its peer addressed to
/// its own method. One-way senders listen to nothing.
pub proof fn law_what_roles_listen_to(role: Role, args: RoleArgs)
    ensures
        ({
            let (peer, local) = (args.peer_authority@, args.local_authority@);
            let peer_topic = uri_from_parts(peer, 0x5BA0, 1, args.topic_resource_id);
            let peer_method = uri_from_parts(peer, 0x5BA0, 1, args.method_resource_id);
            let peer_endpoint = uri_from_parts(peer, 0x5BA0, 1, 0);
            let local_method = uri_from_parts(local, 0x5BA0, 1, args.method_resource_id);
            let local_endpoint = uri_from_parts(local, 0x5BA0, 1, 0);
            let filters = role_filters(role, args);
            &&& role is Subscriber && peer_topic is Ok ==> filters == Ok::<
                (UriView, Option<UriView>),
                StatusView,
            >((peer_topic->Ok_0, None))
            &&& role is Notifyee && peer_topic is Ok && local_endpoint is Ok ==> filters == Ok::<
                (UriView, Option<UriView>),
                StatusView,
            >((peer_topic->Ok_0, Some(local_endpoint->Ok_0)))
            &&& role is Client && peer_method is Ok && local_endpoint is Ok ==> filters == Ok::<
                (UriView, Option<UriView>),
                StatusView,
            >((peer_method->Ok_0, Some(local_endpoint->Ok_0)))
            &&& role is Server && peer_endpoint is Ok && local_method is Ok ==> filters == Ok::<
                (UriView, Option<UriView>),
                StatusView,
            >((peer_endpoint->Ok_0, Some(local_method->Ok_0)))
            &&& (role is Subscriber || role is Notifyee) && peer_topic is Err ==> filters == Err::<
                (UriView, Option<UriView>),
                StatusView,
            >(invalid_view("invalid topic URI: "@ + peer_topic->Err_0))
            &&& role is Client && peer_method is Err ==> filters == Err::<
                (UriView, Option<UriView>),
                StatusView,
            >(invalid_view("invalid method URI: "@ + peer_method->Err_0))
            &&& role is Server && peer_endpoint is Err ==> filters == Err::<
                (UriView, Option<UriView>),
                StatusView,
            >(invalid_view("invalid endpoint URI: "@ + peer_endpoint->Err_0))
            &&& role is Notifyee && peer_topic is Ok && local_endpoint is Err ==> filters == Err::<
                (UriView, Option<UriView>),
                StatusView,
            >(invalid_view("invalid endpoint URI: "@ + local_endpoint->Err_0))
            &&& role is Client && peer_method is Ok && local_endpoint is Err ==> filters == Err::<
                (UriView, Option<UriView>),
                StatusView,
            >(invalid_view("invalid endpoint URI: "@ + local_endpoint->Err_0))
            &&& role is Server && peer_endpoint is Ok && local_method is Err ==> filters == Err::<
                (UriView, Option<UriView>),
                StatusView,
            >(invalid_view("invalid method URI: "@ + local_method->Err_0))
            &&& role is Publisher || role is Notifier ==> filters == Err::<
                (UriView, Option<UriView>),
                StatusView,
            >(invalid_view("active one-way role has no filter"@))
        }),
{
}

/// A publisher publishes under its own topic, a notifier sends from its own
/// topic to the endpoint of its peer, and a client asks the method of its peer
/// from its own endpoint, for as long as its timeout in milliseconds says as
/// far as 32 bits reach. Roles that wait for others send nothing by themselves.
pub proof fn law_what_roles_send(role: Role, args: RoleArgs, format: i32)
    ensures
        ({
            let (peer, local) = (args.peer_authority@, args.local_authority@);
            let own_topic = uri_from_parts(local, 0x5BA0, 1, args.topic_resource_id);
            let peer_endpoint = uri_from_parts(peer, 0x5BA0, 1, 0);
            let peer_method = uri_from_parts(peer, 0x5BA0, 1, args.method_resource_id);
            let own_endpoint = uri_from_parts(local, 0x5BA0, 1, 0);
            let sent = outbound_draft(role, args, format);
            &&& role is Publisher && own_topic is Ok ==> sent is Ok && sent->Ok_0.message_type == 1
                && sent->Ok_0.source == own_topic->Ok_0 && sent->Ok_0.sink is None
            &&& role is Notifier && own_topic is Ok && peer_endpoint is Ok ==> sent is Ok
                && sent->Ok_0.message_type == 4 && sent->Ok_0.source == own_topic->Ok_0
                && sent->Ok_0.sink == Some(peer_endpoint->Ok_0)
            &&& role is Client && peer_method is Ok && own_endpoint is Ok ==> sent is Ok
                && sent->Ok_0.message_type == 2 && sent->Ok_0.source == own_endpoint->Ok_0
                && sent->Ok_0.sink == Some(peer_method->Ok_0) && sent->Ok_0.ttl is Some && (
            args.timeout_ms <= 0xFFFF_FFFF ==> sent->Ok_0.ttl->Some_0 == args.timeout_ms) && (
            args.timeout_ms > 0xFFFF_FFFF ==> sent->Ok_0.ttl->Some_0 == 0xFFFF_FFFF)
            &&& sent is Ok ==> sent->Ok_0.payload_format == format
            &&& (role is Publisher || role is Notifier) && own_topic is Err ==> sent == Err::<
                DraftView,
                StatusView,
            >(invalid_view("invalid topic URI: "@ + own_topic->Err_0))
            &&& role is Notifier && own_topic is Ok && peer_endpoint is Err ==> sent == Err::<
                DraftView,
                StatusView,
            >(invalid_view("invalid endpoint URI: "@ + peer_endpoint->Err_0))
            &&& role is Client && peer_method is Err ==> sent == Err::<DraftView, StatusView>(
                invalid_view("invalid method URI: "@ + peer_method->Err_0),
            )
            &&& role is Client && peer_method is Ok && own_endpoint is Err ==> sent == Err::<
                DraftView,
                StatusView,
            >(invalid_view("invalid endpoint URI: "@ + own_endpoint->Err_0))
            &&& role is Subscriber || role is Notifyee || role is Server ==> sent == Err::<
                DraftView,
                StatusView,
            >(invalid_view("passive role has no outbound request"@))
        }),
        request_ttl(args.timeout_ms) <= args.timeout_ms,
        args.timeout_ms <= 0xFFFF_FFFF ==> request_ttl(args.timeout_ms) == args.timeout_ms,
{
}

/// A message that a role builds has the addresses, the kind and the payload
/// that were asked for, and is built exactly for valid content; one that cannot
/// be built is an invalid argument whose message gives heading and reason.
pub proof fn law_built_role_messages_keep_their_content(
    outcome: Result<ClassicMessage, Status>,
    draft: DraftView,
    payload: Seq<u8>,
    heading: Seq<char>,
)
    requires
        message_outcome(outcome, draft, payload, heading),
    ensures
        outcome matches Ok(message) ==> {
            &&& message@.payload == Some(payload)
            &&& message@.attributes.message_type == draft.message_type
            &&& message@.attributes.source == Some(draft.source)
            &&& message@.attributes.sink == draft.sink
            &&& message@.attributes.reqid == draft.reqid
            &&& message@.attributes.ttl == draft.ttl
            &&& message@.attributes.payload_format == draft.payload_format
            &&& attributes_valid(message@.attributes)
        },
        outcome matches Err(status) ==> status@.code == StatusCode::InvalidArgument
            && status@.message.len() >= heading.len() && status@.message.take(heading.len() as int)
            == heading,
        outcome is Ok <==> attributes_valid(drafted(draft, sample_id())),
        outcome matches Err(status) ==> exists|id: Uuid|
            uuid_valid(Some(id)) && status@.message == heading + (
            "Builder state is not consistent with message type: "@ + (
            #[trigger] attributes_verdict(drafted(draft, id)))->Some_0),
{
    match outcome {
        Ok(_) => {},
        Err(status) => {
            let detail = choose|detail: Seq<char>|
                built_from(Err::<MessageView, Seq<char>>(detail), draft, payload) && status@
                    == invalid_view(#[trigger] (heading + detail));
            assert((heading + detail).take(heading.len() as int) =~= heading);
        },
    }
}

/// A message is projected under the encoding of its attributes exactly if it
/// has a payload; then a missing encoding is an invalid argument.
pub proof fn law_payloads_need_an_encoding(message: MessageView)
    ensures
        message.payload is None ==> projected_encoding(message) == Ok::<Option<i32>, StatusView>(
            None,
        ),
        message.payload is Some && message.attributes.payload_format != 0 ==> projected_encoding(
            message,
        ) == Ok::<Option<i32>, StatusView>(Some(message.attributes.payload_format)),
        message.payload is Some && message.attributes.payload_format == 0 ==> projected_encoding(
            message,
        ) == Err::<Option<i32>, StatusView>(
            StatusView {
                code: StatusCode::InvalidArgument,
                message: "payload-bearing message has no encoding"@,
            },
        ),
{
}

/// The metadata of a message is there exactly if the message has an identifier
/// and a source, and repeats these and the sink.
pub proof fn law_metadata_repeats_the_message(message: MessageView)
    ensures
        described_metadata(message) is Some <==> message.attributes.id is Some
            && message.attributes.source is Some,
        described_metadata(message) matches Some(metadata) ==> Some(metadata.id)
            == message.attributes.id && Some(metadata.source) == message.attributes.source
            && metadata.sink == message.attributes.sink && (message.payload is None
            ==> metadata.payload_encoding is None) && (message.payload is Some
            && message.attributes.payload_format != 0 ==> metadata.payload_encoding == Some(
            message.attributes.payload_format,
        )),
{
}

/// A frame is made of the projected metadata and the payload of the message,
/// byte for byte. The first refusal counts: a payload without an encoding, then
/// metadata that does not project, then the frame itself.
pub proof fn law_frames_are_projected_whole(
    message: MessageView,
    projected: Result<MetadataView, Seq<char>>,
    refusal: Option<Seq<char>>,
)
    ensures
        ({
            let frame = projected_frame(message, projected, refusal);
            let unencoded = message.payload is Some && message.attributes.payload_format == 0;
            &&& frame is Ok <==> !unencoded && projected is Ok && refusal is None
            &&& frame is Ok ==> frame->Ok_0.metadata == projected->Ok_0
            &&& frame is Ok ==> frame->Ok_0.payload == message.payload
            &&& frame is Err ==> frame->Err_0.code == StatusCode::InvalidArgument
            &&& unencoded ==> frame->Err_0.message == "payload-bearing message has no encoding"@
            &&& !unencoded && projected is Err ==> frame->Err_0.message
                == "project frame metadata: "@ + projected->Err_0
            &&& !unencoded && projected is Ok && refusal is Some ==> frame->Err_0.message
                == "build owned frame: "@ + refusal->Some_0
        }),
{
}

/// Refused answers and waits without a message name what their family deals in.
pub proof fn law_families_name_what_they_deal_in(family: Family)
    ensures
        family is Classic ==> answer_heading(family) == "build response message: "@
            && awaited_text(family) == "classic message"@,
        family is Owned ==> answer_heading(family) == "build owned response: "@ && awaited_text(
            family,
        ) == "owned frame"@,
        family is ZeroCopy ==> answer_heading(family) == "build copy-minimized response: "@
            && awaited_text(family) == "copy-minimized frame"@,
{
}

/// A listener is registered before it is announced, and announced before
/// anything is received, in every role and family; the roles that listen do all
/// three exactly once, and the one-way senders none of them.
pub proof fn law_listeners_are_registered_before_use(role: Role, family: Family)
    ensures
        ({
            let steps = script(role, family);
            let one_way = role is Publisher || role is Notifier;
            &&& !one_way ==> exists|registered: int, announced: int, received: int|
                0 <= registered < announced < received < steps.len() && #[trigger] steps[registered]
                    == RoleStep::Register && #[trigger] steps[announced] == RoleStep::AnnounceReady
                    && #[trigger] steps[received] == RoleStep::Receive
            &&& forall|i: int, j: int|
                0 <= i < j < steps.len() && #[trigger] steps[i] == #[trigger] steps[j]
                    ==> steps[i] is AwaitReaders
            &&& one_way ==> forall|i: int|
                0 <= i < steps.len() ==> #[trigger] steps[i] != RoleStep::Register && steps[i]
                    != RoleStep::AnnounceReady && steps[i] != RoleStep::Receive
        }),
{
    let steps = script(role, family);
    if !(role is Publisher || role is Notifier) {
        let first: int = if family is ZeroCopy {
            1
        } else {
            0
        };
        let received: int = if role is Client {
            4
        } else {
            first + 2
        };
        assert(steps[first] == RoleStep::Register);
        assert(steps[first + 1] == RoleStep::AnnounceReady);
        assert(steps[received] == RoleStep::Receive);
    }
}

/// Publishers, notifiers and clients send their message, after they waited for
/// a remote reader and before they report; a client sends only once its
/// listener is announced, and receives only after it sent. Nobody else sends a
/// message of its own, and nobody but a server answers, which it does after it
/// received and before it reports.
pub proof fn law_messages_are_sent_before_the_report(role: Role, family: Family)
    ensures
        ({
            let steps = script(role, family);
            let active = role is Publisher || role is Notifier || role is Client;
            &&& active ==> exists|waited: int, sent: int|
                0 <= waited < sent < steps.len() - 1 && #[trigger] steps[waited]
                    == RoleStep::AwaitReaders(2) && #[trigger] steps[sent] == RoleStep::SendOutbound
            &&& !active ==> forall|i: int|
                0 <= i < steps.len() ==> #[trigger] steps[i] != RoleStep::SendOutbound
            &&& role is Client ==> exists|announced: int, sent: int, received: int|
                0 <= announced < sent < received < steps.len() && #[trigger] steps[announced]
                    == RoleStep::AnnounceReady && #[trigger] steps[sent] == RoleStep::SendOutbound
                    && #[trigger] steps[received] == RoleStep::Receive
            &&& role is Server ==> exists|received: int, answered: int|
                0 <= received < answered < steps.len() - 1 && #[trigger] steps[received]
                    == RoleStep::Receive && #[trigger] steps[answered] == RoleStep::SendResponse
            &&& role !is Server ==> forall|i: int|
                0 <= i < steps.len() ==> #[trigger] steps[i] != RoleStep::SendResponse
        }),
{
    let steps = script(role, family);
    if role is Publisher || role is Notifier {
        assert(steps[0] == RoleStep::AwaitReaders(2));
        assert(steps[1] == RoleStep::SendOutbound);
    }
    if role is Client {
        if family is ZeroCopy {
            assert(steps[0] == RoleStep::AwaitReaders(2));
            assert(steps[2] == RoleStep::AnnounceReady);
        } else {
            assert(steps[1] == RoleStep::AnnounceReady);
            assert(steps[2] == RoleStep::AwaitReaders(2));
        }
        assert(steps[3] == RoleStep::SendOutbound);
        assert(steps[4] == RoleStep::Receive);
    }
    if role is Server {
        if family is ZeroCopy {
            assert(steps[3] == RoleStep::Receive);
        } else {
            assert(steps[2] == RoleStep::Receive);
        }
        assert(steps[4] == RoleStep::SendResponse);
    }
}

/// Every plan ends with its only report: one-way senders report what they
/// sent, all others what they observed.
pub proof fn law_plans_end_with_their_report(role: Role, family: Family)
    ensures
        ({
            let steps = script(role, family);
            &&& steps.len() > 0
            &&& role is Publisher || role is Notifier ==> steps.last() == RoleStep::ReportSent
            &&& !(role is Publisher || role is Notifier) ==> steps.last()
                == RoleStep::ReportObserved
            &&& forall|i: int|
                0 <= i < steps.len() - 1 ==> #[trigger] steps[i] != RoleStep::ReportSent
                    && steps[i] != RoleStep::ReportObserved
        }),
{
}

/// Readers are waited for at most once. In the zero-copy family every role does
/// so first, those that send before they receive for a remote reader and the
/// others for their own; in the other families only the roles that send do, for
/// a remote reader, and a server only when it has something to answer.
pub proof fn law_when_readers_are_awaited(role: Role, family: Family)
    ensures
        ({
            let steps = script(role, family);
            let active = role is Publisher || role is Notifier || role is Client;
            &&& family is ZeroCopy ==> steps[0] == RoleStep::AwaitReaders(
                if active {
                    2
                } else {
                    1
                },
            )
            &&& forall|i: int, j: int|
                0 <= i < j < steps.len() ==> !(#[trigger] steps[i] is AwaitReaders
                    && #[trigger] steps[j] is AwaitReaders)
            &&& family !is ZeroCopy && (role is Subscriber || role is Notifyee) ==> forall|i: int|
                0 <= i < steps.len() ==> #[trigger] steps[i] !is AwaitReaders
            &&& family !is ZeroCopy && role is Server ==> exists|received: int|
                0 <= received < steps.len() - 2 && #[trigger] steps[received] == RoleStep::Receive
                    && steps[received + 1] == RoleStep::AwaitReaders(2) && steps[received + 2]
                    == RoleStep::SendResponse
        }),
{
    let steps = script(role, family);
    if family !is ZeroCopy && role is Server {
        assert(steps[2] == RoleStep::Receive);
    }
}

/// A registered listener is announced in one fixed line.
pub proof fn law_listeners_are_announced(line: Seq<char>)
    requires
        line == READY_LINE@,
    ensures
        line == "READY listener_registered"@,
{
}

/// The views of addresses and filters show the addresses or the refusal.
pub proof fn law_role_results_are_seen_whole(source: Uri, sink: Uri, status: Status)
    ensures
        address_view(Ok(source)) == Ok::<UriView, StatusView>(source@),
        address_view(Err(status)) == Err::<UriView, StatusView>(status@),
        filters_view(Ok((source, Some(sink)))) == Ok::<(UriView, Option<UriView>), StatusView>(
            (source@, Some(sink@)),
        ),
        filters_view(Ok((source, None))) == Ok::<(UriView, Option<UriView>), StatusView>(
            (source@, None),
        ),
        filters_view(Err(status)) == Err::<(UriView, Option<UriView>), StatusView>(status@),
{
}

} // verus!
