//! Classic family: messages with protobuf attributes.

use vstd::prelude::*;

use crate::attributes::{
    attributes_parse, attributes_valid, attributes_verdict, attributes_write, countable,
    judge_attributes, maybe_text, parse_attributes, parsed_attributes_view, texts_size,
    write_attributes, written_view, Attributes, AttributesView,
};
use crate::config::{config_outcome, default_config, DdsConfig};
use crate::family::Family;
use crate::health::{DdsHealth, HealthErrorKind, LogEntry};
use crate::payload::{
    carried, content, copy_bytes, copy_payload, join_payload, payload_view, presence,
    presence_consistent, split_payload,
};
use crate::registry::{law_matching_is_exact, selected_tokens, selects};
use crate::setup::{Setup, SetupStep, SetupView};
use crate::status::{closed_view, fail, outcome_view, Status, StatusCode, StatusView};
use crate::text::join;
use crate::transport::{
    fresh, registration_effect, removal_effect, token_outcome, Readiness, Transport, TransportView,
};
use crate::uri::{maybe_ref_view, Uri};

verus! {

/// Normative classic-family outer sample.
#[derive(Debug, PartialEq, Eq)]
pub struct UpDdsClassicSampleV1 {
    /// Exact originating transport instance.
    pub origin_id: String,
    /// Canonical protobuf `UAttributes` bytes.
    pub attributes_proto: Vec<u8>,
    /// Whether a payload is present, including a present empty payload.
    pub has_payload: bool,
    /// Opaque payload bytes.
    pub payload: Vec<u8>,
}

/// A classic sample as contracts see it.
#[verifier::ext_equal]
pub struct ClassicSampleView {
    /// Originating transport instance.
    pub origin_id: Seq<char>,
    /// Protobuf bytes of the attributes.
    pub attributes_proto: Seq<u8>,
    /// Whether a payload is present.
    pub has_payload: bool,
    /// Payload bytes.
    pub payload: Seq<u8>,
}

impl View for UpDdsClassicSampleV1 {
    type V = ClassicSampleView;

    open spec fn view(&self) -> ClassicSampleView {
        ClassicSampleView {
            origin_id: self.origin_id@,
            attributes_proto: self.attributes_proto@,
            has_payload: self.has_payload,
            payload: self.payload@,
        }
    }
}

impl Clone for UpDdsClassicSampleV1 {
    fn clone(&self) -> (copy: UpDdsClassicSampleV1)
        ensures
            copy@ == self@,
    {
        UpDdsClassicSampleV1 {
            origin_id: self.origin_id.clone(),
            attributes_proto: copy_bytes(self.attributes_proto.as_slice()),
            has_payload: self.has_payload,
            payload: copy_bytes(self.payload.as_slice()),
        }
    }
}

/// A message: attributes and an optional payload.
#[derive(Debug, PartialEq, Eq)]
pub struct ClassicMessage {
    /// Attributes of the message.
    pub attributes: Attributes,
    /// Payload, which may be present and empty.
    pub payload: Option<Vec<u8>>,
}

/// A message as contracts see it.
#[verifier::ext_equal]
pub struct MessageView {
    /// Attributes of the message.
    pub attributes: AttributesView,
    /// Payload.
    pub payload: Option<Seq<u8>>,
}

impl View for ClassicMessage {
    type V = MessageView;

    open spec fn view(&self) -> MessageView {
        MessageView { attributes: self.attributes@, payload: payload_view(self.payload) }
    }
}

impl Clone for ClassicMessage {
    fn clone(&self) -> (copy: ClassicMessage)
        ensures
            copy@ == self@,
    {
        ClassicMessage {
            attributes: self.attributes.clone(),
            payload: copy_payload(&self.payload),
        }
    }
}

impl ClassicMessage {
    /// Whether the attributes make a valid message of their kind.
    pub fn is_valid(&self) -> (valid: bool)
        ensures
            valid == attributes_valid(self@.attributes),
    {
        judge_attributes(&self.attributes).is_none()
    }
}

/// A decoded message as contracts see it.
pub open spec fn decoded_view(decoded: Result<ClassicMessage, String>) -> Result<
    MessageView,
    Seq<char>,
> {
    match decoded {
        Ok(message) => Ok(message@),
        Err(detail) => Err(detail@),
    }
}

/// What a sample decodes to, given what its attribute bytes parse to, whether
/// the parsed attributes are refused, and whether they are refused together
/// with the payload.
pub open spec fn classic_assembled(
    sample: ClassicSampleView,
    parsed: Result<AttributesView, Seq<char>>,
    refusal: Option<Seq<char>>,
    mismatch: Option<Seq<char>>,
) -> Result<MessageView, Seq<char>> {
    if !presence_consistent(sample.has_payload, sample.payload) {
        Err("classic sample has payload bytes while has_payload is false"@)
    } else {
        match parsed {
            Err(detail) => Err("invalid classic attributes: "@ + detail),
            Ok(attributes) => match refusal {
                Some(detail) => Err("invalid classic metadata: "@ + detail),
                None => match mismatch {
                    Some(detail) => Err("invalid classic message: "@ + detail),
                    None => Ok(
                        MessageView {
                            attributes,
                            payload: carried(sample.has_payload, sample.payload),
                        },
                    ),
                },
            },
        }
    }
}

/// Why parsed attributes are refused, if they are: exactly those that make no
/// valid message.
pub open spec fn parsed_verdict(parsed: Result<AttributesView, Seq<char>>) -> Option<Seq<char>> {
    match parsed {
        Ok(attributes) => if attributes_valid(attributes) {
            None
        } else {
            attributes_verdict(attributes)
        },
        Err(_) => None,
    }
}

/// What a sample decodes to. Valid attributes go with any payload.
pub open spec fn classic_decoded(sample: ClassicSampleView) -> Result<MessageView, Seq<char>> {
    classic_assembled(
        sample,
        attributes_parse(sample.attributes_proto),
        parsed_verdict(attributes_parse(sample.attributes_proto)),
        None,
    )
}

/// Builds the message of a sample from what its attribute bytes parsed to and
/// from the refusals of these attributes, alone and with the payload.
pub fn assemble_classic(
    sample: UpDdsClassicSampleV1,
    parsed: Result<Attributes, String>,
    refusal: Option<String>,
    mismatch: Option<String>,
) -> (decoded: Result<ClassicMessage, String>)
    ensures
        decoded_view(decoded) == classic_assembled(
            sample@,
            parsed_attributes_view(parsed),
            maybe_text(refusal),
            maybe_text(mismatch),
        ),
{
    if !sample.has_payload && sample.payload.len() != 0 {
        return Err("classic sample has payload bytes while has_payload is false".to_owned());
    }
    match parsed {
        Err(detail) => Err(join("invalid classic attributes: ", detail.as_str())),
        Ok(attributes) => match refusal {
            Some(detail) => Err(join("invalid classic metadata: ", detail.as_str())),
            None => match mismatch {
                Some(detail) => Err(join("invalid classic message: ", detail.as_str())),
                None => Ok(
                    ClassicMessage {
                        attributes,
                        payload: join_payload(sample.has_payload, sample.payload),
                    },
                ),
            },
        },
    }
}

/// Decodes a sample. A consistent sample whose attributes parse is decoded if
/// and only if these are valid.
pub fn decode_classic(sample: UpDdsClassicSampleV1) -> (decoded: Result<ClassicMessage, String>)
    ensures
        decoded_view(decoded) == classic_decoded(sample@),
        decoded is Ok <==> (presence_consistent(sample.has_payload, sample.payload@)
            && attributes_parse(sample.attributes_proto@) is Ok && attributes_valid(
            attributes_parse(sample.attributes_proto@)->Ok_0,
        )),
{
    let parsed = parse_attributes(sample.attributes_proto.as_slice());
    let refusal = match &parsed {
        Ok(attributes) => judge_attributes(attributes),
        Err(_) => None,
    };
    assemble_classic(sample, parsed, refusal, None)
}

/// An encoded sample as contracts see it.
pub open spec fn encoded_view(encoded: Result<UpDdsClassicSampleV1, Status>) -> Result<
    ClassicSampleView,
    StatusView,
> {
    match encoded {
        Ok(sample) => Ok(sample@),
        Err(status) => Err(status@),
    }
}

/// The sample of a message, given what writing its attributes yields.
pub open spec fn classic_framed(
    origin_id: Seq<char>,
    written: Result<Seq<u8>, Seq<char>>,
    payload: Option<Seq<u8>>,
) -> Result<ClassicSampleView, StatusView> {
    match written {
        Err(detail) => Err(
            StatusView {
                code: StatusCode::InvalidArgument,
                message: "encode classic attributes: "@ + detail,
            },
        ),
        Ok(attributes_proto) => Ok(
            ClassicSampleView {
                origin_id,
                attributes_proto,
                has_payload: presence(payload),
                payload: content(payload),
            },
        ),
    }
}

/// Builds the sample of a message from what writing its attributes yielded.
pub fn frame_classic(
    origin_id: &str,
    written: Result<Vec<u8>, String>,
    payload: &Option<Vec<u8>>,
) -> (framed: Result<UpDdsClassicSampleV1, Status>)
    ensures
        encoded_view(framed) == classic_framed(
            origin_id@,
            written_view(written),
            payload_view(*payload),
        ),
{
    match written {
        Err(detail) => Err(
            fail(
                StatusCode::InvalidArgument,
                join("encode classic attributes: ", detail.as_str()),
            ),
        ),
        Ok(attributes_proto) => {
            let (has_payload, payload) = split_payload(payload);
            Ok(
                UpDdsClassicSampleV1 {
                    origin_id: origin_id.to_owned(),
                    attributes_proto,
                    has_payload,
                    payload,
                },
            )
        },
    }
}

/// Encodes a message as the sample of the given origin.
///
/// This always succeeds. A valid message is what the sample decodes to again, as
/// long as its attributes stay within the 32 bit lengths of protobuf; they take
/// up the bytes of their texts and less than 256 more.
pub fn encode_classic(origin_id: &str, message: &ClassicMessage) -> (encoded: Result<
    UpDdsClassicSampleV1,
    Status,
>)
    ensures
        encoded_view(encoded) == classic_framed(
            origin_id@,
            attributes_write(message@.attributes),
            message@.payload,
        ),
        encoded is Ok,
        encoded->Ok_0@.attributes_proto.len() < texts_size(message@.attributes) + 256,
        countable(encoded->Ok_0@.attributes_proto) && attributes_valid(message@.attributes)
            ==> classic_decoded(encoded->Ok_0@) == Ok::<MessageView, Seq<char>>(message@),
{
    let written = write_attributes(&message.attributes);
    let encoded = frame_classic(origin_id, written, &message.payload);
    assert(countable(encoded->Ok_0@.attributes_proto) && attributes_valid(message@.attributes)
        ==> classic_decoded(encoded->Ok_0@)->Ok_0 =~= message@);
    encoded
}

/// Which message a taken sample hands to which listeners, and what the
/// transport remembers of it.
pub open spec fn classic_received(
    view: TransportView,
    sample: Option<ClassicSampleView>,
) -> (TransportView, Option<(MessageView, Seq<u64>)>) {
    match sample {
        None => (view, None),
        Some(sample) => if sample.origin_id == view.config.origin_id {
            (view.with_delivery(view.delivery.after_delivery()), None)
        } else {
            match classic_decoded(sample) {
                Err(detail) => (view.with_error(HealthErrorKind::MalformedSample, detail), None),
                Ok(message) => (
                    view,
                    Some(
                        (
                            message,
                            selected_tokens(
                                view.registry.active,
                                message.attributes.source->Some_0,
                                message.attributes.sink,
                            ),
                        ),
                    ),
                ),
            }
        },
    }
}

/// A taken sample as contracts see it.
pub open spec fn taken_view(sample: Option<UpDdsClassicSampleV1>) -> Option<ClassicSampleView> {
    match sample {
        Some(sample) => Some(sample@),
        None => None,
    }
}

/// A message and its listeners as contracts see them.
pub open spec fn dispatch_view(dispatch: Option<(ClassicMessage, Vec<u64>)>) -> Option<
    (MessageView, Seq<u64>),
> {
    match dispatch {
        Some((message, tokens)) => Some((message@, tokens@)),
        None => None,
    }
}

/// Classic uProtocol transport over a versioned DDS topic.
pub struct UPTransportDds {
    /// State that all families share.
    pub core: Transport,
}

impl UPTransportDds {
    /// The shared state is well formed and belongs to this family.
    pub open spec fn wf(&self) -> bool {
        self.core.wf() && self.core@.family == Family::Classic
    }

    /// Starts a classic transport with default configuration for a domain.
    pub fn new(domain_id: i32, process_id: u32, sequence: u64) -> (started: Result<Setup, Status>)
        ensures
            started is Ok,
            started->Ok_0.wf(),
            started->Ok_0@ == (SetupView {
                family: Family::Classic,
                config: default_config(domain_id, process_id, sequence),
                step: SetupStep::Participant,
            }),
    {
        Self::with_config(DdsConfig::new(domain_id, process_id, sequence))
    }

    /// Starts a classic transport with explicit domain, origin, quality of
    /// service and limits.
    pub fn with_config(config: DdsConfig) -> (started: Result<Setup, Status>)
        ensures
            match started {
                Ok(setup) => {
                    &&& config_outcome(config@) is Ok
                    &&& setup.wf()
                    &&& setup@ == (SetupView {
                        family: Family::Classic,
                        config: config@,
                        step: SetupStep::Participant,
                    })
                },
                Err(status) => config_outcome(config@) == Err::<(), StatusView>(status@),
            },
    {
        Setup::begin(Family::Classic, config)
    }

    /// The transport, once everything is there.
    pub fn ready(setup: Setup) -> (transport: UPTransportDds)
        requires
            setup.wf(),
            setup@.step is Ready,
            setup@.family == Family::Classic,
        ensures
            transport.wf(),
            transport.core@ == fresh(Family::Classic, setup@.config),
    {
        UPTransportDds { core: setup.finish() }
    }

    /// Starts a wait until at least the given number of readers is matched.
    ///
    /// A transport's own reader counts as one match. Cross-instance callers
    /// should therefore require at least two readers.
    pub fn wait_ready(&self, required_matched_readers: usize) -> (readiness: Result<
        Readiness,
        Status,
    >)
        ensures
            match readiness {
                Err(status) => !self.core@.open && status@ == closed_view(),
                Ok(readiness) => self.core@.open && readiness == if required_matched_readers == 0 {
                    Readiness::Ready
                } else {
                    Readiness::Poll
                },
            },
    {
        self.core.wait_ready(required_matched_readers)
    }

    /// Health of the transport.
    #[must_use]
    pub fn health(&self) -> (health: &DdsHealth)
        requires
            self.wf(),
        ensures
            health.wf(),
            health.log() == self.core@.log,
    {
        self.core.health()
    }

    /// This instance's configured origin identity.
    #[must_use]
    pub fn origin_id(&self) -> (origin: &str)
        ensures
            origin@ == self.core@.config.origin_id,
    {
        self.core.origin_id()
    }

    /// Encodes a message into the sample that is to be written, which succeeds
    /// exactly as long as the transport is open.
    pub fn send(&self, message: &ClassicMessage) -> (encoded: Result<UpDdsClassicSampleV1, Status>)
        ensures
            encoded_view(encoded) == match classic_framed(
                self.core@.config.origin_id,
                attributes_write(message@.attributes),
                message@.payload,
            ) {
                Err(status) => Err(status),
                Ok(sample) => if self.core@.open {
                    Ok(sample)
                } else {
                    Err(closed_view())
                },
            },
            encoded is Ok <==> self.core@.open,
            encoded is Ok ==> encoded->Ok_0@.attributes_proto.len() < texts_size(
                message@.attributes,
            ) + 256,
            encoded is Ok && countable(encoded->Ok_0@.attributes_proto) && attributes_valid(
                message@.attributes,
            ) ==> classic_decoded(encoded->Ok_0@) == Ok::<MessageView, Seq<char>>(message@),
    {
        match encode_classic(self.core.origin_id(), message) {
            Err(status) => Err(status),
            Ok(sample) => match self.core.ensure_open() {
                Err(status) => Err(status),
                Ok(_) => Ok(sample),
            },
        }
    }

    /// Takes in one taken sample and answers the message that it carries with
    /// the tokens of the listeners that the message reaches.
    pub fn receive(&mut self, sample: Option<UpDdsClassicSampleV1>) -> (dispatch: Option<
        (ClassicMessage, Vec<u64>),
    >)
        requires
            old(self).wf(),
            old(self).core@.has_room(),
        ensures
            final(self).wf(),
            (final(self).core@, dispatch_view(dispatch)) == classic_received(
                old(self).core@,
                taken_view(sample),
            ),
    {
        let sample = match sample {
            None => {
                return None;
            },
            Some(sample) => sample,
        };
        if !self.core.is_foreign(&sample.origin_id) {
            return None;
        }
        match decode_classic(sample) {
            Err(detail) => {
                self.core.malformed(detail);
                None
            },
            Ok(message) => {
                let tokens = match &message.attributes.source {
                    Some(source) => self.core.route(source, message.attributes.sink.as_ref()),
                    None => Vec::new(),
                };
                Some((message, tokens))
            },
        }
    }

    /// Checks the filters and registers a listener.
    pub fn register_listener(
        &mut self,
        source: &Uri,
        sink: Option<&Uri>,
        listener: u64,
    ) -> (outcome: Result<(), Status>)
        requires
            old(self).wf(),
            old(self).core@.registry.next_token < u64::MAX,
        ensures
            final(self).wf(),
            registration_effect(
                old(self).core@,
                final(self).core@,
                source@,
                maybe_ref_view(sink),
                listener,
                outcome_view(outcome),
            ),
    {
        self.core.register_checked(source, sink, listener)
    }

    /// Checks the filters and removes a listener. Callbacks may still be
    /// running under the token that is answered; none starts any more.
    pub fn unregister_listener(
        &mut self,
        source: &Uri,
        sink: Option<&Uri>,
        listener: u64,
    ) -> (outcome: Result<u64, Status>)
        requires
            old(self).wf(),
        ensures
            final(self).wf(),
            removal_effect(
                old(self).core@,
                final(self).core@,
                source@,
                maybe_ref_view(sink),
                listener,
                token_outcome(outcome),
            ),
    {
        self.core.unregister_checked(source, sink, listener)
    }
}

/// A transport hands none of its own samples to its listeners, and every
/// sample of another origin is either handed on or recorded as malformed.
pub proof fn law_own_samples_are_suppressed(view: TransportView, sample: ClassicSampleView)
    ensures
        sample.origin_id == view.config.origin_id ==> classic_received(view, Some(sample)).1 is None
            && classic_received(view, Some(sample)).0.log == view.log,
        sample.origin_id != view.config.origin_id ==> (classic_received(view, Some(sample)).1
            is Some <==> classic_received(view, Some(sample)).0.log == view.log),
{
    if sample.origin_id != view.config.origin_id && classic_decoded(sample) is Err {
        let after = classic_received(view, Some(sample)).0;
        assert(after.log.len() == view.log.len() + 1);
    }
}

/// A message of another origin is handed to exactly the listeners whose
/// filters select its addresses.
pub proof fn law_messages_reach_their_listeners(
    view: TransportView,
    sample: ClassicSampleView,
    token: u64,
)
    requires
        classic_received(view, Some(sample)).1 is Some,
    ensures
        ({
            let (message, tokens) = classic_received(view, Some(sample)).1->Some_0;
            &&& classic_decoded(sample) == Ok::<MessageView, Seq<char>>(message)
            &&& tokens.contains(token) <==> exists|i: int|
                0 <= i < view.registry.active.len() && (#[trigger] view.registry.active[i]).token
                    == token && selects(
                    view.registry.active[i],
                    message.attributes.source->Some_0,
                    message.attributes.sink,
                )
        }),
{
    let message = classic_received(view, Some(sample)).1->Some_0.0;
    law_matching_is_exact(
        view.registry,
        message.attributes.source->Some_0,
        message.attributes.sink,
        token,
    );
}

/// A message travels under the origin of its sender with the bytes of its
/// attributes; its payload is flagged and carried byte for byte, and an absent
/// one leaves flag and bytes empty. Attributes that cannot be written are an
/// invalid argument.
pub proof fn law_classic_samples_hold_the_message(
    origin_id: Seq<char>,
    bytes: Seq<u8>,
    payload: Option<Seq<u8>>,
    detail: Seq<char>,
)
    ensures
        ({
            let framed = classic_framed(origin_id, Ok(bytes), payload);
            &&& framed is Ok
            &&& framed->Ok_0.origin_id == origin_id
            &&& framed->Ok_0.attributes_proto == bytes
            &&& framed->Ok_0.has_payload <==> payload is Some
            &&& payload is Some ==> framed->Ok_0.payload == payload->Some_0
            &&& payload is None ==> framed->Ok_0.payload.len() == 0
        }),
        ({
            let refused = classic_framed(origin_id, Err(detail), payload);
            &&& refused is Err
            &&& refused->Err_0.code == StatusCode::InvalidArgument
            &&& refused->Err_0.message == "encode classic attributes: "@ + detail
        }),
{
}

/// A sample decodes if and only if no bytes stand beside a lowered flag, its
/// attributes parse, and neither they nor they together with the payload are
/// refused; then it decodes to these attributes and, where the flag is raised,
/// to its bytes. The first thing that is wrong is what the refusal names.
pub proof fn law_what_classic_samples_decode_to(
    sample: ClassicSampleView,
    parsed: Result<AttributesView, Seq<char>>,
    refusal: Option<Seq<char>>,
    mismatch: Option<Seq<char>>,
)
    ensures
        ({
            let decoded = classic_assembled(sample, parsed, refusal, mismatch);
            let consistent = sample.has_payload || sample.payload.len() == 0;
            &&& decoded is Ok <==> consistent && parsed is Ok && refusal is None && mismatch is None
            &&& decoded is Ok ==> decoded->Ok_0.attributes == parsed->Ok_0
            &&& decoded is Ok && sample.has_payload ==> decoded->Ok_0.payload == Some(
                sample.payload,
            )
            &&& decoded is Ok && !sample.has_payload ==> decoded->Ok_0.payload is None
            &&& !consistent ==> decoded->Err_0
                == "classic sample has payload bytes while has_payload is false"@
            &&& consistent && parsed is Err ==> decoded->Err_0 == "invalid classic attributes: "@
                + parsed->Err_0
            &&& consistent && parsed is Ok && refusal is Some ==> decoded->Err_0
                == "invalid classic metadata: "@ + refusal->Some_0
            &&& consistent && parsed is Ok && refusal is None && mismatch is Some
                ==> decoded->Err_0 == "invalid classic message: "@ + mismatch->Some_0
        }),
{
}

/// Decoding asks for what the bytes of the attributes parse to, and refuses
/// exactly the attributes that make no valid message.
pub proof fn law_decoding_judges_the_parsed_attributes(sample: ClassicSampleView)
    ensures
        ({
            let parsed = attributes_parse(sample.attributes_proto);
            let decoded = classic_decoded(sample);
            let consistent = sample.has_payload || sample.payload.len() == 0;
            &&& consistent && parsed is Ok && attributes_valid(parsed->Ok_0) ==> decoded is Ok
                && decoded->Ok_0.attributes == parsed->Ok_0 && decoded->Ok_0.payload
                == if sample.has_payload {
                Some(sample.payload)
            } else {
                None
            }
            &&& consistent && parsed is Err ==> decoded == Err::<MessageView, Seq<char>>(
                "invalid classic attributes: "@ + parsed->Err_0,
            )
            &&& consistent && parsed is Ok && !attributes_valid(parsed->Ok_0)
                && attributes_verdict(parsed->Ok_0) is Some ==> decoded == Err::<
                MessageView,
                Seq<char>,
            >("invalid classic metadata: "@ + attributes_verdict(parsed->Ok_0)->Some_0)
        }),
{
}

/// A foreign sample that decodes is handed on as exactly what it decodes to, to
/// the registrations that its addresses select, and leaves the transport as it
/// was. One that does not decode is recorded with the reason, an own one is
/// counted as delivered, and neither reaches a listener or changes anything
/// else; no sample changes nothing.
pub proof fn law_received_classic_samples_are_handed_on_whole(
    view: TransportView,
    sample: ClassicSampleView,
)
    ensures
        ({
            let (after, handed) = classic_received(view, Some(sample));
            let own = sample.origin_id == view.config.origin_id;
            &&& own ==> handed is None && after == (TransportView {
                delivery: after.delivery,
                ..view
            }) && after.delivery.written == view.delivery.written && (view.delivery.delivered
                < u64::MAX ==> after.delivery.delivered == view.delivery.delivered + 1)
            &&& !own && classic_decoded(sample) is Ok ==> after == view && handed is Some
                && handed->Some_0.0 == classic_decoded(sample)->Ok_0 && handed->Some_0.1
                == selected_tokens(
                view.registry.active,
                handed->Some_0.0.attributes.source->Some_0,
                handed->Some_0.0.attributes.sink,
            )
            &&& !own && classic_decoded(sample) is Err ==> handed is None && after == (
            TransportView {
                log: view.log.push(
                    LogEntry {
                        kind: HealthErrorKind::MalformedSample,
                        detail: classic_decoded(sample)->Err_0,
                    },
                ),
                ..view
            })
        }),
        classic_received(view, None) == (view, None::<(MessageView, Seq<u64>)>),
{
}

/// What is sent is what is received: a message whose attributes are read back
/// arrives at another transport with every attribute and with its absent, empty
/// or nonempty payload, byte for byte.
pub proof fn law_sent_messages_are_received(
    view: TransportView,
    origin_id: Seq<char>,
    bytes: Seq<u8>,
    message: MessageView,
)
    requires
        origin_id != view.config.origin_id,
        attributes_parse(bytes) == Ok::<AttributesView, Seq<char>>(message.attributes),
        attributes_valid(message.attributes),
    ensures
        ({
            let sample = classic_framed(origin_id, Ok(bytes), message.payload)->Ok_0;
            let (after, handed) = classic_received(view, Some(sample));
            after == view && handed is Some && handed->Some_0.0 == message
        }),
{
}

/// The views of samples, messages and what becomes of them show every field and
/// every result.
pub proof fn law_classic_values_are_seen_whole(
    sample: UpDdsClassicSampleV1,
    message: ClassicMessage,
    tokens: Vec<u64>,
    detail: String,
    status: Status,
)
    ensures
        sample@.origin_id == sample.origin_id@,
        sample@.attributes_proto == sample.attributes_proto@,
        sample@.has_payload == sample.has_payload,
        sample@.payload == sample.payload@,
        message@.attributes == message.attributes@,
        message@.payload is Some <==> message.payload is Some,
        message.payload is Some ==> message@.payload->Some_0 == message.payload->Some_0@,
        decoded_view(Ok(message)) == Ok::<MessageView, Seq<char>>(message@),
        decoded_view(Err(detail)) == Err::<MessageView, Seq<char>>(detail@),
        encoded_view(Ok(sample)) == Ok::<ClassicSampleView, StatusView>(sample@),
        encoded_view(Err(status)) == Err::<ClassicSampleView, StatusView>(status@),
        taken_view(Some(sample)) == Some(sample@),
        taken_view(None) is None,
        dispatch_view(Some((message, tokens))) == Some((message@, tokens@)),
        dispatch_view(None) is None,
{
}

} // verus!
