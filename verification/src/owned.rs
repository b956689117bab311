//! Owned family: validated frames whose metadata travels as a canonical field
//! block.
//!
//! The codec of that block and the validation of frames belong to the
//! surrounding application; their results come in as arguments.

use vstd::prelude::*;

pub use crate::family::{OWNED_TOPIC_V1, OWNED_TYPE_V1};

use crate::attributes::{maybe_text, written_view, Uuid};
use crate::config::{config_outcome, default_config, DdsConfig};
use crate::family::Family;
use crate::health::{DdsHealth, HealthErrorKind, LogEntry};
use crate::payload::{
    carried, content, copy_bytes, copy_payload, join_payload, payload_view, presence,
    presence_consistent, split_payload,
};
use crate::registry::{law_matching_is_exact, selected_tokens, selects};
use crate::setup::{Setup, SetupStep, SetupView};
use crate::status::{closed_view, fail, outcome_view, Status, StatusCode, StatusView};
use crate::text::join;
use crate::transport::{
    fresh, registered_effect, registration_effect, removal_effect, token_outcome,
    unregistered_effect, Readiness, Transport, TransportView,
};
use crate::uri::{copy_maybe, maybe_ref_view, maybe_view, Uri, UriView};

verus! {

/// Normative owned-family outer sample.
#[derive(Debug, PartialEq, Eq)]
pub struct UpDdsOwnedSampleV1 {
    /// Exact originating transport instance.
    pub origin_id: String,
    /// Canonical validated frame-metadata field block.
    pub metadata_fields: Vec<u8>,
    /// Whether a payload is present, including a present empty payload.
    pub has_payload: bool,
    /// Opaque payload bytes.
    pub payload: Vec<u8>,
}

/// An owned sample as contracts see it.
#[verifier::ext_equal]
pub struct OwnedSampleView {
    /// Originating transport instance.
    pub origin_id: Seq<char>,
    /// Metadata field block.
    pub metadata_fields: Seq<u8>,
    /// Whether a payload is present.
    pub has_payload: bool,
    /// Payload bytes.
    pub payload: Seq<u8>,
}

impl View for UpDdsOwnedSampleV1 {
    type V = OwnedSampleView;

    open spec fn view(&self) -> OwnedSampleView {
        OwnedSampleView {
            origin_id: self.origin_id@,
            metadata_fields: self.metadata_fields@,
            has_payload: self.has_payload,
            payload: self.payload@,
        }
    }
}

impl Clone for UpDdsOwnedSampleV1 {
    fn clone(&self) -> (copy: UpDdsOwnedSampleV1)
        ensures
            copy@ == self@,
    {
        UpDdsOwnedSampleV1 {
            origin_id: self.origin_id.clone(),
            metadata_fields: copy_bytes(self.metadata_fields.as_slice()),
            has_payload: self.has_payload,
            payload: copy_bytes(self.payload.as_slice()),
        }
    }
}

/// Metadata of a frame, as far as a transport reads it.
#[derive(Debug, PartialEq, Eq)]
pub struct FrameMetadata {
    /// Identifier of the frame.
    pub id: Uuid,
    /// Where the frame comes from.
    pub source: Uri,
    /// Where the frame goes to.
    pub sink: Option<Uri>,
    /// Number of the payload encoding, if a payload is described.
    pub payload_encoding: Option<i32>,
}

/// Metadata as contracts see it.
#[verifier::ext_equal]
pub struct MetadataView {
    /// Identifier of the frame.
    pub id: Uuid,
    /// Where the frame comes from.
    pub source: UriView,
    /// Where the frame goes to.
    pub sink: Option<UriView>,
    /// Number of the payload encoding.
    pub payload_encoding: Option<i32>,
}

impl View for FrameMetadata {
    type V = MetadataView;

    open spec fn view(&self) -> MetadataView {
        MetadataView {
            id: self.id,
            source: self.source@,
            sink: maybe_view(self.sink),
            payload_encoding: self.payload_encoding,
        }
    }
}

impl Clone for FrameMetadata {
    fn clone(&self) -> (copy: FrameMetadata)
        ensures
            copy@ == self@,
    {
        FrameMetadata {
            id: self.id,
            source: self.source.clone(),
            sink: copy_maybe(self.sink.as_ref()),
            payload_encoding: self.payload_encoding,
        }
    }
}

/// A frame: metadata and an optional payload.
#[derive(Debug, PartialEq, Eq)]
pub struct OwnedFrame {
    /// Metadata of the frame.
    pub metadata: FrameMetadata,
    /// Payload, which may be present and empty.
    pub payload: Option<Vec<u8>>,
}

/// A frame as contracts see it.
#[verifier::ext_equal]
pub struct FrameView {
    /// Metadata of the frame.
    pub metadata: MetadataView,
    /// Payload.
    pub payload: Option<Seq<u8>>,
}

impl View for OwnedFrame {
    type V = FrameView;

    open spec fn view(&self) -> FrameView {
        FrameView { metadata: self.metadata@, payload: payload_view(self.payload) }
    }
}

impl Clone for OwnedFrame {
    fn clone(&self) -> (copy: OwnedFrame)
        ensures
            copy@ == self@,
    {
        OwnedFrame {
            metadata: self.metadata.clone(),
            payload: copy_payload(&self.payload),
        }
    }
}

/// Decoded metadata as contracts see it.
pub open spec fn metadata_result(decoded: Result<FrameMetadata, String>) -> Result<
    MetadataView,
    Seq<char>,
> {
    match decoded {
        Ok(metadata) => Ok(metadata@),
        Err(detail) => Err(detail@),
    }
}

/// A decoded frame as contracts see it.
pub open spec fn frame_result(decoded: Result<OwnedFrame, String>) -> Result<FrameView, Seq<char>> {
    match decoded {
        Ok(frame) => Ok(frame@),
        Err(detail) => Err(detail@),
    }
}

/// What a sample decodes to, given what its metadata decodes to and whether
/// the frame is refused.
pub open spec fn owned_decoded(
    sample: OwnedSampleView,
    metadata: Result<MetadataView, Seq<char>>,
    refusal: Option<Seq<char>>,
) -> Result<FrameView, Seq<char>> {
    if !presence_consistent(sample.has_payload, sample.payload) {
        Err("owned sample has payload bytes while has_payload is false"@)
    } else {
        match metadata {
            Err(detail) => Err("invalid owned metadata: "@ + detail),
            Ok(metadata) => match refusal {
                Some(detail) => Err("invalid owned frame: "@ + detail),
                None => Ok(
                    FrameView { metadata, payload: carried(sample.has_payload, sample.payload) },
                ),
            },
        }
    }
}

/// Decodes a sample, given what its metadata decoded to and why the frame is
/// refused, if it is.
pub fn decode_owned(
    sample: UpDdsOwnedSampleV1,
    metadata: Result<FrameMetadata, String>,
    refusal: Option<String>,
) -> (decoded: Result<OwnedFrame, String>)
    ensures
        frame_result(decoded) == owned_decoded(
            sample@,
            metadata_result(metadata),
            maybe_text(refusal),
        ),
{
    if !sample.has_payload && sample.payload.len() != 0 {
        return Err("owned sample has payload bytes while has_payload is false".to_owned());
    }
    match metadata {
        Err(detail) => Err(join("invalid owned metadata: ", detail.as_str())),
        Ok(metadata) => match refusal {
            Some(detail) => Err(join("invalid owned frame: ", detail.as_str())),
            None => Ok(
                OwnedFrame { metadata, payload: join_payload(sample.has_payload, sample.payload) },
            ),
        },
    }
}

/// An encoded sample as contracts see it.
pub open spec fn sample_result(encoded: Result<UpDdsOwnedSampleV1, Status>) -> Result<
    OwnedSampleView,
    StatusView,
> {
    match encoded {
        Ok(sample) => Ok(sample@),
        Err(status) => Err(status@),
    }
}

/// The sample of a frame, given what encoding its metadata yields.
pub open spec fn owned_framed(
    origin_id: Seq<char>,
    fields: Result<Seq<u8>, Seq<char>>,
    payload: Option<Seq<u8>>,
) -> Result<OwnedSampleView, StatusView> {
    match fields {
        Err(detail) => Err(
            StatusView {
                code: StatusCode::InvalidArgument,
                message: "encode owned metadata: "@ + detail,
            },
        ),
        Ok(metadata_fields) => Ok(
            OwnedSampleView {
                origin_id,
                metadata_fields,
                has_payload: presence(payload),
                payload: content(payload),
            },
        ),
    }
}

/// Encodes a frame as the sample of the given origin, given what encoding its
/// metadata yielded.
pub fn encode_owned(
    origin_id: &str,
    fields: Result<Vec<u8>, String>,
    payload: &Option<Vec<u8>>,
) -> (encoded: Result<UpDdsOwnedSampleV1, Status>)
    ensures
        sample_result(encoded) == owned_framed(
            origin_id@,
            written_view(fields),
            payload_view(*payload),
        ),
{
    match fields {
        Err(detail) => Err(
            fail(StatusCode::InvalidArgument, join("encode owned metadata: ", detail.as_str())),
        ),
        Ok(metadata_fields) => {
            let (has_payload, payload) = split_payload(payload);
            Ok(
                UpDdsOwnedSampleV1 {
                    origin_id: origin_id.to_owned(),
                    metadata_fields,
                    has_payload,
                    payload,
                },
            )
        },
    }
}

/// What the transport remembers of a taken sample before it is decoded, and
/// whether it is decoded at all.
pub open spec fn owned_screened(view: TransportView, sample: Option<OwnedSampleView>) -> (
    TransportView,
    Option<OwnedSampleView>,
) {
    match sample {
        None => (view, None),
        Some(sample) => if sample.origin_id == view.config.origin_id {
            (view.with_delivery(view.delivery.after_delivery()), None)
        } else {
            (view, Some(sample))
        },
    }
}

/// Which frame a screened sample hands to which listeners, and what the
/// transport remembers of it.
pub open spec fn owned_received(
    view: TransportView,
    sample: OwnedSampleView,
    metadata: Result<MetadataView, Seq<char>>,
    refusal: Option<Seq<char>>,
) -> (TransportView, Option<(FrameView, Seq<u64>)>) {
    match owned_decoded(sample, metadata, refusal) {
        Err(detail) => (view.with_error(HealthErrorKind::MalformedSample, detail), None),
        Ok(frame) => (
            view,
            Some(
                (
                    frame,
                    selected_tokens(
                        view.registry.active,
                        frame.metadata.source,
                        frame.metadata.sink,
                    ),
                ),
            ),
        ),
    }
}

/// A taken sample as contracts see it.
pub open spec fn taken_view(sample: Option<UpDdsOwnedSampleV1>) -> Option<OwnedSampleView> {
    match sample {
        Some(sample) => Some(sample@),
        None => None,
    }
}

/// A frame and its listeners as contracts see them.
pub open spec fn dispatch_view(dispatch: Option<(OwnedFrame, Vec<u64>)>) -> Option<
    (FrameView, Seq<u64>),
> {
    match dispatch {
        Some((frame, tokens)) => Some((frame@, tokens@)),
        None => None,
    }
}

/// Owned validated-frame transport over a versioned DDS topic.
pub struct UPTransportDdsOwned {
    /// State that all families share.
    pub core: Transport,
}

impl UPTransportDdsOwned {
    /// The shared state is well formed and belongs to this family.
    pub open spec fn wf(&self) -> bool {
        self.core.wf() && self.core@.family == Family::Owned
    }

    /// Starts an owned transport with default configuration for a domain.
    pub fn new(domain_id: i32, process_id: u32, sequence: u64) -> (started: Result<Setup, Status>)
        ensures
            started is Ok,
            started->Ok_0.wf(),
            started->Ok_0@ == (SetupView {
                family: Family::Owned,
                config: default_config(domain_id, process_id, sequence),
                step: SetupStep::Participant,
            }),
    {
        Self::with_config(DdsConfig::new(domain_id, process_id, sequence))
    }

    /// Starts an owned transport with explicit domain, origin, quality of
    /// service and limits.
    pub fn with_config(config: DdsConfig) -> (started: Result<Setup, Status>)
        ensures
            match started {
                Ok(setup) => {
                    &&& config_outcome(config@) is Ok
                    &&& setup.wf()
                    &&& setup@ == (SetupView {
                        family: Family::Owned,
                        config: config@,
                        step: SetupStep::Participant,
                    })
                },
                Err(status) => config_outcome(config@) == Err::<(), StatusView>(status@),
            },
    {
        Setup::begin(Family::Owned, config)
    }

    /// The transport, once everything is there.
    pub fn ready(setup: Setup) -> (transport: UPTransportDdsOwned)
        requires
            setup.wf(),
            setup@.step is Ready,
            setup@.family == Family::Owned,
        ensures
            transport.wf(),
            transport.core@ == fresh(Family::Owned, setup@.config),
    {
        UPTransportDdsOwned { core: setup.finish() }
    }

    /// Starts a wait until at least the given number of readers is matched.
    pub fn wait_ready(&self, required_matched_readers: usize) -> (readiness: Result<
        Readiness,
        Status,
    >)
        ensures
            match readiness {
                Err(status) => !self.core@.open && status@ == closed_view(),
                Ok(readiness) => self.core@.open && readiness == if required_matched_readers == 0 {
                    Readiness::Ready
                } else {
                    Readiness::Poll
                },
            },
    {
        self.core.wait_ready(required_matched_readers)
    }

    /// Health of the transport.
    #[must_use]
    pub fn health(&self) -> (health: &DdsHealth)
        requires
            self.wf(),
        ensures
            health.wf(),
            health.log() == self.core@.log,
    {
        self.core.health()
    }

    /// This instance's configured origin identity.
    #[must_use]
    pub fn origin_id(&self) -> (origin: &str)
        ensures
            origin@ == self.core@.config.origin_id,
    {
        self.core.origin_id()
    }

    /// Encodes a validated frame into the sample that is to be written, given
    /// what encoding its metadata yielded.
    pub fn send_validated_owned(
        &self,
        fields: Result<Vec<u8>, String>,
        payload: &Option<Vec<u8>>,
    ) -> (encoded: Result<UpDdsOwnedSampleV1, Status>)
        ensures
            sample_result(encoded) == match owned_framed(
                self.core@.config.origin_id,
                written_view(fields),
                payload_view(*payload),
            ) {
                Err(status) => Err(status),
                Ok(sample) => if self.core@.open {
                    Ok(sample)
                } else {
                    Err(closed_view())
                },
            },
    {
        match encode_owned(self.core.origin_id(), fields, payload) {
            Err(status) => Err(status),
            Ok(sample) => match self.core.ensure_open() {
                Err(status) => Err(status),
                Ok(_) => Ok(sample),
            },
        }
    }

    /// Takes in one taken sample and answers it again if it is to be decoded.
    pub fn screen(&mut self, sample: Option<UpDdsOwnedSampleV1>) -> (foreign: Option<
        UpDdsOwnedSampleV1,
    >)
        requires
            old(self).wf(),
        ensures
            final(self).wf(),
            (final(self).core@, taken_view(foreign)) == owned_screened(
                old(self).core@,
                taken_view(sample),
            ),
    {
        match sample {
            None => None,
            Some(sample) => if self.core.is_foreign(&sample.origin_id) {
                Some(sample)
            } else {
                None
            },
        }
    }

    /// Takes in a screened sample with what its metadata decoded to, and
    /// answers the frame that it carries with the tokens of the listeners that
    /// the frame reaches.
    pub fn receive(
        &mut self,
        sample: UpDdsOwnedSampleV1,
        metadata: Result<FrameMetadata, String>,
        refusal: Option<String>,
    ) -> (dispatch: Option<(OwnedFrame, Vec<u64>)>)
        requires
            old(self).wf(),
            old(self).core@.has_room(),
        ensures
            final(self).wf(),
            (final(self).core@, dispatch_view(dispatch)) == owned_received(
                old(self).core@,
                sample@,
                metadata_result(metadata),
                maybe_text(refusal),
            ),
    {
        match decode_owned(sample, metadata, refusal) {
            Err(detail) => {
                self.core.malformed(detail);
                None
            },
            Ok(frame) => {
                let tokens = self.core.route(&frame.metadata.source, frame.metadata.sink.as_ref());
                Some((frame, tokens))
            },
        }
    }

    /// Checks the filters and registers a listener.
    pub fn register_owned_listener(
        &mut self,
        source: &Uri,
        sink: Option<&Uri>,
        listener: u64,
    ) -> (outcome: Result<(), Status>)
        requires
            old(self).wf(),
            old(self).core@.registry.next_token < u64::MAX,
        ensures
            final(self).wf(),
            registration_effect(
                old(self).core@,
                final(self).core@,
                source@,
                maybe_ref_view(sink),
                listener,
                outcome_view(outcome),
            ),
    {
        self.core.register_checked(source, sink, listener)
    }

    /// Checks the filters and removes a listener. Callbacks may still be
    /// running under the token that is answered; none starts any more.
    pub fn unregister_owned_listener(
        &mut self,
        source: &Uri,
        sink: Option<&Uri>,
        listener: u64,
    ) -> (outcome: Result<u64, Status>)
        requires
            old(self).wf(),
        ensures
            final(self).wf(),
            removal_effect(
                old(self).core@,
                final(self).core@,
                source@,
                maybe_ref_view(sink),
                listener,
                token_outcome(outcome),
            ),
    {
        self.core.unregister_checked(source, sink, listener)
    }

    /// Registers a listener whose filters were checked before.
    pub fn register_validated_owned_listener(
        &mut self,
        source: &Uri,
        sink: Option<&Uri>,
        listener: u64,
    ) -> (outcome: Result<(), Status>)
        requires
            old(self).wf(),
            old(self).core@.registry.next_token < u64::MAX,
        ensures
            final(self).wf(),
            registered_effect(
                old(self).core@,
                final(self).core@,
                source@,
                maybe_ref_view(sink),
                listener,
                outcome_view(outcome),
            ),
    {
        self.core.register(source, sink, listener)
    }

    /// Removes a listener whose filters were checked before.
    pub fn unregister_validated_owned_listener(
        &mut self,
        source: &Uri,
        sink: Option<&Uri>,
        listener: u64,
    ) -> (outcome: Result<u64, Status>)
        requires
            old(self).wf(),
        ensures
            final(self).wf(),
            unregistered_effect(
                old(self).core@,
                final(self).core@,
                source@,
                maybe_ref_view(sink),
                listener,
                token_outcome(outcome),
            ),
    {
        self.core.unregister(source, sink, listener)
    }
}

/// What is written is what is read: the metadata block arrives byte for byte,
/// and where it decodes to the metadata that was sent, the frame with its
/// absent, empty or nonempty payload is the frame that was sent.
pub proof fn law_owned_frames_survive_carriage(
    origin_id: Seq<char>,
    fields: Seq<u8>,
    frame: FrameView,
)
    ensures
        ({
            let sent = owned_framed(origin_id, Ok(fields), frame.payload);
            &&& sent is Ok
            &&& sent->Ok_0.metadata_fields == fields
            &&& sent->Ok_0.origin_id == origin_id
            &&& owned_decoded(sent->Ok_0, Ok(frame.metadata), None) == Ok::<FrameView, Seq<char>>(
                frame,
            )
        }),
{
}

/// A transport hands none of its own samples on, and counts each as delivered;
/// every sample of another origin goes on unchanged.
pub proof fn law_own_samples_are_suppressed(view: TransportView, sample: OwnedSampleView)
    ensures
        sample.origin_id == view.config.origin_id <==> owned_screened(view, Some(sample)).1 is None,
        sample.origin_id != view.config.origin_id ==> owned_screened(view, Some(sample)) == (
            view,
            Some(sample),
        ),
        owned_screened(view, Some(sample)).0.log == view.log,
{
}

/// A frame of another origin is handed to exactly the listeners whose filters
/// select its addresses.
pub proof fn law_frames_reach_their_listeners(
    view: TransportView,
    sample: OwnedSampleView,
    metadata: MetadataView,
    token: u64,
)
    requires
        owned_received(view, sample, Ok(metadata), None).1 is Some,
    ensures
        ({
            let (frame, tokens) = owned_received(view, sample, Ok(metadata), None).1->Some_0;
            &&& frame.metadata == metadata
            &&& tokens.contains(token) <==> exists|i: int|
                0 <= i < view.registry.active.len() && (#[trigger] view.registry.active[i]).token
                    == token && selects(view.registry.active[i], metadata.source, metadata.sink)
        }),
{
    law_matching_is_exact(view.registry, metadata.source, metadata.sink, token);
}

/// A frame travels under the origin of its sender with its metadata block; its
/// payload is flagged and carried byte for byte, and an absent one leaves flag
/// and bytes empty. Metadata that cannot be encoded is an invalid argument.
pub proof fn law_owned_samples_hold_the_frame(
    origin_id: Seq<char>,
    fields: Seq<u8>,
    payload: Option<Seq<u8>>,
    detail: Seq<char>,
)
    ensures
        ({
            let framed = owned_framed(origin_id, Ok(fields), payload);
            &&& framed is Ok
            &&& framed->Ok_0.origin_id == origin_id
            &&& framed->Ok_0.metadata_fields == fields
            &&& framed->Ok_0.has_payload <==> payload is Some
            &&& payload is Some ==> framed->Ok_0.payload == payload->Some_0
            &&& payload is None ==> framed->Ok_0.payload.len() == 0
        }),
        ({
            let refused = owned_framed(origin_id, Err(detail), payload);
            &&& refused is Err
            &&& refused->Err_0.code == StatusCode::InvalidArgument
            &&& refused->Err_0.message == "encode owned metadata: "@ + detail
        }),
{
}

/// A sample decodes if and only if no bytes stand beside a lowered flag, its
/// metadata decodes and the frame is not refused; then it decodes to this
/// metadata and, where the flag is raised, to its bytes. The first thing that
/// is wrong is what the refusal names.
pub proof fn law_what_owned_samples_decode_to(
    sample: OwnedSampleView,
    metadata: Result<MetadataView, Seq<char>>,
    refusal: Option<Seq<char>>,
)
    ensures
        ({
            let decoded = owned_decoded(sample, metadata, refusal);
            let consistent = sample.has_payload || sample.payload.len() == 0;
            &&& decoded is Ok <==> consistent && metadata is Ok && refusal is None
            &&& decoded is Ok ==> decoded->Ok_0.metadata == metadata->Ok_0
            &&& decoded is Ok && sample.has_payload ==> decoded->Ok_0.payload == Some(
                sample.payload,
            )
            &&& decoded is Ok && !sample.has_payload ==> decoded->Ok_0.payload is None
            &&& !consistent ==> decoded->Err_0
                == "owned sample has payload bytes while has_payload is false"@
            &&& consistent && metadata is Err ==> decoded->Err_0 == "invalid owned metadata: "@
                + metadata->Err_0
            &&& consistent && metadata is Ok && refusal is Some ==> decoded->Err_0
                == "invalid owned frame: "@ + refusal->Some_0
        }),
{
}

/// A screened sample that decodes is handed on as exactly the frame that it
/// decodes to, to the registrations that its addresses select, and leaves the
/// transport as it was. One that does not decode is recorded with the reason,
/// and neither reaches a listener nor changes anything else.
pub proof fn law_received_owned_samples_are_handed_on_whole(
    view: TransportView,
    sample: OwnedSampleView,
    metadata: Result<MetadataView, Seq<char>>,
    refusal: Option<Seq<char>>,
)
    ensures
        ({
            let (after, handed) = owned_received(view, sample, metadata, refusal);
            let decoded = owned_decoded(sample, metadata, refusal);
            &&& decoded is Ok ==> after == view && handed is Some && handed->Some_0.0
                == decoded->Ok_0 && handed->Some_0.1 == selected_tokens(
                view.registry.active,
                decoded->Ok_0.metadata.source,
                decoded->Ok_0.metadata.sink,
            )
            &&& decoded is Err ==> handed is None && after == (TransportView {
                log: view.log.push(
                    LogEntry {
                        kind: HealthErrorKind::MalformedSample,
                        detail: decoded->Err_0,
                    },
                ),
                ..view
            })
        }),
{
}

/// What is sent is what is received: a frame arrives at another transport with
/// its metadata and with its absent, empty or nonempty payload, of the same
/// length and byte for byte.
pub proof fn law_sent_frames_are_received(
    view: TransportView,
    origin_id: Seq<char>,
    fields: Seq<u8>,
    frame: FrameView,
)
    requires
        origin_id != view.config.origin_id,
    ensures
        ({
            let sample = owned_framed(origin_id, Ok(fields), frame.payload)->Ok_0;
            let screened = owned_screened(view, Some(sample)).1;
            let (after, handed) = owned_received(
                view,
                screened->Some_0,
                Ok(frame.metadata),
                None,
            );
            &&& screened == Some(sample)
            &&& after == view
            &&& handed is Some
            &&& handed->Some_0.0.metadata == frame.metadata
            &&& handed->Some_0.0.payload == frame.payload
            &&& frame.payload is Some ==> handed->Some_0.0.payload->Some_0.len()
                == frame.payload->Some_0.len()
        }),
{
}

/// Screening changes nothing but the count of delivered samples, which an own
/// sample raises by one.
pub proof fn law_screening_counts_own_samples(view: TransportView, sample: OwnedSampleView)
    ensures
        ({
            let after = owned_screened(view, Some(sample)).0;
            let own = sample.origin_id == view.config.origin_id;
            &&& own ==> after == (TransportView { delivery: after.delivery, ..view })
                && after.delivery.written == view.delivery.written && (view.delivery.delivered
                < u64::MAX ==> after.delivery.delivered == view.delivery.delivered + 1)
            &&& !own ==> after == view
        }),
        owned_screened(view, None) == (view, None::<OwnedSampleView>),
{
}

/// The views of samples, frames and what becomes of them show every field and
/// every result.
pub proof fn law_owned_values_are_seen_whole(
    sample: UpDdsOwnedSampleV1,
    frame: OwnedFrame,
    tokens: Vec<u64>,
    detail: String,
    status: Status,
)
    ensures
        sample@.origin_id == sample.origin_id@,
        sample@.metadata_fields == sample.metadata_fields@,
        sample@.has_payload == sample.has_payload,
        sample@.payload == sample.payload@,
        frame@.metadata == frame.metadata@,
        frame@.payload is Some <==> frame.payload is Some,
        frame.payload is Some ==> frame@.payload->Some_0 == frame.payload->Some_0@,
        frame.metadata@.id == frame.metadata.id,
        frame.metadata@.source == frame.metadata.source@,
        frame.metadata@.sink is Some <==> frame.metadata.sink is Some,
        frame.metadata.sink is Some ==> frame.metadata@.sink->Some_0
            == frame.metadata.sink->Some_0@,
        frame.metadata@.payload_encoding == frame.metadata.payload_encoding,
        metadata_result(Ok(frame.metadata)) == Ok::<MetadataView, Seq<char>>(frame.metadata@),
        metadata_result(Err(detail)) == Err::<MetadataView, Seq<char>>(detail@),
        frame_result(Ok(frame)) == Ok::<FrameView, Seq<char>>(frame@),
        frame_result(Err(detail)) == Err::<FrameView, Seq<char>>(detail@),
        sample_result(Ok(sample)) == Ok::<OwnedSampleView, StatusView>(sample@),
        sample_result(Err(status)) == Err::<OwnedSampleView, StatusView>(status@),
        taken_view(Some(sample)) == Some(sample@),
        taken_view(None) is None,
        dispatch_view(Some((frame, tokens))) == Some((frame@, tokens@)),
        dispatch_view(None) is None,
{
}

} // verus!
