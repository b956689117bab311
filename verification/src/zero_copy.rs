//! Behavioral zero-copy family: frames of a selected wire format behind loaned
//! buffers.
//!
//! Transmit loans are exclusive transport-owned aligned heap allocations. DDS
//! offers no native transmit or receive loan here, so commit and receive
//! copy. The encoded metadata stays opaque; source and sink travel beside it as
//! routing hints.

use std::sync::Arc;

use vstd::prelude::*;

pub use crate::family::{ZERO_COPY_TOPIC_V1, ZERO_COPY_TYPE_V1};

use crate::buffer::{loan_valid, AlignedBytes};
use crate::config::{config_outcome, default_config, DdsConfig};
use crate::family::Family;
use crate::health::{DdsHealth, HealthErrorKind, LogEntry};
use crate::owned::{FrameMetadata, MetadataView};
use crate::payload::{copy_bytes, presence_consistent};
use crate::registry::{law_matching_is_exact, selected_tokens, selects};
use crate::setup::{Setup, SetupStep, SetupView};
use crate::status::{closed_view, invalid_view, outcome_view, Status, StatusView};
use crate::text::join;
use crate::transport::{
    fresh, registered_effect, registration_effect, removal_effect, token_outcome,
    unregistered_effect, Readiness, Transport, TransportView,
};
use crate::uri::{
    maybe_ref_view, maybe_view, parse, parsed_view, plain_uri, reads_back, to_uri, uri_parse,
    uri_text, Uri, UriView,
};

verus! {

/// Normative behavioral zero-copy outer sample.
#[derive(Debug, PartialEq, Eq)]
pub struct UpDdsZeroCopySampleV1 {
    /// Exact originating transport instance.
    pub origin_id: String,
    /// Side-band source URI used only for routing.
    pub source_uri: String,
    /// Whether the side-band sink URI is present.
    pub has_sink: bool,
    /// Side-band sink URI, empty only when `has_sink` is false.
    pub sink_uri: String,
    /// Whether a payload is present, including a present empty payload.
    pub has_payload: bool,
    /// Opaque selected-wire metadata, carried byte-for-byte.
    pub encoded_metadata: Vec<u8>,
    /// Opaque selected-wire payload bytes.
    pub payload: Vec<u8>,
}

/// A zero-copy sample as contracts see it.
#[verifier::ext_equal]
pub struct ZeroCopySampleView {
    /// Originating transport instance.
    pub origin_id: Seq<char>,
    /// Source hint.
    pub source_uri: Seq<char>,
    /// Whether there is a sink hint.
    pub has_sink: bool,
    /// Sink hint.
    pub sink_uri: Seq<char>,
    /// Whether a payload is present.
    pub has_payload: bool,
    /// Opaque metadata.
    pub encoded_metadata: Seq<u8>,
    /// Opaque payload.
    pub payload: Seq<u8>,
}

impl View for UpDdsZeroCopySampleV1 {
    type V = ZeroCopySampleView;

    open spec fn view(&self) -> ZeroCopySampleView {
        ZeroCopySampleView {
            origin_id: self.origin_id@,
            source_uri: self.source_uri@,
            has_sink: self.has_sink,
            sink_uri: self.sink_uri@,
            has_payload: self.has_payload,
            encoded_metadata: self.encoded_metadata@,
            payload: self.payload@,
        }
    }
}

impl Clone for UpDdsZeroCopySampleV1 {
    fn clone(&self) -> (copy: UpDdsZeroCopySampleV1)
        ensures
            copy@ == self@,
    {
        UpDdsZeroCopySampleV1 {
            origin_id: self.origin_id.clone(),
            source_uri: self.source_uri.clone(),
            has_sink: self.has_sink,
            sink_uri: self.sink_uri.clone(),
            has_payload: self.has_payload,
            encoded_metadata: copy_bytes(self.encoded_metadata.as_slice()),
            payload: copy_bytes(self.payload.as_slice()),
        }
    }
}

/// What is to be lent out: metadata in both forms and the wanted payload.
#[derive(Debug, PartialEq, Eq)]
pub struct PreparedTxLoanSpec {
    /// Metadata of the frame.
    pub metadata: FrameMetadata,
    /// The metadata in the selected wire format.
    pub encoded_metadata: Vec<u8>,
    /// Whether the frame has a payload.
    pub has_payload: bool,
    /// Length of the payload.
    pub payload_len: usize,
    /// Alignment of the payload.
    pub payload_alignment: usize,
}

/// A loaned buffer as contracts see it.
#[verifier::ext_equal]
pub struct TxBufferView {
    /// Metadata of the frame.
    pub metadata: MetadataView,
    /// Source hint.
    pub source_uri: Seq<char>,
    /// Sink hint.
    pub sink_uri: Option<Seq<char>>,
    /// Whether the frame has a payload.
    pub has_payload: bool,
    /// The metadata in the selected wire format.
    pub encoded_metadata: Seq<u8>,
    /// Payload bytes.
    pub payload: Seq<u8>,
}

/// Text of an optional address.
pub open spec fn maybe_uri_text(uri: Option<UriView>) -> Option<Seq<char>> {
    match uri {
        Some(uri) => Some(uri_text(uri)),
        None => None,
    }
}

/// An optional text as contracts see it.
pub open spec fn hint_view(hint: Option<String>) -> Option<Seq<char>> {
    match hint {
        Some(hint) => Some(hint@),
        None => None,
    }
}

/// The buffer that a request is answered with: the hints are the addresses of
/// the metadata, the payload is zero.
pub open spec fn lent_buffer(spec: PreparedTxLoanSpec) -> TxBufferView {
    TxBufferView {
        metadata: spec.metadata@,
        source_uri: uri_text(spec.metadata@.source),
        sink_uri: maybe_uri_text(spec.metadata@.sink),
        has_payload: spec.has_payload,
        encoded_metadata: spec.encoded_metadata@,
        payload: Seq::new(spec.payload_len as nat, |i: int| 0u8),
    }
}

/// Whether the hints of metadata are read back as the addresses they stand for.
pub open spec fn hints_read_back(metadata: MetadataView) -> bool {
    &&& reads_back(metadata.source)
    &&& metadata.sink is Some ==> reads_back(metadata.sink->Some_0)
}

/// Whether the addresses of metadata are plain.
pub open spec fn plain_metadata(metadata: MetadataView) -> bool {
    plain_uri(metadata.source) && (metadata.sink is Some ==> plain_uri(metadata.sink->Some_0))
}

/// The parts of a loan other than its payload bytes.
fn loan_parts(spec: &PreparedTxLoanSpec) -> (parts: (
    FrameMetadata,
    String,
    Option<String>,
    bool,
    Vec<u8>,
))
    ensures
        parts.0@ == spec.metadata@,
        parts.1@ == uri_text(spec.metadata@.source),
        hint_view(parts.2) == maybe_uri_text(spec.metadata@.sink),
        parts.3 == spec.has_payload,
        parts.4@ == spec.encoded_metadata@,
        plain_metadata(spec.metadata@) ==> hints_read_back(spec.metadata@),
{
    let sink_uri = match &spec.metadata.sink {
        Some(sink) => Some(to_uri(sink)),
        None => None,
    };
    (
        spec.metadata.clone(),
        to_uri(&spec.metadata.source),
        sink_uri,
        spec.has_payload,
        copy_bytes(spec.encoded_metadata.as_slice()),
    )
}

/// Initialized aligned transmit loan.
pub struct DdsTxBuffer {
    metadata: FrameMetadata,
    source_uri: String,
    sink_uri: Option<String>,
    has_payload: bool,
    encoded_metadata: Vec<u8>,
    payload: AlignedBytes,
}

impl View for DdsTxBuffer {
    type V = TxBufferView;

    closed spec fn view(&self) -> TxBufferView {
        TxBufferView {
            metadata: self.metadata@,
            source_uri: self.source_uri@,
            sink_uri: hint_view(self.sink_uri),
            has_payload: self.has_payload,
            encoded_metadata: self.encoded_metadata@,
            payload: self.payload@,
        }
    }
}

impl DdsTxBuffer {
    /// The payload lies within its allocation.
    pub closed spec fn wf(&self) -> bool {
        self.payload.wf()
    }

    /// Address of the first payload byte, counted from the address that was
    /// drawn for its allocation. This is ghost only.
    pub closed spec fn payload_address(&self) -> int {
        self.payload.address()
    }

    /// Metadata of the frame.
    pub fn metadata(&self) -> (metadata: &FrameMetadata)
        ensures
            metadata@ == self@.metadata,
    {
        &self.metadata
    }

    /// The payload bytes.
    pub fn payload(&self) -> (payload: &[u8])
        requires
            self.wf(),
        ensures
            payload@ == self@.payload,
    {
        self.payload.as_slice()
    }

    /// The payload bytes, to be changed in place.
    pub fn payload_mut(&mut self) -> (payload: &mut [u8])
        requires
            old(self).wf(),
        ensures
            payload@ == old(self)@.payload,
            final(payload)@.len() == payload@.len() ==> final(self).wf(),
            final(payload)@.len() == payload@.len() ==> final(self)@ == (TxBufferView {
                payload: final(payload)@,
                ..old(self)@
            }),
            final(self).payload_address() == old(self).payload_address(),
    {
        self.payload.as_mut_slice()
    }
}

/// Uninitialized aligned transmit loan.
pub struct DdsUninitTxBuffer {
    metadata: FrameMetadata,
    source_uri: String,
    sink_uri: Option<String>,
    has_payload: bool,
    encoded_metadata: Vec<u8>,
    payload: AlignedBytes,
}

impl View for DdsUninitTxBuffer {
    type V = TxBufferView;

    closed spec fn view(&self) -> TxBufferView {
        TxBufferView {
            metadata: self.metadata@,
            source_uri: self.source_uri@,
            sink_uri: hint_view(self.sink_uri),
            has_payload: self.has_payload,
            encoded_metadata: self.encoded_metadata@,
            payload: self.payload@,
        }
    }
}

impl DdsUninitTxBuffer {
    /// The payload lies within its allocation.
    pub closed spec fn wf(&self) -> bool {
        self.payload.wf()
    }

    /// Address of the first payload byte, counted from the address that was
    /// drawn for its allocation. This is ghost only.
    pub closed spec fn payload_address(&self) -> int {
        self.payload.address()
    }

    /// Metadata of the frame.
    pub fn metadata(&self) -> (metadata: &FrameMetadata)
        ensures
            metadata@ == self@.metadata,
    {
        &self.metadata
    }

    /// Number of payload bytes.
    pub fn payload_len(&self) -> (len: usize)
        requires
            self.wf(),
        ensures
            len == self@.payload.len(),
    {
        self.payload.len()
    }

    /// The payload bytes, to be written in place.
    pub fn payload_uninit_mut(&mut self) -> (payload: &mut [u8])
        requires
            old(self).wf(),
        ensures
            payload@ == old(self)@.payload,
            final(payload)@.len() == payload@.len() ==> final(self).wf(),
            final(payload)@.len() == payload@.len() ==> final(self)@ == (TxBufferView {
                payload: final(payload)@,
                ..old(self)@
            }),
            final(self).payload_address() == old(self).payload_address(),
    {
        self.payload.as_mut_slice()
    }

    /// The same loan, once its payload is written.
    pub fn assume_payload_init(self) -> (buffer: DdsTxBuffer)
        requires
            self.wf(),
        ensures
            buffer.wf(),
            buffer@ == self@,
            buffer.payload_address() == self.payload_address(),
    {
        DdsTxBuffer {
            metadata: self.metadata,
            source_uri: self.source_uri,
            sink_uri: self.sink_uri,
            has_payload: self.has_payload,
            encoded_metadata: self.encoded_metadata,
            payload: self.payload,
        }
    }
}

/// Immutable receive lease backed by owned taken-sample storage, which its
/// clones share.
#[derive(Debug, PartialEq, Eq)]
pub struct DdsRxFrame {
    encoded_metadata: Arc<Vec<u8>>,
    payload: Arc<Vec<u8>>,
}

/// A receive lease as contracts see it.
#[verifier::ext_equal]
pub struct RxFrameView {
    /// The metadata in the selected wire format.
    pub encoded_metadata: Seq<u8>,
    /// Payload bytes.
    pub payload: Seq<u8>,
}

impl View for DdsRxFrame {
    type V = RxFrameView;

    closed spec fn view(&self) -> RxFrameView {
        RxFrameView { encoded_metadata: self.encoded_metadata@, payload: self.payload@ }
    }
}

impl Clone for DdsRxFrame {
    /// Another handle on the same bytes.
    fn clone(&self) -> (copy: DdsRxFrame)
        ensures
            copy == *self,
            copy@ == self@,
    {
        DdsRxFrame {
            encoded_metadata: self.encoded_metadata.clone(),
            payload: self.payload.clone(),
        }
    }
}

impl DdsRxFrame {
    /// The metadata in the selected wire format.
    pub fn encoded_metadata(&self) -> (metadata: &[u8])
        ensures
            metadata@ == self@.encoded_metadata,
    {
        self.encoded_metadata.as_slice()
    }

    /// Number of payload bytes.
    pub fn payload_len(&self) -> (len: usize)
        ensures
            len == self@.payload.len(),
    {
        self.payload.len()
    }

    /// The payload, to be read from the start.
    pub fn payload_reader(&self) -> (reader: &[u8])
        ensures
            reader@ == self@.payload,
    {
        self.payload.as_slice()
    }

    /// The payload as a list of slices, which is a single one.
    pub fn payload_slices(&self) -> (slices: Vec<&[u8]>)
        ensures
            slices@.len() == 1,
            slices@[0]@ == self@.payload,
    {
        let mut slices: Vec<&[u8]> = Vec::new();
        slices.push(self.payload.as_slice());
        slices
    }

    /// The payload in one piece, which there always is.
    pub fn try_contiguous_payload(&self) -> (payload: Option<&[u8]>)
        ensures
            payload is Some,
            payload->Some_0@ == self@.payload,
    {
        Some(self.payload.as_slice())
    }
}

/// What a sample decodes to, given what its hints parse to.
pub open spec fn zero_copy_assembled(
    sample: ZeroCopySampleView,
    source: Result<UriView, Seq<char>>,
    sink: Option<Result<UriView, Seq<char>>>,
) -> Result<(UriView, Option<UriView>, RxFrameView), Seq<char>> {
    let frame = RxFrameView { encoded_metadata: sample.encoded_metadata, payload: sample.payload };
    if !sample.has_sink && sample.sink_uri.len() != 0 {
        Err("zero-copy sample has sink bytes while has_sink is false"@)
    } else if sample.has_sink && sample.sink_uri.len() == 0 {
        Err("zero-copy sample has an empty present sink"@)
    } else if !presence_consistent(sample.has_payload, sample.payload) {
        Err("zero-copy sample has payload bytes while has_payload is false"@)
    } else {
        match source {
            Err(detail) => Err("invalid zero-copy source URI: "@ + detail),
            Ok(source) => match sink {
                None => Ok((source, None, frame)),
                Some(Err(detail)) => Err("invalid zero-copy sink URI: "@ + detail),
                Some(Ok(sink)) => Ok((source, Some(sink), frame)),
            },
        }
    }
}

/// What the sink hint of a sample parses to, if there is one.
pub open spec fn sink_hint(sample: ZeroCopySampleView) -> Option<Result<UriView, Seq<char>>> {
    if sample.has_sink {
        Some(uri_parse(sample.sink_uri))
    } else {
        None
    }
}

/// What a sample decodes to.
pub open spec fn zero_copy_decoded(sample: ZeroCopySampleView) -> Result<
    (UriView, Option<UriView>, RxFrameView),
    Seq<char>,
> {
    zero_copy_assembled(sample, uri_parse(sample.source_uri), sink_hint(sample))
}

/// A decoded sample as contracts see it.
pub open spec fn decoded_view(
    decoded: Result<(Uri, Option<Uri>, DdsRxFrame), String>,
) -> Result<(UriView, Option<UriView>, RxFrameView), Seq<char>> {
    match decoded {
        Ok((source, sink, frame)) => Ok((source@, maybe_view(sink), frame@)),
        Err(detail) => Err(detail@),
    }
}

/// What an optional hint parsed to, as contracts see it.
pub open spec fn parsed_hint(parsed: Option<Result<Uri, String>>) -> Option<
    Result<UriView, Seq<char>>,
> {
    match parsed {
        Some(parsed) => Some(parsed_view(parsed)),
        None => None,
    }
}

/// Builds routing addresses and frame of a sample from what its hints parsed to.
pub fn assemble_zero_copy(
    sample: UpDdsZeroCopySampleV1,
    source: Result<Uri, String>,
    sink: Option<Result<Uri, String>>,
) -> (decoded: Result<(Uri, Option<Uri>, DdsRxFrame), String>)
    ensures
        decoded_view(decoded) == zero_copy_assembled(
            sample@,
            parsed_view(source),
            parsed_hint(sink),
        ),
{
    if !sample.has_sink && !sample.sink_uri.as_str().is_empty() {
        return Err("zero-copy sample has sink bytes while has_sink is false".to_owned());
    }
    if sample.has_sink && sample.sink_uri.as_str().is_empty() {
        return Err("zero-copy sample has an empty present sink".to_owned());
    }
    if !sample.has_payload && sample.payload.len() != 0 {
        return Err("zero-copy sample has payload bytes while has_payload is false".to_owned());
    }
    let source = match source {
        Ok(source) => source,
        Err(detail) => {
            return Err(join("invalid zero-copy source URI: ", detail.as_str()));
        },
    };
    let sink = match sink {
        None => None,
        Some(Ok(sink)) => Some(sink),
        Some(Err(detail)) => {
            return Err(join("invalid zero-copy sink URI: ", detail.as_str()));
        },
    };
    let frame = DdsRxFrame {
        encoded_metadata: Arc::new(sample.encoded_metadata),
        payload: Arc::new(sample.payload),
    };
    Ok((source, sink, frame))
}

/// Decodes a sample into its routing addresses and its frame. The addresses are
/// read back when they are sent on as hints.
pub fn decode_zero_copy(sample: UpDdsZeroCopySampleV1) -> (decoded: Result<
    (Uri, Option<Uri>, DdsRxFrame),
    String,
>)
    ensures
        decoded_view(decoded) == zero_copy_decoded(sample@),
        decoded is Ok ==> reads_back(decoded->Ok_0.0@),
        decoded is Ok && decoded->Ok_0.1 is Some ==> reads_back(decoded->Ok_0.1->Some_0@),
{
    let source = parse(sample.source_uri.as_str());
    let sink = if sample.has_sink {
        Some(parse(sample.sink_uri.as_str()))
    } else {
        None
    };
    assemble_zero_copy(sample, source, sink)
}

/// The sample of a buffer.
pub open spec fn zero_copy_framed(
    origin_id: Seq<char>,
    buffer: TxBufferView,
) -> ZeroCopySampleView {
    ZeroCopySampleView {
        origin_id,
        source_uri: buffer.source_uri,
        has_sink: buffer.sink_uri is Some,
        sink_uri: match buffer.sink_uri {
            Some(sink) => sink,
            None => Seq::empty(),
        },
        has_payload: buffer.has_payload,
        encoded_metadata: buffer.encoded_metadata,
        payload: buffer.payload,
    }
}

/// Turns a buffer into the sample of the given origin.
pub fn encode_zero_copy(origin_id: &str, buffer: DdsTxBuffer) -> (sample: UpDdsZeroCopySampleV1)
    requires
        buffer.wf(),
    ensures
        sample@ == zero_copy_framed(origin_id@, buffer@),
{
    let payload = copy_bytes(buffer.payload.as_slice());
    let (has_sink, sink_uri) = match buffer.sink_uri {
        Some(sink) => (true, sink),
        None => (false, String::new()),
    };
    let sample = UpDdsZeroCopySampleV1 {
        origin_id: origin_id.to_owned(),
        source_uri: buffer.source_uri,
        has_sink,
        sink_uri,
        has_payload: buffer.has_payload,
        encoded_metadata: buffer.encoded_metadata,
        payload,
    };
    assert(sample@ =~= zero_copy_framed(origin_id@, buffer@));
    sample
}

/// Which frame a taken sample hands to which listeners, and what the transport
/// remembers of it.
pub open spec fn zero_copy_received(
    view: TransportView,
    sample: Option<ZeroCopySampleView>,
) -> (TransportView, Option<(RxFrameView, Seq<u64>)>) {
    match sample {
        None => (view, None),
        Some(sample) => if sample.origin_id == view.config.origin_id {
            (view.with_delivery(view.delivery.after_delivery()), None)
        } else {
            match zero_copy_decoded(sample) {
                Err(detail) => (view.with_error(HealthErrorKind::MalformedSample, detail), None),
                Ok((source, sink, frame)) => (
                    view,
                    Some((frame, selected_tokens(view.registry.active, source, sink))),
                ),
            }
        },
    }
}

/// A taken sample as contracts see it.
pub open spec fn taken_view(sample: Option<UpDdsZeroCopySampleV1>) -> Option<ZeroCopySampleView> {
    match sample {
        Some(sample) => Some(sample@),
        None => None,
    }
}

/// A frame and its listeners as contracts see them.
pub open spec fn dispatch_view(dispatch: Option<(DdsRxFrame, Vec<u64>)>) -> Option<
    (RxFrameView, Seq<u64>),
> {
    match dispatch {
        Some((frame, tokens)) => Some((frame@, tokens@)),
        None => None,
    }
}

/// Behavioral zero-copy core over a versioned DDS topic.
pub struct DdsZeroCopyCore {
    /// State that all families share.
    pub core: Transport,
}

impl DdsZeroCopyCore {
    /// The shared state is well formed and belongs to this family.
    pub open spec fn wf(&self) -> bool {
        self.core.wf() && self.core@.family == Family::ZeroCopy
    }

    /// Starts a zero-copy core with default configuration for a domain.
    pub fn new(domain_id: i32, process_id: u32, sequence: u64) -> (started: Result<Setup, Status>)
        ensures
            started is Ok,
            started->Ok_0.wf(),
            started->Ok_0@ == (SetupView {
                family: Family::ZeroCopy,
                config: default_config(domain_id, process_id, sequence),
                step: SetupStep::Participant,
            }),
    {
        Self::with_config(DdsConfig::new(domain_id, process_id, sequence))
    }

    /// Starts a zero-copy core with explicit domain, origin, quality of
    /// service and limits.
    pub fn with_config(config: DdsConfig) -> (started: Result<Setup, Status>)
        ensures
            match started {
                Ok(setup) => {
                    &&& config_outcome(config@) is Ok
                    &&& setup.wf()
                    &&& setup@ == (SetupView {
                        family: Family::ZeroCopy,
                        config: config@,
                        step: SetupStep::Participant,
                    })
                },
                Err(status) => config_outcome(config@) == Err::<(), StatusView>(status@),
            },
    {
        Setup::begin(Family::ZeroCopy, config)
    }

    /// The core, once everything is there.
    pub fn ready(setup: Setup) -> (transport: DdsZeroCopyCore)
        requires
            setup.wf(),
            setup@.step is Ready,
            setup@.family == Family::ZeroCopy,
        ensures
            transport.wf(),
            transport.core@ == fresh(Family::ZeroCopy, setup@.config),
    {
        DdsZeroCopyCore { core: setup.finish() }
    }

    /// Starts a wait until at least the given number of readers is matched.
    pub fn wait_ready(&self, required_matched_readers: usize) -> (readiness: Result<
        Readiness,
        Status,
    >)
        ensures
            match readiness {
                Err(status) => !self.core@.open && status@ == closed_view(),
                Ok(readiness) => self.core@.open && readiness == if required_matched_readers == 0 {
                    Readiness::Ready
                } else {
                    Readiness::Poll
                },
            },
    {
        self.core.wait_ready(required_matched_readers)
    }

    /// Health of the transport.
    #[must_use]
    pub fn health(&self) -> (health: &DdsHealth)
        requires
            self.wf(),
        ensures
            health.wf(),
            health.log() == self.core@.log,
    {
        self.core.health()
    }

    /// This instance's configured origin identity.
    #[must_use]
    pub fn origin_id(&self) -> (origin: &str)
        ensures
            origin@ == self.core@.config.origin_id,
    {
        self.core.origin_id()
    }

    /// Lends out a buffer of zero bytes.
    pub fn loan_prepared_tx(&self, spec: &PreparedTxLoanSpec) -> (lent: Result<DdsTxBuffer, Status>)
        ensures
            match lent {
                Ok(buffer) => {
                    &&& loan_valid(spec.payload_len as nat, spec.payload_alignment as nat)
                    &&& buffer.wf()
                    &&& buffer@ == lent_buffer(*spec)
                    &&& buffer.payload_address() % (spec.payload_alignment as int) == 0
                    &&& plain_metadata(spec.metadata@) ==> hints_read_back(spec.metadata@)
                },
                Err(status) => {
                    &&& !loan_valid(spec.payload_len as nat, spec.payload_alignment as nat)
                    &&& status@ == invalid_view("invalid requested payload allocation layout"@)
                },
            },
    {
        match AlignedBytes::zeroed(spec.payload_len, spec.payload_alignment) {
            Err(status) => Err(status),
            Ok(payload) => {
                let (metadata, source_uri, sink_uri, has_payload, encoded_metadata) = loan_parts(
                    spec,
                );
                Ok(
                    DdsTxBuffer {
                        metadata,
                        source_uri,
                        sink_uri,
                        has_payload,
                        encoded_metadata,
                        payload,
                    },
                )
            },
        }
    }

    /// Lends out a buffer whose payload is to be written before it is sent.
    pub fn loan_prepared_uninit_tx(&self, spec: &PreparedTxLoanSpec) -> (lent: Result<
        DdsUninitTxBuffer,
        Status,
    >)
        ensures
            match lent {
                Ok(buffer) => {
                    &&& loan_valid(spec.payload_len as nat, spec.payload_alignment as nat)
                    &&& buffer.wf()
                    &&& buffer@ == lent_buffer(*spec)
                    &&& buffer.payload_address() % (spec.payload_alignment as int) == 0
                    &&& plain_metadata(spec.metadata@) ==> hints_read_back(spec.metadata@)
                },
                Err(status) => {
                    &&& !loan_valid(spec.payload_len as nat, spec.payload_alignment as nat)
                    &&& status@ == invalid_view("invalid requested payload allocation layout"@)
                },
            },
    {
        match AlignedBytes::uninitialized(spec.payload_len, spec.payload_alignment) {
            Err(status) => Err(status),
            Ok(payload) => {
                let (metadata, source_uri, sink_uri, has_payload, encoded_metadata) = loan_parts(
                    spec,
                );
                Ok(
                    DdsUninitTxBuffer {
                        metadata,
                        source_uri,
                        sink_uri,
                        has_payload,
                        encoded_metadata,
                        payload,
                    },
                )
            },
        }
    }

    /// Turns a loaned buffer into the sample that is to be written.
    pub fn send_prepared_zero_copy(&self, buffer: DdsTxBuffer) -> (sample: Result<
        UpDdsZeroCopySampleV1,
        Status,
    >)
        requires
            buffer.wf(),
        ensures
            match sample {
                Ok(sample) => self.core@.open && sample@ == zero_copy_framed(
                    self.core@.config.origin_id,
                    buffer@,
                ),
                Err(status) => !self.core@.open && status@ == closed_view(),
            },
    {
        match self.core.ensure_open() {
            Err(status) => Err(status),
            Ok(_) => Ok(encode_zero_copy(self.core.origin_id(), buffer)),
        }
    }

    /// Takes in one taken sample and answers the frame that it carries with
    /// the tokens of the listeners that its hints select.
    pub fn receive(&mut self, sample: Option<UpDdsZeroCopySampleV1>) -> (dispatch: Option<
        (DdsRxFrame, Vec<u64>),
    >)
        requires
            old(self).wf(),
            old(self).core@.has_room(),
        ensures
            final(self).wf(),
            (final(self).core@, dispatch_view(dispatch)) == zero_copy_received(
                old(self).core@,
                taken_view(sample),
            ),
    {
        let sample = match sample {
            None => {
                return None;
            },
            Some(sample) => sample,
        };
        if !self.core.is_foreign(&sample.origin_id) {
            return None;
        }
        match decode_zero_copy(sample) {
            Err(detail) => {
                self.core.malformed(detail);
                None
            },
            Ok((source, sink, frame)) => {
                let tokens = self.core.route(&source, sink.as_ref());
                Some((frame, tokens))
            },
        }
    }

    /// Registers a listener whose filters were checked before.
    pub fn register_encoded_zero_copy_listener(
        &mut self,
        source: &Uri,
        sink: Option<&Uri>,
        listener: u64,
    ) -> (outcome: Result<(), Status>)
        requires
            old(self).wf(),
            old(self).core@.registry.next_token < u64::MAX,
        ensures
            final(self).wf(),
            registered_effect(
                old(self).core@,
                final(self).core@,
                source@,
                maybe_ref_view(sink),
                listener,
                outcome_view(outcome),
            ),
    {
        self.core.register(source, sink, listener)
    }

    /// Removes a listener whose filters were checked before.
    pub fn unregister_encoded_zero_copy_listener(
        &mut self,
        source: &Uri,
        sink: Option<&Uri>,
        listener: u64,
    ) -> (outcome: Result<u64, Status>)
        requires
            old(self).wf(),
        ensures
            final(self).wf(),
            unregistered_effect(
                old(self).core@,
                final(self).core@,
                source@,
                maybe_ref_view(sink),
                listener,
                token_outcome(outcome),
            ),
    {
        self.core.unregister(source, sink, listener)
    }

    /// Checks the filters and registers a listener.
    pub fn register_zero_copy_listener(
        &mut self,
        source: &Uri,
        sink: Option<&Uri>,
        listener: u64,
    ) -> (outcome: Result<(), Status>)
        requires
            old(self).wf(),
            old(self).core@.registry.next_token < u64::MAX,
        ensures
            final(self).wf(),
            registration_effect(
                old(self).core@,
                final(self).core@,
                source@,
                maybe_ref_view(sink),
                listener,
                outcome_view(outcome),
            ),
    {
        self.core.register_checked(source, sink, listener)
    }

    /// Checks the filters and removes a listener. Callbacks may still be
    /// running under the token that is answered; none starts any more.
    pub fn unregister_zero_copy_listener(
        &mut self,
        source: &Uri,
        sink: Option<&Uri>,
        listener: u64,
    ) -> (outcome: Result<u64, Status>)
        requires
            old(self).wf(),
        ensures
            final(self).wf(),
            removal_effect(
                old(self).core@,
                final(self).core@,
                source@,
                maybe_ref_view(sink),
                listener,
                token_outcome(outcome),
            ),
    {
        self.core.unregister_checked(source, sink, listener)
    }
}

/// The text of an address is never empty.
proof fn lemma_uri_text_nonempty(uri: UriView)
    ensures
        uri_text(uri).len() > 0,
{
    reveal_strlit("/");
}

/// What is written is what is read: the encoded metadata and the payload of a
/// loan arrive byte for byte, and the hints route by the addresses of the
/// metadata wherever these are read back from their texts.
pub proof fn law_zero_copy_frames_survive_carriage(
    origin_id: Seq<char>,
    spec: PreparedTxLoanSpec,
    payload: Seq<u8>,
)
    requires
        hints_read_back(spec.metadata@),
        presence_consistent(spec.has_payload, payload),
    ensures
        zero_copy_decoded(
            zero_copy_framed(origin_id, TxBufferView { payload, ..lent_buffer(spec) }),
        ) == Ok::<(UriView, Option<UriView>, RxFrameView), Seq<char>>(
            (
                spec.metadata@.source,
                spec.metadata@.sink,
                RxFrameView { encoded_metadata: spec.encoded_metadata@, payload },
            ),
        ),
{
    lemma_uri_text_nonempty(spec.metadata@.source);
    if spec.metadata@.sink is Some {
        lemma_uri_text_nonempty(spec.metadata@.sink->Some_0);
    }
}

/// The hints alone decide on a sample and its listeners: of two samples with
/// the same hints whose payload flags are equally consistent, both are decoded,
/// to the same addresses, or both are refused for the same reason; and a
/// transport to which both are foreign hands both to the same listeners or
/// records the same error, whatever their opaque metadata and payload.
pub proof fn law_routing_ignores_opaque_bytes(
    view: TransportView,
    first: ZeroCopySampleView,
    second: ZeroCopySampleView,
)
    requires
        first.source_uri == second.source_uri,
        first.has_sink == second.has_sink,
        first.sink_uri == second.sink_uri,
        presence_consistent(first.has_payload, first.payload) == presence_consistent(
            second.has_payload,
            second.payload,
        ),
    ensures
        match (zero_copy_decoded(first), zero_copy_decoded(second)) {
            (Ok(one), Ok(other)) => one.0 == other.0 && one.1 == other.1,
            (Err(one), Err(other)) => one == other,
            _ => false,
        },
        (first.origin_id == view.config.origin_id) == (second.origin_id == view.config.origin_id)
            ==> {
            let (first_after, first_handed) = zero_copy_received(view, Some(first));
            let (second_after, second_handed) = zero_copy_received(view, Some(second));
            &&& first_after == second_after
            &&& first_handed is Some <==> second_handed is Some
            &&& first_handed is Some ==> first_handed->Some_0.1 == second_handed->Some_0.1
        },
{
}

/// A transport hands none of its own samples to its listeners, and every
/// sample of another origin is either handed on or recorded as malformed.
pub proof fn law_own_samples_are_suppressed(view: TransportView, sample: ZeroCopySampleView)
    ensures
        sample.origin_id == view.config.origin_id ==> zero_copy_received(view, Some(sample)).1
            is None && zero_copy_received(view, Some(sample)).0.log == view.log,
        sample.origin_id != view.config.origin_id ==> (zero_copy_received(view, Some(sample)).1
            is Some <==> zero_copy_received(view, Some(sample)).0.log == view.log),
{
    if sample.origin_id != view.config.origin_id && zero_copy_decoded(sample) is Err {
        let after = zero_copy_received(view, Some(sample)).0;
        assert(after.log.len() == view.log.len() + 1);
    }
}

/// A frame of another origin is handed to exactly the listeners whose filters
/// select its hints.
pub proof fn law_frames_reach_their_listeners(
    view: TransportView,
    sample: ZeroCopySampleView,
    token: u64,
)
    requires
        zero_copy_received(view, Some(sample)).1 is Some,
    ensures
        ({
            let (frame, tokens) = zero_copy_received(view, Some(sample)).1->Some_0;
            let (source, sink, _) = zero_copy_decoded(sample)->Ok_0;
            &&& zero_copy_decoded(sample) == Ok::<
                (UriView, Option<UriView>, RxFrameView),
                Seq<char>,
            >((source, sink, frame))
            &&& tokens.contains(token) <==> exists|i: int|
                0 <= i < view.registry.active.len() && (#[trigger] view.registry.active[i]).token
                    == token && selects(view.registry.active[i], source, sink)
        }),
{
    let (source, sink, _) = zero_copy_decoded(sample)->Ok_0;
    law_matching_is_exact(view.registry, source, sink, token);
}

/// A loan is what was asked for: its metadata in both forms, the texts of its
/// source and of its sink if it has one, the flag of its payload, and as many
/// zero bytes as its payload is long.
pub proof fn law_loans_are_what_was_asked_for(spec: PreparedTxLoanSpec, at: int)
    ensures
        ({
            let lent = lent_buffer(spec);
            &&& lent.metadata == spec.metadata@
            &&& lent.source_uri == uri_text(spec.metadata@.source)
            &&& lent.sink_uri is Some <==> spec.metadata.sink is Some
            &&& spec.metadata.sink is Some ==> lent.sink_uri->Some_0 == uri_text(
                spec.metadata.sink->Some_0@,
            )
            &&& lent.has_payload == spec.has_payload
            &&& lent.encoded_metadata == spec.encoded_metadata@
            &&& lent.payload.len() == spec.payload_len
            &&& 0 <= at < spec.payload_len ==> lent.payload[at] == 0
        }),
{
}

/// A buffer travels under the origin of its sender with its hints, its flag,
/// its metadata and its payload, byte for byte; an absent sink hint leaves flag
/// and text empty.
pub proof fn law_zero_copy_samples_hold_the_buffer(origin_id: Seq<char>, buffer: TxBufferView)
    ensures
        ({
            let sample = zero_copy_framed(origin_id, buffer);
            &&& sample.origin_id == origin_id
            &&& sample.source_uri == buffer.source_uri
            &&& sample.has_sink <==> buffer.sink_uri is Some
            &&& buffer.sink_uri is Some ==> sample.sink_uri == buffer.sink_uri->Some_0
            &&& buffer.sink_uri is None ==> sample.sink_uri.len() == 0
            &&& sample.has_payload == buffer.has_payload
            &&& sample.encoded_metadata == buffer.encoded_metadata
            &&& sample.payload == buffer.payload
        }),
{
}

/// A sample decodes if and only if its sink hint is empty exactly when it is
/// flagged absent, no payload bytes stand beside a lowered flag, and its hints
/// parse; then it decodes to these addresses and to its metadata and payload
/// bytes. The first thing that is wrong is what the refusal names.
pub proof fn law_what_zero_copy_samples_decode_to(
    sample: ZeroCopySampleView,
    source: Result<UriView, Seq<char>>,
    sink: Option<Result<UriView, Seq<char>>>,
)
    ensures
        ({
            let decoded = zero_copy_assembled(sample, source, sink);
            let stray = !sample.has_sink && sample.sink_uri.len() > 0;
            let missing = sample.has_sink && sample.sink_uri.len() == 0;
            let loose = !sample.has_payload && sample.payload.len() > 0;
            let sound = !stray && !missing && !loose;
            let sink_parses = sink is Some ==> sink->Some_0 is Ok;
            &&& decoded is Ok <==> sound && source is Ok && sink_parses
            &&& decoded is Ok ==> decoded->Ok_0.0 == source->Ok_0
            &&& decoded is Ok ==> (decoded->Ok_0.1 is Some <==> sink is Some)
            &&& decoded is Ok && sink is Some ==> decoded->Ok_0.1->Some_0 == sink->Some_0->Ok_0
            &&& decoded is Ok ==> decoded->Ok_0.2.encoded_metadata == sample.encoded_metadata
            &&& decoded is Ok ==> decoded->Ok_0.2.payload == sample.payload
            &&& stray ==> decoded->Err_0 == "zero-copy sample has sink bytes while has_sink is false"@
            &&& missing ==> decoded->Err_0 == "zero-copy sample has an empty present sink"@
            &&& !stray && !missing && loose ==> decoded->Err_0
                == "zero-copy sample has payload bytes while has_payload is false"@
            &&& sound && source is Err ==> decoded->Err_0 == "invalid zero-copy source URI: "@
                + source->Err_0
            &&& sound && source is Ok && !sink_parses ==> decoded->Err_0
                == "invalid zero-copy sink URI: "@ + sink->Some_0->Err_0
        }),
{
}

/// Decoding asks for what the texts of the hints parse to, for the sink only if
/// it is flagged present.
pub proof fn law_decoding_parses_the_hints(sample: ZeroCopySampleView)
    ensures
        ({
            let decoded = zero_copy_decoded(sample);
            &&& decoded is Ok ==> uri_parse(sample.source_uri) == Ok::<UriView, Seq<char>>(
                decoded->Ok_0.0,
            )
            &&& decoded is Ok ==> (decoded->Ok_0.1 is Some <==> sample.has_sink)
            &&& decoded is Ok && sample.has_sink ==> uri_parse(sample.sink_uri) == Ok::<
                UriView,
                Seq<char>,
            >(decoded->Ok_0.1->Some_0)
            &&& decoded is Ok ==> decoded->Ok_0.2.payload == sample.payload
            &&& decoded is Ok ==> decoded->Ok_0.2.encoded_metadata == sample.encoded_metadata
            &&& (sample.has_sink <==> sample.sink_uri.len() > 0) && (sample.has_payload
                || sample.payload.len() == 0) && uri_parse(sample.source_uri) is Ok && (
            sample.has_sink ==> uri_parse(sample.sink_uri) is Ok) ==> decoded is Ok
        }),
{
}

/// A foreign sample that decodes is handed on as exactly the frame that it
/// decodes to, to the registrations that its hints select, and leaves the
/// transport as it was. One that does not decode is recorded with the reason,
/// an own one is counted as delivered, and neither reaches a listener or
/// changes anything else; no sample changes nothing.
pub proof fn law_received_zero_copy_samples_are_handed_on_whole(
    view: TransportView,
    sample: ZeroCopySampleView,
)
    ensures
        ({
            let (after, handed) = zero_copy_received(view, Some(sample));
            let own = sample.origin_id == view.config.origin_id;
            let decoded = zero_copy_decoded(sample);
            &&& own ==> handed is None && after == (TransportView {
                delivery: after.delivery,
                ..view
            }) && after.delivery.written == view.delivery.written && (view.delivery.delivered
                < u64::MAX ==> after.delivery.delivered == view.delivery.delivered + 1)
            &&& !own && decoded is Ok ==> after == view && handed is Some && handed->Some_0.0
                == decoded->Ok_0.2 && handed->Some_0.1 == selected_tokens(
                view.registry.active,
                decoded->Ok_0.0,
                decoded->Ok_0.1,
            )
            &&& !own && decoded is Err ==> handed is None && after == (TransportView {
                log: view.log.push(
                    LogEntry {
                        kind: HealthErrorKind::MalformedSample,
                        detail: decoded->Err_0,
                    },
                ),
                ..view
            })
        }),
        zero_copy_received(view, None) == (view, None::<(RxFrameView, Seq<u64>)>),
{
}

/// What is sent is what is received: metadata and payload of a loan arrive at
/// another transport byte for byte and of the same length, at the registrations
/// that the addresses of its metadata select.
pub proof fn law_sent_loans_are_received(
    view: TransportView,
    origin_id: Seq<char>,
    spec: PreparedTxLoanSpec,
    payload: Seq<u8>,
)
    requires
        origin_id != view.config.origin_id,
        hints_read_back(spec.metadata@),
        spec.has_payload || payload.len() == 0,
    ensures
        ({
            let sample = zero_copy_framed(
                origin_id,
                TxBufferView { payload, ..lent_buffer(spec) },
            );
            let (after, handed) = zero_copy_received(view, Some(sample));
            &&& after == view
            &&& handed is Some
            &&& handed->Some_0.0.encoded_metadata == spec.encoded_metadata@
            &&& handed->Some_0.0.payload == payload
            &&& handed->Some_0.1 == selected_tokens(
                view.registry.active,
                spec.metadata.source@,
                spec.metadata@.sink,
            )
        }),
{
    law_zero_copy_frames_survive_carriage(origin_id, spec, payload);
}

/// Hints are read back when both addresses are, and plain addresses are plain
/// in both places.
pub proof fn law_hints_stand_for_both_addresses(metadata: MetadataView)
    ensures
        hints_read_back(metadata) ==> uri_parse(uri_text(metadata.source)) == Ok::<
            UriView,
            Seq<char>,
        >(metadata.source),
        hints_read_back(metadata) && metadata.sink is Some ==> uri_parse(
            uri_text(metadata.sink->Some_0),
        ) == Ok::<UriView, Seq<char>>(metadata.sink->Some_0),
        plain_metadata(metadata) ==> plain_uri(metadata.source),
        plain_metadata(metadata) && metadata.sink is Some ==> plain_uri(metadata.sink->Some_0),
        plain_uri(metadata.source) && (metadata.sink is Some ==> plain_uri(metadata.sink->Some_0))
            ==> plain_metadata(metadata),
{
}

/// The views of samples and of what becomes of them show every field and every
/// result.
pub proof fn law_zero_copy_values_are_seen_whole(
    sample: UpDdsZeroCopySampleV1,
    source: Uri,
    sink: Uri,
    frame: DdsRxFrame,
    tokens: Vec<u64>,
    detail: String,
)
    ensures
        sample@.origin_id == sample.origin_id@,
        sample@.source_uri == sample.source_uri@,
        sample@.has_sink == sample.has_sink,
        sample@.sink_uri == sample.sink_uri@,
        sample@.has_payload == sample.has_payload,
        sample@.encoded_metadata == sample.encoded_metadata@,
        sample@.payload == sample.payload@,
        decoded_view(Ok((source, Some(sink), frame))) == Ok::<
            (UriView, Option<UriView>, RxFrameView),
            Seq<char>,
        >((source@, Some(sink@), frame@)),
        decoded_view(Ok((source, None, frame))) == Ok::<
            (UriView, Option<UriView>, RxFrameView),
            Seq<char>,
        >((source@, None, frame@)),
        decoded_view(Err(detail)) == Err::<(UriView, Option<UriView>, RxFrameView), Seq<char>>(
            detail@,
        ),
        hint_view(Some(detail)) == Some(detail@),
        hint_view(None) is None,
        parsed_hint(Some(Ok(sink))) == Some(Ok::<UriView, Seq<char>>(sink@)),
        parsed_hint(Some(Err(detail))) == Some(Err::<UriView, Seq<char>>(detail@)),
        parsed_hint(None) is None,
        taken_view(Some(sample)) == Some(sample@),
        taken_view(None) is None,
        dispatch_view(Some((frame, tokens))) == Some((frame@, tokens@)),
        dispatch_view(None) is None,
{
}

} // verus!
