//! Configuration shared by the three carriage families.

use vstd::prelude::*;
use vstd::utf8::encode_utf8;

use crate::status::{invalid, invalid_view, outcome_view, Status, StatusView};
use crate::text::{
    decimal, decimal_text, join3, lemma_decimal_digits, lemma_decimal_injective,
    lemma_decimal_nonempty,
};

verus! {

/// A span of time in whole seconds and the nanoseconds beyond them.
#[derive(Clone, Copy, Debug, PartialEq, Eq, Structural)]
pub struct Interval {
    /// Whole seconds.
    pub secs: u64,
    /// Nanoseconds beyond the whole seconds.
    pub nanos: u32,
}

impl Interval {
    /// Length of the span in nanoseconds.
    pub open spec fn length(&self) -> nat {
        (self.secs * 1_000_000_000 + self.nanos) as nat
    }

    /// The span of the given number of milliseconds.
    pub open spec fn of_millis(millis: u64) -> Interval {
        Interval { secs: millis / 1000, nanos: ((millis % 1000) * 1_000_000) as u32 }
    }

    /// The span of the given number of milliseconds.
    pub fn from_millis(millis: u64) -> (interval: Interval)
        ensures
            interval == Interval::of_millis(millis),
            interval.length() == millis * 1_000_000,
    {
        let secs: u64 = millis / 1000;
        let nanos: u32 = ((millis % 1000) * 1_000_000) as u32;
        Interval { secs, nanos }
    }

    /// Whether the span is empty.
    pub fn is_zero(&self) -> (zero: bool)
        ensures
            zero == (self.length() == 0),
    {
        self.secs == 0 && self.nanos == 0
    }
}

/// DDS endpoint reliability policy.
#[derive(Clone, Copy, Debug, PartialEq, Eq, Structural)]
pub enum Reliability {
    /// Reliable DDS delivery.
    Reliable,
    /// Best-effort DDS delivery.
    BestEffort,
}

/// Configurable quality of service used by all three carriage families.
#[derive(Clone, Copy, Debug, PartialEq, Eq, Structural)]
pub struct DdsQos {
    /// Reader and writer reliability.
    pub reliability: Reliability,
    /// `KEEP_LAST` history depth.
    pub history_depth: u32,
}

impl Default for DdsQos {
    fn default() -> (qos: DdsQos)
        ensures
            qos == (DdsQos { reliability: Reliability::Reliable, history_depth: 32 }),
    {
        DdsQos { reliability: Reliability::Reliable, history_depth: 32 }
    }
}

/// When a reliable transport waits for its samples to be acknowledged.
#[derive(Clone, Copy, Debug, PartialEq, Eq, Structural)]
pub enum AcknowledgmentMode {
    /// Every send waits until its sample is delivered.
    PerSend,
    /// Sends return after the local write; dropping the transport waits.
    OnDrop,
}

/// Runtime configuration shared by classic, owned, and zero-copy families.
#[derive(Debug)]
pub struct DdsConfig {
    /// DDS domain ID.
    pub domain_id: i32,
    /// Stable identity of this transport instance for exact self suppression.
    pub origin_id: String,
    /// DDS endpoint quality of service.
    pub qos: DdsQos,
    /// Maximum queued callback jobs.
    pub dispatch_capacity: usize,
    /// Maximum samples taken in one poll.
    pub max_samples_per_poll: i32,
    /// Maximum idle wait between nonblocking reader polls.
    pub poll_interval: Interval,
    /// When reliable sends wait for delivery.
    pub acknowledgment_mode: AcknowledgmentMode,
    /// How long a wait for delivery may take.
    pub acknowledgment_timeout: Interval,
}

/// A configuration as contracts see it.
#[verifier::ext_equal]
pub struct ConfigView {
    /// DDS domain ID.
    pub domain_id: i32,
    /// Identity of the transport instance.
    pub origin_id: Seq<char>,
    /// DDS endpoint quality of service.
    pub qos: DdsQos,
    /// Maximum queued callback jobs.
    pub dispatch_capacity: usize,
    /// Maximum samples taken in one poll.
    pub max_samples_per_poll: i32,
    /// Maximum idle wait between polls.
    pub poll_interval: Interval,
    /// When reliable sends wait for delivery.
    pub acknowledgment_mode: AcknowledgmentMode,
    /// How long a wait for delivery may take.
    pub acknowledgment_timeout: Interval,
}

impl View for DdsConfig {
    type V = ConfigView;

    open spec fn view(&self) -> ConfigView {
        ConfigView {
            domain_id: self.domain_id,
            origin_id: self.origin_id@,
            qos: self.qos,
            dispatch_capacity: self.dispatch_capacity,
            max_samples_per_poll: self.max_samples_per_poll,
            poll_interval: self.poll_interval,
            acknowledgment_mode: self.acknowledgment_mode,
            acknowledgment_timeout: self.acknowledgment_timeout,
        }
    }
}

impl Clone for DdsConfig {
    fn clone(&self) -> (copy: DdsConfig)
        ensures
            copy@ == self@,
    {
        DdsConfig {
            domain_id: self.domain_id,
            origin_id: self.origin_id.clone(),
            qos: self.qos,
            dispatch_capacity: self.dispatch_capacity,
            max_samples_per_poll: self.max_samples_per_poll,
            poll_interval: self.poll_interval,
            acknowledgment_mode: self.acknowledgment_mode,
            acknowledgment_timeout: self.acknowledgment_timeout,
        }
    }
}

/// Origin identity of the given instance of the given process.
pub open spec fn origin_text(process_id: u32, sequence: u64) -> Seq<char> {
    decimal_text(process_id as nat) + "-"@ + decimal_text(sequence as nat)
}

/// Length in bytes of a text.
pub open spec fn byte_len(text: Seq<char>) -> nat {
    encode_utf8(text).len()
}

/// The default configuration of the given instance of the given process.
pub open spec fn default_config(domain_id: i32, process_id: u32, sequence: u64) -> ConfigView {
    ConfigView {
        domain_id,
        origin_id: origin_text(process_id, sequence),
        qos: DdsQos { reliability: Reliability::Reliable, history_depth: 32 },
        dispatch_capacity: 256,
        max_samples_per_poll: 64,
        poll_interval: Interval::of_millis(2),
        acknowledgment_mode: AcknowledgmentMode::OnDrop,
        acknowledgment_timeout: Interval::of_millis(8000),
    }
}

/// The first rule that a configuration breaks, `None` for a valid one.
pub open spec fn config_fault(config: ConfigView) -> Option<Seq<char>> {
    if byte_len(config.origin_id) == 0 || byte_len(config.origin_id) > 255 {
        Some("origin_id must contain 1..=255 bytes"@)
    } else if config.dispatch_capacity == 0 {
        Some("dispatch_capacity must be greater than zero"@)
    } else if config.max_samples_per_poll <= 0 {
        Some("max_samples_per_poll must be greater than zero"@)
    } else if config.poll_interval.length() == 0 {
        Some("poll_interval must be greater than zero"@)
    } else if config.qos.history_depth == 0 {
        Some("history_depth must be greater than zero"@)
    } else {
        None
    }
}

/// What validating a configuration answers.
pub open spec fn config_outcome(config: ConfigView) -> Result<(), StatusView> {
    match config_fault(config) {
        None => Ok(()),
        Some(fault) => Err(invalid_view(fault)),
    }
}

/// Whether a configuration makes its transport count written and delivered
/// samples: best-effort writers have nothing to wait for.
pub open spec fn delivery_tracked(config: ConfigView) -> bool {
    config.qos.reliability == Reliability::Reliable
}

impl DdsConfig {
    /// Constructs the default configuration of one transport instance.
    ///
    /// Callers hand in the identity of their process and a number that they
    /// use once, which makes the origin process-unique.
    #[must_use]
    pub fn new(domain_id: i32, process_id: u32, sequence: u64) -> (config: DdsConfig)
        ensures
            config@ == default_config(domain_id, process_id, sequence),
            config_fault(config@) is None,
    {
        let origin_id = join3(decimal(process_id as u64).as_str(), "-", decimal(sequence).as_str());
        proof {
            lemma_origin_size(process_id, sequence);
        }
        DdsConfig {
            domain_id,
            origin_id,
            qos: DdsQos::default(),
            dispatch_capacity: 256,
            max_samples_per_poll: 64,
            poll_interval: Interval::from_millis(2),
            acknowledgment_mode: AcknowledgmentMode::OnDrop,
            acknowledgment_timeout: Interval::from_millis(8000),
        }
    }

    /// Checks the limits of a configuration, in the order of [`config_fault`].
    pub fn validate(&self) -> (outcome: Result<(), Status>)
        ensures
            outcome_view(outcome) == config_outcome(self@),
    {
        let origin_bytes: usize = self.origin_id.as_str().as_bytes().len();
        if origin_bytes == 0 || origin_bytes > 255 {
            return Err(invalid("origin_id must contain 1..=255 bytes"));
        }
        if self.dispatch_capacity == 0 {
            return Err(invalid("dispatch_capacity must be greater than zero"));
        }
        if self.max_samples_per_poll <= 0 {
            return Err(invalid("max_samples_per_poll must be greater than zero"));
        }
        if self.poll_interval.is_zero() {
            return Err(invalid("poll_interval must be greater than zero"));
        }
        if self.qos.history_depth == 0 {
            return Err(invalid("history_depth must be greater than zero"));
        }
        Ok(())
    }

    /// Whether the transport counts written and delivered samples.
    pub fn tracks_delivery(&self) -> (counted: bool)
        ensures
            counted == delivery_tracked(self@),
    {
        match self.qos.reliability {
            Reliability::Reliable => true,
            Reliability::BestEffort => false,
        }
    }
}

/// A decimal notation of a number below `10^digits` has at most that many digits.
proof fn lemma_decimal_len(n: nat, bound: nat, digits: nat)
    requires
        digits > 0,
        n < bound,
        bound == vstd::arithmetic::power::pow(10, digits),
    ensures
        decimal_text(n).len() <= digits,
    decreases digits,
{
    reveal_with_fuel(vstd::arithmetic::power::pow, 2);
    if n >= 10 {
        let below = (digits - 1) as nat;
        assert(below > 0) by {
            if below == 0 {
                assert(vstd::arithmetic::power::pow(10, digits) == 10);
            }
        }
        vstd::arithmetic::power::lemma_pow_positive(10, below);
        let smaller = vstd::arithmetic::power::pow(10, below) as nat;
        assert(bound == 10 * smaller);
        lemma_decimal_len(n / 10, smaller, below);
    }
}

/// An origin identity has between 1 and 255 bytes.
proof fn lemma_origin_size(process_id: u32, sequence: u64)
    ensures
        0 < byte_len(origin_text(process_id, sequence)) <= 255,
{
    let text = origin_text(process_id, sequence);
    let first = decimal_text(process_id as nat);
    let second = decimal_text(sequence as nat);
    reveal_strlit("-");
    assert forall|i: int| 0 <= i < text.len() implies ('\0' <= #[trigger] text[i] <= '\u{7f}') by {
        if i < first.len() {
            lemma_decimal_digits(process_id as nat, i);
        } else if i > first.len() {
            lemma_decimal_digits(sequence as nat, i - first.len() - 1);
        }
    }
    vstd::utf8::is_ascii_chars_encode_utf8(text);
    assert(vstd::arithmetic::power::pow(10, 10) == 10_000_000_000) by {
        reveal_with_fuel(vstd::arithmetic::power::pow, 11);
    }
    assert(vstd::arithmetic::power::pow(10, 20) == 100_000_000_000_000_000_000) by {
        reveal_with_fuel(vstd::arithmetic::power::pow, 21);
    }
    lemma_decimal_len(process_id as nat, 10_000_000_000, 10);
    lemma_decimal_len(sequence as nat, 100_000_000_000_000_000_000, 20);
}

/// Two transport instances have the same origin identity only if they are the
/// same instance of the same process.
pub proof fn law_origins_are_unique(
    first_process: u32,
    first_sequence: u64,
    second_process: u32,
    second_sequence: u64,
)
    requires
        origin_text(first_process, first_sequence) == origin_text(second_process, second_sequence),
    ensures
        first_process == second_process,
        first_sequence == second_sequence,
{
    let text = origin_text(first_process, first_sequence);
    let a = decimal_text(first_process as nat);
    let b = decimal_text(second_process as nat);
    let c = decimal_text(first_sequence as nat);
    let d = decimal_text(second_sequence as nat);
    reveal_strlit("-");
    assert(text[a.len() as int] == '-');
    assert(text[b.len() as int] == '-');
    if a.len() < b.len() {
        assert(text[a.len() as int] == b[a.len() as int]);
        lemma_decimal_digits(second_process as nat, a.len() as int);
    }
    if b.len() < a.len() {
        assert(text[b.len() as int] == a[b.len() as int]);
        lemma_decimal_digits(first_process as nat, b.len() as int);
    }
    assert(a =~= text.take(a.len() as int));
    assert(b =~= text.take(b.len() as int));
    lemma_decimal_injective(first_process as nat, second_process as nat);
    assert(c =~= text.skip(a.len() as int + 1));
    assert(d =~= text.skip(b.len() as int + 1));
    lemma_decimal_injective(first_sequence as nat, second_sequence as nat);
    lemma_decimal_nonempty(first_process as nat);
}

/// A configuration is acceptable if and only if its origin has between 1 and
/// 255 bytes and the queue, the number of samples per poll, the interval
/// between polls and the history depth are all positive. A refused one is an
/// invalid argument.
pub proof fn law_acceptable_configurations(config: ConfigView)
    ensures
        config_outcome(config) is Ok <==> (1 <= encode_utf8(config.origin_id).len() <= 255
            && config.dispatch_capacity > 0 && config.max_samples_per_poll > 0 && (
        config.poll_interval.secs > 0 || config.poll_interval.nanos > 0)
            && config.qos.history_depth > 0),
        config_outcome(config) is Err ==> config_outcome(config)->Err_0.code
            == crate::status::StatusCode::InvalidArgument && config_fault(config) == Some(
            config_outcome(config)->Err_0.message,
        ),
        config_fault(config) is None <==> config_outcome(config) is Ok,
{
}

/// Of several faults of a configuration the first one is reported: the origin
/// before the queue, the queue before the samples, the samples before the
/// interval, the interval before the history.
pub proof fn law_first_fault_is_reported(config: ConfigView)
    ensures
        ({
            let origin = encode_utf8(config.origin_id).len();
            let fault = config_fault(config);
            &&& origin == 0 || origin > 255 ==> fault == Some(
                "origin_id must contain 1..=255 bytes"@,
            )
            &&& 1 <= origin <= 255 && config.dispatch_capacity == 0 ==> fault == Some(
                "dispatch_capacity must be greater than zero"@,
            )
            &&& 1 <= origin <= 255 && config.dispatch_capacity > 0 && config.max_samples_per_poll
                <= 0 ==> fault == Some("max_samples_per_poll must be greater than zero"@)
            &&& 1 <= origin <= 255 && config.dispatch_capacity > 0 && config.max_samples_per_poll
                > 0 && config.poll_interval.secs == 0 && config.poll_interval.nanos == 0
                ==> fault == Some("poll_interval must be greater than zero"@)
            &&& 1 <= origin <= 255 && config.dispatch_capacity > 0 && config.max_samples_per_poll
                > 0 && config.poll_interval.length() > 0 && config.qos.history_depth == 0
                ==> fault == Some("history_depth must be greater than zero"@)
        }),
{
}

/// By default a transport is reliable with a history of 32 samples, queues 256
/// callbacks, takes 64 samples per poll every 2 ms, and waits up to 8 s for its
/// samples when it is dropped; its domain is the one asked for, and its origin
/// names process and instance.
pub proof fn law_default_configuration(domain_id: i32, process_id: u32, sequence: u64)
    ensures
        ({
            let config = default_config(domain_id, process_id, sequence);
            &&& config.domain_id == domain_id
            &&& config.origin_id == decimal_text(process_id as nat) + "-"@ + decimal_text(
                sequence as nat,
            )
            &&& config.qos.reliability is Reliable
            &&& config.qos.history_depth == 32
            &&& config.dispatch_capacity == 256
            &&& config.max_samples_per_poll == 64
            &&& config.poll_interval.length() == 2_000_000
            &&& config.acknowledgment_mode is OnDrop
            &&& config.acknowledgment_timeout.length() == 8_000_000_000
            &&& origin_text(process_id, sequence) == config.origin_id
        }),
{
}

/// A span is as long as its seconds and nanoseconds say, and a span of
/// milliseconds has as many of them, with less than a second beyond its whole
/// seconds.
pub proof fn law_spans_have_their_length(interval: Interval, millis: u64)
    ensures
        interval.length() == interval.secs * 1_000_000_000 + interval.nanos,
        Interval::of_millis(millis).length() == millis * 1_000_000,
        Interval::of_millis(millis).nanos < 1_000_000_000,
{
}

/// Exactly the reliable transports count written and delivered samples.
pub proof fn law_reliable_transports_count(config: ConfigView)
    ensures
        delivery_tracked(config) <==> !(config.qos.reliability is BestEffort),
{
}

/// The view of a configuration shows every field.
pub proof fn law_configurations_are_seen_whole(config: DdsConfig)
    ensures
        config@.domain_id == config.domain_id,
        config@.origin_id == config.origin_id@,
        config@.qos == config.qos,
        config@.dispatch_capacity == config.dispatch_capacity,
        config@.max_samples_per_poll == config.max_samples_per_poll,
        config@.poll_interval == config.poll_interval,
        config@.acknowledgment_mode == config.acknowledgment_mode,
        config@.acknowledgment_timeout == config.acknowledgment_timeout,
        byte_len(config@.origin_id) == encode_utf8(config.origin_id@).len(),
{
}

} // verus!
