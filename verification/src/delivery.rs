//! Completion of reliable sends: written samples, delivered samples, and the
//! wait in between.

use vstd::prelude::*;

use crate::config::{
    delivery_tracked, AcknowledgmentMode, ConfigView, DdsConfig, Interval, Reliability,
};
use crate::status::DdsFailure;

verus! {

/// One more, except at the end of the number range.
pub open spec fn counted(n: u64) -> u64 {
    if n < u64::MAX {
        (n + 1) as u64
    } else {
        n
    }
}

/// Counts the samples that a transport wrote and those of its own samples
/// that its reader saw.
#[derive(Clone, Copy, Debug, PartialEq, Eq, Structural)]
pub struct DeliveryTracker {
    /// Samples written so far.
    pub written: u64,
    /// Own samples that came back through the local reader so far.
    pub delivered: u64,
}

impl Default for DeliveryTracker {
    fn default() -> (tracker: DeliveryTracker)
        ensures
            tracker == (DeliveryTracker { written: 0, delivered: 0 }),
    {
        DeliveryTracker { written: 0, delivered: 0 }
    }
}

impl DeliveryTracker {
    /// The counts after one more write.
    pub open spec fn after_write(self) -> DeliveryTracker {
        DeliveryTracker { written: counted(self.written), delivered: self.delivered }
    }

    /// The counts after one more local delivery.
    pub open spec fn after_delivery(self) -> DeliveryTracker {
        DeliveryTracker { written: self.written, delivered: counted(self.delivered) }
    }

    /// Counts a written sample.
    pub fn record_write(&mut self)
        ensures
            *final(self) == old(self).after_write(),
    {
        if self.written < u64::MAX {
            self.written = self.written + 1;
        }
    }

    /// Counts an own sample that came back through the local reader.
    pub fn record_delivery(&mut self)
        ensures
            *final(self) == old(self).after_delivery(),
    {
        if self.delivered < u64::MAX {
            self.delivered = self.delivered + 1;
        }
    }
}

/// What is left to do after a sample was written.
#[derive(Clone, Copy, Debug, PartialEq, Eq, Structural)]
pub enum SendCompletion {
    /// Nothing: the send has succeeded.
    Complete,
    /// Wait until the readers acknowledged the sample and the local reader saw
    /// as many own samples as were written.
    AwaitDelivery {
        /// Number of own samples that the local reader has to see.
        target: u64,
        /// How long the wait may take.
        timeout: Interval,
    },
}

/// What a write leaves to do, given the counts that include it.
pub open spec fn completion_after(config: ConfigView, tracker: DeliveryTracker) -> SendCompletion {
    if delivery_tracked(config) && config.acknowledgment_mode == AcknowledgmentMode::PerSend {
        SendCompletion::AwaitDelivery {
            target: tracker.written,
            timeout: config.acknowledgment_timeout,
        }
    } else {
        SendCompletion::Complete
    }
}

/// What dropping a transport has to wait for: with deferred acknowledgment,
/// for every sample written so far.
pub open spec fn completion_on_drop(config: ConfigView, tracker: DeliveryTracker) -> Option<u64> {
    if delivery_tracked(config) && config.acknowledgment_mode == AcknowledgmentMode::OnDrop
        && tracker.written > 0 {
        Some(tracker.written)
    } else {
        None
    }
}

/// Decides what a write leaves to do, given the counts that include it.
pub fn complete_send(config: &DdsConfig, tracker: &DeliveryTracker) -> (completion: SendCompletion)
    ensures
        completion == completion_after(config@, *tracker),
{
    match (config.qos.reliability, config.acknowledgment_mode) {
        (Reliability::Reliable, AcknowledgmentMode::PerSend) => SendCompletion::AwaitDelivery {
            target: tracker.written,
            timeout: config.acknowledgment_timeout,
        },
        _ => SendCompletion::Complete,
    }
}

/// Decides what dropping a transport has to wait for.
pub fn complete_on_drop(config: &DdsConfig, tracker: &DeliveryTracker) -> (target: Option<u64>)
    ensures
        target == completion_on_drop(config@, *tracker),
{
    match (config.qos.reliability, config.acknowledgment_mode) {
        (Reliability::Reliable, AcknowledgmentMode::OnDrop) => if tracker.written > 0 {
            Some(tracker.written)
        } else {
            None
        },
        _ => None,
    }
}

/// Where a wait for delivery stands.
#[derive(Debug, PartialEq, Eq)]
pub enum DeliveryStep {
    /// Every awaited sample is delivered.
    Complete,
    /// Keep waiting.
    Wait,
    /// The wait is over without success.
    Failed(DdsFailure),
}

/// Where a wait stands, given what the middleware said of the acknowledgments,
/// how many own samples came back, and whether the time is up.
pub open spec fn delivery_progress(
    target: u64,
    acknowledged: Result<(), DdsFailure>,
    delivered: u64,
    expired: bool,
) -> DeliveryStep {
    match acknowledged {
        Err(failure) => DeliveryStep::Failed(failure),
        Ok(_) => if delivered >= target {
            DeliveryStep::Complete
        } else if expired {
            DeliveryStep::Failed(DdsFailure::Timeout)
        } else {
            DeliveryStep::Wait
        },
    }
}

/// Decides whether a wait for delivery is over.
pub fn delivery_step(
    target: u64,
    acknowledged: Result<(), DdsFailure>,
    delivered: u64,
    expired: bool,
) -> (step: DeliveryStep)
    ensures
        step == delivery_progress(target, acknowledged, delivered, expired),
{
    match acknowledged {
        Err(failure) => DeliveryStep::Failed(failure),
        Ok(_) => if delivered >= target {
            DeliveryStep::Complete
        } else if expired {
            DeliveryStep::Failed(DdsFailure::Timeout)
        } else {
            DeliveryStep::Wait
        },
    }
}

/// A wait succeeds only when the readers acknowledged and the local reader saw
/// as many own samples as were written; once the time is up it ends either way.
pub proof fn law_delivery_is_bounded_and_complete(
    target: u64,
    acknowledged: Result<(), DdsFailure>,
    delivered: u64,
    expired: bool,
)
    ensures
        delivery_progress(target, acknowledged, delivered, expired) is Complete <==> acknowledged
            is Ok && delivered >= target,
        expired ==> !(delivery_progress(target, acknowledged, delivered, expired) is Wait),
{
}

/// Best-effort transports never wait, neither for a send nor when dropped.
pub proof fn law_best_effort_never_waits(config: ConfigView, tracker: DeliveryTracker)
    requires
        config.qos.reliability == Reliability::BestEffort,
    ensures
        completion_after(config, tracker) == SendCompletion::Complete,
        completion_on_drop(config, tracker) is None,
{
}

/// A reliable transport waits for a written sample exactly once: in its send
/// or when it is dropped, depending on the mode.
pub proof fn law_reliable_samples_are_awaited_once(config: ConfigView, tracker: DeliveryTracker)
    requires
        config.qos.reliability == Reliability::Reliable,
    ensures
        completion_after(config, tracker.after_write()) is AwaitDelivery <==> completion_on_drop(
            config,
            tracker.after_write(),
        ) is None,
        completion_on_drop(config, tracker.after_write()) is Some
            ==> completion_on_drop(config, tracker.after_write())->Some_0
            == tracker.after_write().written,
{
}

/// A write and a delivery each raise their own count by one, as far as the
/// number range reaches, and leave the other alone.
pub proof fn law_writes_and_deliveries_are_counted_apart(tracker: DeliveryTracker)
    ensures
        tracker.after_write().delivered == tracker.delivered,
        tracker.written < u64::MAX ==> tracker.after_write().written == tracker.written + 1,
        tracker.written == u64::MAX ==> tracker.after_write().written == u64::MAX,
        tracker.after_delivery().written == tracker.written,
        tracker.delivered < u64::MAX ==> tracker.after_delivery().delivered == tracker.delivered
            + 1,
        tracker.delivered == u64::MAX ==> tracker.after_delivery().delivered == u64::MAX,
{
}

/// A send waits exactly in a reliable transport that acknowledges every send,
/// and a drop exactly in a reliable transport that acknowledges on drop and
/// wrote anything; either waits for as many samples as were written, a send for
/// as long as configured.
pub proof fn law_who_waits_for_delivery(config: ConfigView, tracker: DeliveryTracker)
    ensures
        completion_after(config, tracker) is AwaitDelivery <==> config.qos.reliability is Reliable
            && config.acknowledgment_mode is PerSend,
        completion_after(config, tracker) is AwaitDelivery ==> completion_after(
            config,
            tracker,
        )->target == tracker.written && completion_after(config, tracker)->timeout
            == config.acknowledgment_timeout,
        completion_on_drop(config, tracker) is Some <==> config.qos.reliability is Reliable
            && config.acknowledgment_mode is OnDrop && tracker.written > 0,
        completion_on_drop(config, tracker) is Some ==> completion_on_drop(config, tracker)
            == Some(tracker.written),
{
}

/// A wait goes on exactly while the readers acknowledged, samples are missing
/// and time is left. It fails with what the middleware reports, or with a
/// timeout when only the time ran out.
pub proof fn law_how_waits_end(
    target: u64,
    acknowledged: Result<(), DdsFailure>,
    delivered: u64,
    expired: bool,
)
    ensures
        ({
            let step = delivery_progress(target, acknowledged, delivered, expired);
            &&& step is Wait <==> acknowledged is Ok && delivered < target && !expired
            &&& acknowledged matches Err(failure) ==> step == DeliveryStep::Failed(failure)
            &&& acknowledged is Ok && delivered < target && expired ==> step
                == DeliveryStep::Failed(DdsFailure::Timeout)
        }),
{
}

} // verus!
