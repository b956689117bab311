//! State of one transport, common to the three carriage families.
//!
//! The state answers what to do next and takes in what came of it. All DDS
//! entities, threads and clocks live outside.

use vstd::prelude::*;

use crate::config::{config_fault, ConfigView, DdsConfig, Interval, Reliability};
use crate::delivery::{
    complete_on_drop, complete_send, completion_after, completion_on_drop, DeliveryTracker,
    SendCompletion,
};
use crate::dispatch::{
    callback_panic_entry, callback_progress, callback_step, submit_detail, submit_entry,
    CallbackStep, SubmitOutcome,
};
use crate::family::{family_word, Family};
use crate::health::{DdsHealth, HealthErrorKind, LogEntry};
use crate::registry::{
    all_tokens, already_registered, find, find_token, law_deactivated_listeners_stay_silent,
    lemma_find, not_registered, same_key, selected_tokens, EntryView, Registry, RegistryStep,
    RegistryView,
};
use crate::status::{
    closed, closed_view, dds_status, dds_status_view, describe_in_context, fail,
    failure_in_context, failure_text, outcome_view, DdsFailure, Status, StatusCode, StatusView,
};
use crate::text::{decimal, decimal_text, integer, integer_text, join, join3};
use crate::uri::{filter_outcome, maybe_ref_view, verify_filters, Uri, UriView};

verus! {

/// How far the teardown of a transport has come.
#[derive(Clone, Copy, Debug, PartialEq, Eq, Structural)]
pub enum TeardownStep {
    /// The transport is in use.
    Running,
    /// Waiting for written samples to be delivered.
    AwaitDelivery,
    /// Telling the workers to stop.
    Stop,
    /// Waiting for the poller to end.
    JoinPoller,
    /// Waiting for running callbacks of retired listeners.
    RetireListeners,
    /// Waiting for the dispatcher to end.
    JoinDispatcher,
    /// Giving up the writer.
    ReleaseWriter,
    /// Deleting the entities of the participant.
    DeleteEntities,
    /// Deleting the participant.
    DeleteParticipant,
    /// Nothing is left.
    Done,
}

/// What the owner of a transport does next to tear it down.
#[derive(Debug, PartialEq, Eq)]
pub enum TeardownAction {
    /// Wait for the delivery of the given number of own samples.
    AwaitDelivery {
        /// Number of own samples that the local reader has to see.
        target: u64,
        /// How long the wait may take.
        timeout: Interval,
    },
    /// Wake everything that waits for the transport to stop.
    Stop,
    /// Join the poller thread.
    JoinPoller,
    /// Wait until no callback runs under any of these tokens.
    AwaitIdle(Vec<u64>),
    /// Join the dispatcher thread.
    JoinDispatcher,
    /// Drop the writer.
    ReleaseWriter,
    /// Delete the entities that the participant contains.
    DeleteEntities,
    /// Delete the participant.
    DeleteParticipant,
    /// Nothing is left to do.
    Done,
}

/// What came of a teardown action.
#[derive(Debug, PartialEq, Eq)]
pub enum TeardownOutcome {
    /// It succeeded.
    Done,
    /// The middleware refused it.
    Failed(DdsFailure),
    /// The joined thread had panicked.
    Panicked,
}

/// Whether a transport is ready for its peers.
#[derive(Clone, Copy, Debug, PartialEq, Eq, Structural)]
pub enum Readiness {
    /// No reader is required.
    Ready,
    /// Ask the middleware for the number of matched readers.
    Poll,
}

/// What the poller does next.
#[derive(Clone, Copy, Debug, PartialEq, Eq, Structural)]
pub enum PollStep {
    /// End.
    Stop,
    /// Wait for the given time, or until the transport stops.
    Wait(Interval),
    /// Take at most the given number of samples.
    Take(i32),
}

/// A stopped poller ends; otherwise it waits and takes in turns.
pub open spec fn poll_progress(view: TransportView, waited: bool) -> PollStep {
    if view.stopped {
        PollStep::Stop
    } else if waited {
        PollStep::Take(view.config.max_samples_per_poll)
    } else {
        PollStep::Wait(view.config.poll_interval)
    }
}

/// Whether to wait for acknowledgments of written samples.
#[derive(Clone, Copy, Debug, PartialEq, Eq, Structural)]
pub enum AcknowledgmentBarrier {
    /// Best-effort writers have nothing to wait for.
    Pass,
    /// Ask the middleware to wait for the acknowledgments.
    Await,
}

/// Where a wait for matched readers stands.
#[derive(Debug, PartialEq, Eq)]
pub enum WaitStep {
    /// Enough readers are matched.
    Ready,
    /// Ask again after the given time.
    Retry(Interval),
    /// The wait is over without success.
    Failed(Status),
}

/// A step of the wait as contracts see it.
pub enum WaitView {
    /// Enough readers are matched.
    Ready,
    /// Ask again after the given time.
    Retry(Interval),
    /// The wait is over without success.
    Failed(StatusView),
}

impl View for WaitStep {
    type V = WaitView;

    open spec fn view(&self) -> WaitView {
        match *self {
            WaitStep::Ready => WaitView::Ready,
            WaitStep::Retry(interval) => WaitView::Retry(interval),
            WaitStep::Failed(status) => WaitView::Failed(status@),
        }
    }
}

/// Where a wait stands, given what the middleware reports and whether the
/// time is up.
pub open spec fn wait_progress(
    required: usize,
    observed: Result<i32, DdsFailure>,
    expired: bool,
) -> WaitView {
    if required == 0 {
        WaitView::Ready
    } else {
        match observed {
            Err(failure) => WaitView::Failed(dds_status_view("read readiness"@, failure)),
            Ok(count) => if count >= required {
                WaitView::Ready
            } else if expired {
                WaitView::Failed(
                    StatusView {
                        code: StatusCode::DeadlineExceeded,
                        message: "DDS discovery timed out with "@ + integer_text(count as int)
                            + " matched readers; required "@ + decimal_text(required as nat),
                    },
                )
            } else {
                WaitView::Retry(Interval { secs: 0, nanos: 10_000_000 })
            },
        }
    }
}

/// Decides whether a wait for matched readers is over.
pub fn wait_until(required: usize, observed: Result<i32, DdsFailure>, expired: bool) -> (step:
    WaitStep)
    ensures
        step@ == wait_progress(required, observed, expired),
{
    if required == 0 {
        return WaitStep::Ready;
    }
    match observed {
        Err(failure) => WaitStep::Failed(dds_status("read readiness", &failure)),
        Ok(count) => if count >= 0 && count as usize >= required {
            WaitStep::Ready
        } else if expired {
            let head = join3(
                "DDS discovery timed out with ",
                integer(count).as_str(),
                " matched readers; required ",
            );
            WaitStep::Failed(
                fail(
                    StatusCode::DeadlineExceeded,
                    join(head.as_str(), decimal(required as u64).as_str()),
                ),
            )
        } else {
            WaitStep::Retry(Interval { secs: 0, nanos: 10_000_000 })
        },
    }
}

/// State of a transport as contracts see it.
#[verifier::ext_equal]
pub struct TransportView {
    /// Carriage family.
    pub family: Family,
    /// Configuration.
    pub config: ConfigView,
    /// Whether the writer is there.
    pub open: bool,
    /// Whether the workers were told to stop.
    pub stopped: bool,
    /// How far the teardown has come.
    pub teardown: TeardownStep,
    /// Registrations and running callbacks.
    pub registry: RegistryView,
    /// Written and delivered samples.
    pub delivery: DeliveryTracker,
    /// Every error recorded so far.
    pub log: Seq<LogEntry>,
}

impl TransportView {
    /// The same state with one more error recorded.
    pub open spec fn with_error(self, kind: HealthErrorKind, detail: Seq<char>) -> TransportView {
        TransportView { log: self.log.push(LogEntry { kind, detail }), ..self }
    }

    /// The same state with an error recorded if there is one.
    pub open spec fn with_entry(self, entry: Option<LogEntry>) -> TransportView {
        match entry {
            Some(entry) => TransportView { log: self.log.push(entry), ..self },
            None => self,
        }
    }

    /// The same state with other registrations.
    pub open spec fn with_registry(self, registry: RegistryView) -> TransportView {
        TransportView { registry, ..self }
    }

    /// The same state with other counts.
    pub open spec fn with_delivery(self, delivery: DeliveryTracker) -> TransportView {
        TransportView { delivery, ..self }
    }

    /// Whether another error can still be numbered.
    pub open spec fn has_room(self) -> bool {
        self.log.len() < u64::MAX
    }

    /// State after the middleware took a sample.
    pub open spec fn after_write(self) -> TransportView {
        if crate::config::delivery_tracked(self.config) {
            self.with_delivery(self.delivery.after_write())
        } else {
            self
        }
    }
}

/// A new transport of a family with a configuration.
pub open spec fn fresh(family: Family, config: ConfigView) -> TransportView {
    TransportView {
        family,
        config,
        open: true,
        stopped: false,
        teardown: TeardownStep::Running,
        registry: RegistryView { active: Seq::empty(), running: Map::empty(), next_token: 0 },
        delivery: DeliveryTracker { written: 0, delivered: 0 },
        log: Seq::empty(),
    }
}

/// Context of a failed wait for the delivery of a sample.
pub open spec fn acknowledge_context(family: Family) -> Seq<char> {
    "acknowledge "@ + family_word(family) + " sample"@
}

/// Context of a failed write.
pub open spec fn write_context(family: Family) -> Seq<char> {
    "write "@ + family_word(family) + " sample"@
}

/// The step that follows a step of the teardown.
pub open spec fn next_teardown_step(step: TeardownStep) -> TeardownStep {
    match step {
        TeardownStep::Running => TeardownStep::AwaitDelivery,
        TeardownStep::AwaitDelivery => TeardownStep::Stop,
        TeardownStep::Stop => TeardownStep::JoinPoller,
        TeardownStep::JoinPoller => TeardownStep::RetireListeners,
        TeardownStep::RetireListeners => TeardownStep::JoinDispatcher,
        TeardownStep::JoinDispatcher => TeardownStep::ReleaseWriter,
        TeardownStep::ReleaseWriter => TeardownStep::DeleteEntities,
        TeardownStep::DeleteEntities => TeardownStep::DeleteParticipant,
        TeardownStep::DeleteParticipant => TeardownStep::Done,
        TeardownStep::Done => TeardownStep::Done,
    }
}

/// The error that the outcome of a teardown step leaves behind, if any.
pub open spec fn teardown_entry(
    family: Family,
    step: TeardownStep,
    outcome: TeardownOutcome,
) -> Option<LogEntry> {
    match (step, outcome) {
        (TeardownStep::AwaitDelivery, TeardownOutcome::Failed(failure)) => Some(
            LogEntry {
                kind: HealthErrorKind::DeliveryCompletion,
                detail: failure_in_context(
                    "acknowledge "@ + family_word(family) + " samples during teardown"@,
                    failure,
                ),
            },
        ),
        (TeardownStep::JoinPoller, TeardownOutcome::Panicked) => Some(
            LogEntry {
                kind: HealthErrorKind::WorkerPanic,
                detail: family_word(family) + " poller thread panicked"@,
            },
        ),
        (TeardownStep::JoinDispatcher, TeardownOutcome::Panicked) => Some(
            LogEntry {
                kind: HealthErrorKind::WorkerPanic,
                detail: family_word(family) + " dispatcher thread panicked"@,
            },
        ),
        (TeardownStep::DeleteEntities, TeardownOutcome::Failed(failure)) => Some(
            LogEntry {
                kind: HealthErrorKind::Teardown,
                detail: failure_in_context(
                    "delete "@ + family_word(family) + " contained entities"@,
                    failure,
                ),
            },
        ),
        (TeardownStep::DeleteParticipant, TeardownOutcome::Failed(failure)) => Some(
            LogEntry {
                kind: HealthErrorKind::Teardown,
                detail: failure_in_context(
                    "delete "@ + family_word(family) + " participant"@,
                    failure,
                ),
            },
        ),
        _ => None,
    }
}

/// The state on entering a step of the teardown: stopping raises the flag,
/// retiring removes every registration, releasing the writer closes the
/// transport.
pub open spec fn entering(view: TransportView, step: TeardownStep) -> TransportView {
    match step {
        TeardownStep::Stop => TransportView { teardown: step, stopped: true, ..view },
        TeardownStep::RetireListeners => TransportView {
            teardown: step,
            registry: view.registry.cleared(),
            ..view
        },
        TeardownStep::ReleaseWriter => TransportView { teardown: step, open: false, ..view },
        _ => TransportView { teardown: step, ..view },
    }
}

/// The step that a teardown starts with: waiting for deliveries is left out
/// when there is nothing to wait for.
pub open spec fn first_teardown_step(view: TransportView) -> TeardownStep {
    if view.open && completion_on_drop(view.config, view.delivery) is Some {
        TeardownStep::AwaitDelivery
    } else {
        TeardownStep::Stop
    }
}

/// Whether an action is the one that a state on entering its step asks for.
pub open spec fn action_for(
    before: TransportView,
    after: TransportView,
    action: TeardownAction,
) -> bool {
    match after.teardown {
        TeardownStep::Running => false,
        TeardownStep::AwaitDelivery => action == (TeardownAction::AwaitDelivery {
            target: before.delivery.written,
            timeout: before.config.acknowledgment_timeout,
        }),
        TeardownStep::Stop => action == TeardownAction::Stop,
        TeardownStep::JoinPoller => action == TeardownAction::JoinPoller,
        TeardownStep::RetireListeners => action is AwaitIdle && action->AwaitIdle_0@ == all_tokens(
            before.registry.active,
        ),
        TeardownStep::JoinDispatcher => action == TeardownAction::JoinDispatcher,
        TeardownStep::ReleaseWriter => action == TeardownAction::ReleaseWriter,
        TeardownStep::DeleteEntities => action == TeardownAction::DeleteEntities,
        TeardownStep::DeleteParticipant => action == TeardownAction::DeleteParticipant,
        TeardownStep::Done => action == TeardownAction::Done,
    }
}

/// State of one transport.
pub struct Transport {
    family: Family,
    config: DdsConfig,
    open: bool,
    stopped: bool,
    teardown: TeardownStep,
    registry: Registry,
    delivery: DeliveryTracker,
    health: DdsHealth,
}

impl View for Transport {
    type V = TransportView;

    closed spec fn view(&self) -> TransportView {
        TransportView {
            family: self.family,
            config: self.config@,
            open: self.open,
            stopped: self.stopped,
            teardown: self.teardown,
            registry: self.registry@,
            delivery: self.delivery,
            log: self.health.log(),
        }
    }
}

impl Transport {
    /// The configuration is valid, the registry and the health are well formed.
    pub closed spec fn wf(&self) -> bool {
        &&& config_fault(self.config@) is None
        &&& self.registry@.wf()
        &&& self.health.wf()
    }

    /// A transport that is well formed has a valid configuration and a well
    /// formed registry, whatever was done with it before.
    pub proof fn law_state_is_consistent(&self)
        requires
            self.wf(),
        ensures
            config_fault(self@.config) is None,
            self@.registry.wf(),
    {
    }

    /// A new transport of a family with a valid configuration.
    pub(crate) fn assemble(family: Family, config: DdsConfig) -> (transport: Transport)
        requires
            config_fault(config@) is None,
        ensures
            transport.wf(),
            transport@ == fresh(family, config@),
    {
        Transport {
            family,
            config,
            open: true,
            stopped: false,
            teardown: TeardownStep::Running,
            registry: Registry::default(),
            delivery: DeliveryTracker::default(),
            health: DdsHealth::default(),
        }
    }

    /// Carriage family.
    pub fn family(&self) -> (family: Family)
        ensures
            family == self@.family,
    {
        self.family
    }

    /// Configuration.
    pub fn config(&self) -> (config: &DdsConfig)
        ensures
            config@ == self@.config,
    {
        &self.config
    }

    /// Identity under which the transport sends.
    pub fn origin_id(&self) -> (origin: &str)
        ensures
            origin@ == self@.config.origin_id,
    {
        self.config.origin_id.as_str()
    }

    /// Health of the transport.
    #[must_use]
    pub fn health(&self) -> (health: &DdsHealth)
        requires
            self.wf(),
        ensures
            health.wf(),
            health.log() == self@.log,
    {
        &self.health
    }

    /// Whether another error can still be numbered.
    pub fn can_record(&self) -> (room: bool)
        requires
            self.wf(),
        ensures
            room == self@.has_room(),
    {
        self.health.can_record()
    }

    /// Whether there is a token for another registration.
    pub fn can_register(&self) -> (room: bool)
        ensures
            room == (self@.registry.next_token < u64::MAX),
    {
        self.registry.can_register()
    }

    /// Whether another callback under a token can be counted.
    pub fn can_begin(&self, token: u64) -> (room: bool)
        ensures
            room == (self@.registry.in_flight(token) < usize::MAX),
    {
        self.registry.can_begin(token)
    }

    /// Own samples that came back through the local reader so far.
    pub fn delivered(&self) -> (delivered: u64)
        ensures
            delivered == self@.delivery.delivered,
    {
        self.delivery.delivered
    }

    /// Whether the workers were told to stop.
    pub fn is_stopped(&self) -> (stopped: bool)
        ensures
            stopped == self@.stopped,
    {
        self.stopped
    }

    /// Starts a wait for matched readers.
    pub fn wait_ready(&self, required: usize) -> (readiness: Result<Readiness, Status>)
        ensures
            match readiness {
                Err(status) => !self@.open && status@ == closed_view(),
                Ok(readiness) => self@.open && readiness == if required == 0 {
                    Readiness::Ready
                } else {
                    Readiness::Poll
                },
            },
    {
        if !self.open {
            return Err(closed());
        }
        if required == 0 {
            Ok(Readiness::Ready)
        } else {
            Ok(Readiness::Poll)
        }
    }

    /// Starts a wait for the acknowledgment of every sample written so far.
    pub fn wait_acknowledged(&self) -> (barrier: Result<AcknowledgmentBarrier, Status>)
        ensures
            match barrier {
                Err(status) => !self@.open && status@ == closed_view(),
                Ok(barrier) => self@.open && (barrier == AcknowledgmentBarrier::Pass
                    <==> self@.config.qos.reliability == Reliability::BestEffort),
            },
    {
        if !self.open {
            return Err(closed());
        }
        match self.config.qos.reliability {
            Reliability::BestEffort => Ok(AcknowledgmentBarrier::Pass),
            Reliability::Reliable => Ok(AcknowledgmentBarrier::Await),
        }
    }

    /// Ends a wait for acknowledgments with what the middleware said.
    pub fn acknowledged(&self, result: Result<(), DdsFailure>) -> (outcome: Result<(), Status>)
        ensures
            outcome_view(outcome) == match result {
                Ok(_) => Ok::<(), StatusView>(()),
                Err(failure) => Err(
                    dds_status_view(
                        "acknowledge "@ + family_word(self@.family) + " samples"@,
                        failure,
                    ),
                ),
            },
    {
        match result {
            Ok(_) => Ok(()),
            Err(failure) => {
                let context = join3("acknowledge ", self.family.word(), " samples");
                Err(dds_status(context.as_str(), &failure))
            },
        }
    }

    /// Answers whether the writer is there.
    pub fn ensure_open(&self) -> (outcome: Result<(), Status>)
        ensures
            outcome_view(outcome) == if self@.open {
                Ok::<(), StatusView>(())
            } else {
                Err(closed_view())
            },
    {
        if self.open {
            Ok(())
        } else {
            Err(closed())
        }
    }

    /// Takes in the result of writing a sample and answers what is left to do
    /// for the send.
    pub fn written(&mut self, result: Result<(), DdsFailure>) -> (completion: Result<
        SendCompletion,
        Status,
    >)
        requires
            old(self).wf(),
            old(self)@.has_room(),
        ensures
            final(self).wf(),
            match result {
                Ok(_) => {
                    &&& final(self)@ == old(self)@.after_write()
                    &&& completion is Ok
                    &&& completion->Ok_0 == completion_after(
                        old(self)@.config,
                        final(self)@.delivery,
                    )
                },
                Err(failure) => {
                    &&& final(self)@ == old(self)@.with_error(
                        HealthErrorKind::Dds,
                        failure_in_context(family_word(old(self)@.family) + " writer"@, failure),
                    )
                    &&& completion is Err
                    &&& completion->Err_0@ == dds_status_view(
                        write_context(old(self)@.family),
                        failure,
                    )
                },
            },
    {
        match result {
            Ok(_) => {
                if self.config.tracks_delivery() {
                    self.delivery.record_write();
                }
                Ok(complete_send(&self.config, &self.delivery))
            },
            Err(failure) => {
                let writer = join(self.family.word(), " writer");
                self.health.record(
                    HealthErrorKind::Dds,
                    describe_in_context(writer.as_str(), &failure),
                );
                let context = join3("write ", self.family.word(), " sample");
                Err(dds_status(context.as_str(), &failure))
            },
        }
    }

    /// Ends a send that waited for delivery. A failure is recorded once and
    /// returned.
    pub fn delivery_concluded(&mut self, failure: Option<DdsFailure>) -> (outcome: Result<
        (),
        Status,
    >)
        requires
            old(self).wf(),
            old(self)@.has_room(),
        ensures
            final(self).wf(),
            match failure {
                None => outcome is Ok && final(self)@ == old(self)@,
                Some(failure) => {
                    &&& final(self)@ == old(self)@.with_error(
                        HealthErrorKind::DeliveryCompletion,
                        failure_in_context(acknowledge_context(old(self)@.family), failure),
                    )
                    &&& outcome is Err
                    &&& outcome->Err_0@ == dds_status_view(
                        acknowledge_context(old(self)@.family),
                        failure,
                    )
                },
            },
    {
        match failure {
            None => Ok(()),
            Some(failure) => {
                let context = join3("acknowledge ", self.family.word(), " sample");
                self.health.record(
                    HealthErrorKind::DeliveryCompletion,
                    describe_in_context(context.as_str(), &failure),
                );
                Err(dds_status(context.as_str(), &failure))
            },
        }
    }

    /// Decides what the poller does next, given whether it has waited since it
    /// last took samples.
    pub fn poll_step(&self, waited: bool) -> (step: PollStep)
        ensures
            step == poll_progress(self@, waited),
    {
        if self.stopped {
            PollStep::Stop
        } else if waited {
            PollStep::Take(self.config.max_samples_per_poll)
        } else {
            PollStep::Wait(self.config.poll_interval)
        }
    }

    /// Takes in a failed poll. An empty reader is no failure.
    pub fn poll_failed(&mut self, failure: &DdsFailure)
        requires
            old(self).wf(),
            old(self)@.has_room(),
        ensures
            final(self).wf(),
            final(self)@ == if *failure is NoData {
                old(self)@
            } else {
                old(self)@.with_error(
                    HealthErrorKind::Dds,
                    failure_in_context(family_word(old(self)@.family) + " reader take"@, *failure),
                )
            },
    {
        match failure {
            DdsFailure::NoData => {},
            _ => {
                let context = join(self.family.word(), " reader take");
                self.health.record(
                    HealthErrorKind::Dds,
                    describe_in_context(context.as_str(), failure),
                );
            },
        }
    }

    /// Decides whether a taken sample is for the listeners. An own sample is
    /// counted as delivered and goes no further.
    pub fn is_foreign(&mut self, origin_id: &String) -> (foreign: bool)
        requires
            old(self).wf(),
        ensures
            final(self).wf(),
            foreign == (origin_id@ != old(self)@.config.origin_id),
            final(self)@ == if foreign {
                old(self)@
            } else {
                old(self)@.with_delivery(old(self)@.delivery.after_delivery())
            },
    {
        if *origin_id == self.config.origin_id {
            self.delivery.record_delivery();
            false
        } else {
            true
        }
    }

    /// Records a sample that violates its contract.
    pub fn malformed(&mut self, detail: String)
        requires
            old(self).wf(),
            old(self)@.has_room(),
        ensures
            final(self).wf(),
            final(self)@ == old(self)@.with_error(HealthErrorKind::MalformedSample, detail@),
    {
        self.health.record(HealthErrorKind::MalformedSample, detail);
    }

    /// Tokens of the listeners that a message reaches, in registration order.
    pub fn route(&self, source: &Uri, sink: Option<&Uri>) -> (tokens: Vec<u64>)
        ensures
            tokens@ == selected_tokens(self@.registry.active, source@, maybe_ref_view(sink)),
    {
        self.registry.matching(source, sink)
    }

    /// Registers a listener whose filters were checked before.
    pub fn register(&mut self, source: &Uri, sink: Option<&Uri>, listener: u64) -> (outcome: Result<
        (),
        Status,
    >)
        requires
            old(self).wf(),
            old(self)@.registry.next_token < u64::MAX,
        ensures
            final(self).wf(),
            registered_effect(
                old(self)@,
                final(self)@,
                source@,
                maybe_ref_view(sink),
                listener,
                outcome_view(outcome),
            ),
    {
        self.registry.register(source, sink, listener)
    }

    /// Checks the filters and registers a listener.
    pub fn register_checked(&mut self, source: &Uri, sink: Option<&Uri>, listener: u64) -> (outcome:
        Result<(), Status>)
        requires
            old(self).wf(),
            old(self)@.registry.next_token < u64::MAX,
        ensures
            final(self).wf(),
            registration_effect(
                old(self)@,
                final(self)@,
                source@,
                maybe_ref_view(sink),
                listener,
                outcome_view(outcome),
            ),
    {
        match verify_filters(source, sink) {
            Err(status) => Err(status),
            Ok(_) => self.register(source, sink, listener),
        }
    }

    /// Removes a listener whose filters were checked before and answers the
    /// token under which its callbacks may still be running.
    pub fn unregister(&mut self, source: &Uri, sink: Option<&Uri>, listener: u64) -> (outcome:
        Result<u64, Status>)
        requires
            old(self).wf(),
        ensures
            final(self).wf(),
            unregistered_effect(
                old(self)@,
                final(self)@,
                source@,
                maybe_ref_view(sink),
                listener,
                token_outcome(outcome),
            ),
    {
        self.registry.unregister(source, sink, listener)
    }

    /// Checks the filters and removes a listener.
    pub fn unregister_checked(
        &mut self,
        source: &Uri,
        sink: Option<&Uri>,
        listener: u64,
    ) -> (outcome: Result<u64, Status>)
        requires
            old(self).wf(),
        ensures
            final(self).wf(),
            removal_effect(
                old(self)@,
                final(self)@,
                source@,
                maybe_ref_view(sink),
                listener,
                token_outcome(outcome),
            ),
    {
        match verify_filters(source, sink) {
            Err(status) => Err(status),
            Ok(_) => self.unregister(source, sink, listener),
        }
    }

    /// Starts a callback under a token and answers its listener, or nothing
    /// when the registration is gone.
    pub fn begin_callback(&mut self, token: u64) -> (started: Option<u64>)
        requires
            old(self).wf(),
            old(self)@.registry.in_flight(token) < usize::MAX,
        ensures
            final(self).wf(),
            match started {
                Some(listener) => {
                    let found = find_token(old(self)@.registry.active, token);
                    &&& found is Some
                    &&& 0 <= found->Some_0 < old(self)@.registry.active.len()
                    &&& listener == old(self)@.registry.active[found->Some_0].listener
                    &&& final(self)@ == old(self)@.with_registry(old(self)@.registry.begun(token))
                },
                None => !old(self)@.registry.is_active(token) && final(self)@ == old(self)@,
            },
    {
        self.registry.begin(token)
    }

    /// Ends a callback that was started under a token and answers whether it
    /// was the last one running under it.
    pub fn finish_callback(&mut self, token: u64) -> (idle: bool)
        requires
            old(self).wf(),
            old(self)@.registry.in_flight(token) > 0,
        ensures
            final(self).wf(),
            final(self)@ == old(self)@.with_registry(old(self)@.registry.finished(token)),
            idle == (final(self)@.registry.in_flight(token) == 0),
    {
        self.registry.finish(token)
    }

    /// Whether no callback runs under a token.
    pub fn is_idle(&self, token: u64) -> (idle: bool)
        requires
            self.wf(),
        ensures
            idle == (self@.registry.in_flight(token) == 0),
    {
        self.registry.is_idle(token)
    }

    /// Takes in what became of a callback job.
    pub fn submitted(&mut self, outcome: SubmitOutcome)
        requires
            old(self).wf(),
            old(self)@.has_room(),
        ensures
            final(self).wf(),
            final(self)@ == old(self)@.with_entry(submit_entry(outcome)),
    {
        match submit_detail(outcome) {
            None => {},
            Some(detail) => {
                self.health.record(HealthErrorKind::DispatchBackpressure, detail.to_owned());
            },
        }
    }

    /// Decides what to do with a running callback.
    pub fn callback_step(&self, finished: bool) -> (step: CallbackStep)
        ensures
            step == callback_progress(finished, self@.stopped),
    {
        callback_step(finished, self.stopped)
    }

    /// Takes in the result of a callback. One that failed while the transport
    /// is in use had panicked; one that failed afterwards was cancelled.
    pub fn callback_joined(&mut self, failed: bool)
        requires
            old(self).wf(),
            old(self)@.has_room(),
        ensures
            final(self).wf(),
            final(self)@ == if failed && !old(self)@.stopped {
                old(self)@.with_entry(Some(callback_panic_entry()))
            } else {
                old(self)@
            },
    {
        if failed && !self.stopped {
            self.job_panicked();
        }
    }

    /// Records a callback job that panicked.
    pub fn job_panicked(&mut self)
        requires
            old(self).wf(),
            old(self)@.has_room(),
        ensures
            final(self).wf(),
            final(self)@ == old(self)@.with_entry(Some(callback_panic_entry())),
    {
        self.health.record(
            HealthErrorKind::CallbackPanic,
            "listener callback panicked".to_owned(),
        );
    }

    /// Enters a step of the teardown and answers its action.
    fn enter(&mut self, step: TeardownStep) -> (action: TeardownAction)
        requires
            old(self).wf(),
            !(step is Running),
        ensures
            final(self).wf(),
            final(self)@ == entering(old(self)@, step),
            action_for(old(self)@, final(self)@, action),
    {
        self.teardown = step;
        match step {
            TeardownStep::Running | TeardownStep::Done => TeardownAction::Done,
            TeardownStep::AwaitDelivery => TeardownAction::AwaitDelivery {
                target: self.delivery.written,
                timeout: self.config.acknowledgment_timeout,
            },
            TeardownStep::Stop => {
                self.stopped = true;
                TeardownAction::Stop
            },
            TeardownStep::JoinPoller => TeardownAction::JoinPoller,
            TeardownStep::RetireListeners => {
                TeardownAction::AwaitIdle(self.registry.deactivate_all())
            },
            TeardownStep::JoinDispatcher => TeardownAction::JoinDispatcher,
            TeardownStep::ReleaseWriter => {
                self.open = false;
                TeardownAction::ReleaseWriter
            },
            TeardownStep::DeleteEntities => TeardownAction::DeleteEntities,
            TeardownStep::DeleteParticipant => TeardownAction::DeleteParticipant,
        }
    }

    /// Starts the teardown and answers its first action.
    pub fn begin_teardown(&mut self) -> (action: TeardownAction)
        requires
            old(self).wf(),
            old(self)@.teardown is Running,
        ensures
            final(self).wf(),
            final(self)@ == entering(old(self)@, first_teardown_step(old(self)@)),
            action_for(old(self)@, final(self)@, action),
    {
        if self.open && complete_on_drop(&self.config, &self.delivery).is_some() {
            self.enter(TeardownStep::AwaitDelivery)
        } else {
            self.enter(TeardownStep::Stop)
        }
    }

    /// Takes in what came of a teardown action and answers the next one.
    pub fn advance_teardown(&mut self, outcome: TeardownOutcome) -> (action: TeardownAction)
        requires
            old(self).wf(),
            old(self)@.has_room(),
            !(old(self)@.teardown is Running),
        ensures
            final(self).wf(),
            ({
                let noted = old(self)@.with_entry(
                    teardown_entry(old(self)@.family, old(self)@.teardown, outcome),
                );
                &&& final(self)@ == entering(noted, next_teardown_step(old(self)@.teardown))
                &&& action_for(noted, final(self)@, action)
            }),
    {
        let word = self.family.word();
        match (self.teardown, &outcome) {
            (TeardownStep::AwaitDelivery, TeardownOutcome::Failed(failure)) => {
                let context = join3("acknowledge ", word, " samples during teardown");
                self.health.record(
                    HealthErrorKind::DeliveryCompletion,
                    describe_in_context(context.as_str(), failure),
                );
            },
            (TeardownStep::JoinPoller, TeardownOutcome::Panicked) => {
                self.health.record(
                    HealthErrorKind::WorkerPanic,
                    join(word, " poller thread panicked"),
                );
            },
            (TeardownStep::JoinDispatcher, TeardownOutcome::Panicked) => {
                self.health.record(
                    HealthErrorKind::WorkerPanic,
                    join(word, " dispatcher thread panicked"),
                );
            },
            (TeardownStep::DeleteEntities, TeardownOutcome::Failed(failure)) => {
                let context = join3("delete ", word, " contained entities");
                self.health.record(
                    HealthErrorKind::Teardown,
                    describe_in_context(context.as_str(), failure),
                );
            },
            (TeardownStep::DeleteParticipant, TeardownOutcome::Failed(failure)) => {
                let context = join3("delete ", word, " participant");
                self.health.record(
                    HealthErrorKind::Teardown,
                    describe_in_context(context.as_str(), failure),
                );
            },
            _ => {},
        }
        let next = match self.teardown {
            TeardownStep::Running => TeardownStep::AwaitDelivery,
            TeardownStep::AwaitDelivery => TeardownStep::Stop,
            TeardownStep::Stop => TeardownStep::JoinPoller,
            TeardownStep::JoinPoller => TeardownStep::RetireListeners,
            TeardownStep::RetireListeners => TeardownStep::JoinDispatcher,
            TeardownStep::JoinDispatcher => TeardownStep::ReleaseWriter,
            TeardownStep::ReleaseWriter => TeardownStep::DeleteEntities,
            TeardownStep::DeleteEntities => TeardownStep::DeleteParticipant,
            TeardownStep::DeleteParticipant => TeardownStep::Done,
            TeardownStep::Done => TeardownStep::Done,
        };
        self.enter(next)
    }
}

/// What registering a listener does: it is refused if and only if the same
/// filters and listener are registered already.
pub open spec fn registered_effect(
    before: TransportView,
    after: TransportView,
    source: UriView,
    sink: Option<UriView>,
    listener: u64,
    outcome: Result<(), StatusView>,
) -> bool {
    if find(before.registry.active, source, sink, listener) is Some {
        outcome == Err::<(), StatusView>(already_registered()) && after == before
    } else {
        outcome is Ok && after == before.with_registry(
            before.registry.registered(source, sink, listener),
        )
    }
}

/// What checking filters and registering a listener does.
pub open spec fn registration_effect(
    before: TransportView,
    after: TransportView,
    source: UriView,
    sink: Option<UriView>,
    listener: u64,
    outcome: Result<(), StatusView>,
) -> bool {
    match filter_outcome(source, sink) {
        Err(status) => outcome == Err::<(), StatusView>(status) && after == before,
        Ok(_) => registered_effect(before, after, source, sink, listener, outcome),
    }
}

/// A removal as contracts see it.
pub open spec fn token_outcome(outcome: Result<u64, Status>) -> Result<u64, StatusView> {
    match outcome {
        Ok(token) => Ok(token),
        Err(status) => Err(status@),
    }
}

/// What removing a listener does: it is refused if and only if there is no
/// such registration; otherwise its token is answered and retired.
pub open spec fn unregistered_effect(
    before: TransportView,
    after: TransportView,
    source: UriView,
    sink: Option<UriView>,
    listener: u64,
    outcome: Result<u64, StatusView>,
) -> bool {
    match find(before.registry.active, source, sink, listener) {
        None => outcome == Err::<u64, StatusView>(not_registered()) && after == before,
        Some(at) => {
            &&& 0 <= at < before.registry.active.len()
            &&& outcome == Ok::<u64, StatusView>(before.registry.active[at].token)
            &&& after == before.with_registry(before.registry.unregistered(at))
            &&& !after.registry.is_active(before.registry.active[at].token)
        },
    }
}

/// What checking filters and removing a listener does.
pub open spec fn removal_effect(
    before: TransportView,
    after: TransportView,
    source: UriView,
    sink: Option<UriView>,
    listener: u64,
    outcome: Result<u64, StatusView>,
) -> bool {
    match filter_outcome(source, sink) {
        Err(status) => outcome == Err::<u64, StatusView>(status) && after == before,
        Ok(_) => unregistered_effect(before, after, source, sink, listener, outcome),
    }
}

/// Requiring no reader succeeds at once, whatever the middleware reports; and
/// once the time is up a wait ends either way.
pub proof fn law_readiness_is_bounded(
    required: usize,
    observed: Result<i32, DdsFailure>,
    expired: bool,
)
    ensures
        required == 0 ==> wait_progress(required, observed, expired) is Ready,
        expired ==> !(wait_progress(required, observed, expired) is Retry),
        required > 0 ==> (wait_progress(required, observed, expired) is Ready <==> (observed is Ok
            && observed->Ok_0 >= required)),
{
}

/// From the first step of its teardown that stops the workers on, a transport
/// takes no more samples and cancels unfinished callbacks.
pub proof fn law_stopped_transport_comes_to_rest(view: TransportView, waited: bool)
    ensures
        poll_progress(entering(view, TeardownStep::Stop), waited) is Stop,
        callback_progress(false, entering(view, TeardownStep::Stop).stopped) is Abort,
{
}

/// State after one teardown action came to an outcome.
pub open spec fn advanced(view: TransportView, outcome: TeardownOutcome) -> TransportView {
    entering(
        view.with_entry(teardown_entry(view.family, view.teardown, outcome)),
        next_teardown_step(view.teardown),
    )
}

/// State after a sequence of teardown actions came to their outcomes.
pub open spec fn torn_down(view: TransportView, outcomes: Seq<TeardownOutcome>) -> TransportView
    decreases outcomes.len(),
{
    if outcomes.len() == 0 {
        view
    } else {
        advanced(torn_down(view, outcomes.drop_last()), outcomes.last())
    }
}

/// Whatever the single actions come to, a teardown runs to its end: the
/// workers are stopped, every listener is retired and the writer is given up,
/// while callbacks that still run stay counted.
pub proof fn law_teardown_runs_to_its_end(view: TransportView, outcomes: Seq<TeardownOutcome>)
    requires
        outcomes.len() == if first_teardown_step(view) is AwaitDelivery {
            9int
        } else {
            8int
        },
    ensures
        ({
            let end = torn_down(entering(view, first_teardown_step(view)), outcomes);
            &&& end.teardown is Done
            &&& end.stopped
            &&& !end.open
            &&& end.registry == view.registry.cleared()
            &&& end.delivery == view.delivery
            &&& end.family == view.family
            &&& end.config == view.config
        }),
{
    reveal_with_fuel(torn_down, 10);
}

/// A teardown in which every action succeeds records no error.
pub proof fn law_clean_teardown_records_nothing(
    view: TransportView,
    outcomes: Seq<TeardownOutcome>,
)
    requires
        forall|i: int| 0 <= i < outcomes.len() ==> #[trigger] outcomes[i] is Done,
    ensures
        torn_down(view, outcomes).log == view.log,
    decreases outcomes.len(),
{
    if outcomes.len() > 0 {
        let shorter = outcomes.drop_last();
        assert forall|i: int| 0 <= i < shorter.len() implies #[trigger] shorter[i] is Done by {
            assert(shorter[i] == outcomes[i]);
        }
        law_clean_teardown_records_nothing(view, shorter);
        assert(outcomes.last() is Done);
    }
}

/// A teardown adds errors to the history and takes none away.
pub proof fn law_teardown_keeps_history(view: TransportView, outcomes: Seq<TeardownOutcome>)
    ensures
        view.log.len() <= torn_down(view, outcomes).log.len() <= view.log.len() + outcomes.len(),
        torn_down(view, outcomes).log.take(view.log.len() as int) == view.log,
    decreases outcomes.len(),
{
    if outcomes.len() > 0 {
        let shorter = outcomes.drop_last();
        law_teardown_keeps_history(view, shorter);
        assert(torn_down(view, outcomes).log.take(view.log.len() as int) =~= torn_down(
            view,
            shorter,
        ).log.take(view.log.len() as int));
    } else {
        assert(view.log.take(view.log.len() as int) =~= view.log);
    }
}

/// Once the listeners are retired no callback can start any more, while those
/// that run stay counted.
pub proof fn law_retiring_stops_new_callbacks(view: TransportView, token: u64)
    ensures
        !entering(view, TeardownStep::RetireListeners).registry.is_active(token),
        entering(view, TeardownStep::RetireListeners).registry.in_flight(token)
            == view.registry.in_flight(token),
{
}

/// Listeners that a teardown retired stay silent over every later history of
/// registrations and callbacks: none starts under a token given out before,
/// those that ran at that time only end, and once they have ended none ever
/// runs again.
pub proof fn law_retired_listeners_stay_silent(
    view: TransportView,
    token: u64,
    steps: Seq<RegistryStep>,
)
    requires
        view.registry.wf(),
        token < view.registry.next_token,
    ensures
        ({
            let retired = entering(view, TeardownStep::RetireListeners).registry;
            &&& retired.started(steps, token) == 0
            &&& !retired.replayed(steps).is_active(token)
            &&& retired.replayed(steps).in_flight(token) + retired.ended(steps, token)
                == view.registry.in_flight(token)
            &&& retired.in_flight(token) == 0 ==> retired.replayed(steps).in_flight(token) == 0
        }),
{
    law_deactivated_listeners_stay_silent(view.registry, token, steps);
}

/// A poller waits for the configured interval and takes at most the configured
/// number of samples in turns, until it is told to stop.
pub proof fn law_pollers_wait_and_take_in_turns(view: TransportView)
    ensures
        view.stopped ==> poll_progress(view, true) is Stop && poll_progress(view, false) is Stop,
        !view.stopped ==> poll_progress(view, false) == PollStep::Wait(view.config.poll_interval),
        !view.stopped ==> poll_progress(view, true) == PollStep::Take(
            view.config.max_samples_per_poll,
        ),
{
}

/// A wait for readers that fails says why: with the failure of the middleware,
/// or with a passed deadline and both numbers; otherwise it is tried again
/// after 10 ms.
pub proof fn law_how_waits_for_readers_end(
    required: usize,
    observed: Result<i32, DdsFailure>,
    expired: bool,
)
    requires
        required > 0,
    ensures
        ({
            let step = wait_progress(required, observed, expired);
            &&& observed matches Err(failure) ==> step == WaitView::Failed(
                dds_status_view("read readiness"@, failure),
            )
            &&& observed matches Ok(count) ==> (count >= required ==> step is Ready)
            &&& observed matches Ok(count) ==> (count < required && !expired ==> step is Retry
                && step->Retry_0.length() == 10_000_000)
            &&& observed matches Ok(count) ==> (count < required && expired ==> step is Failed
                && step->Failed_0.code == StatusCode::DeadlineExceeded && step->Failed_0.message
                == "DDS discovery timed out with "@ + integer_text(count as int)
                + " matched readers; required "@ + decimal_text(required as nat))
        }),
{
}

/// The view of a wait shows where it stands.
pub proof fn law_waits_are_seen_whole(interval: Interval, status: Status)
    ensures
        WaitStep::Ready@ is Ready,
        WaitStep::Retry(interval)@ == WaitView::Retry(interval),
        WaitStep::Failed(status)@ == WaitView::Failed(status@),
        token_outcome(Err(status)) == Err::<u64, StatusView>(status@),
{
}

/// A removal that succeeds answers its token.
pub proof fn law_tokens_are_answered(token: u64)
    ensures
        token_outcome(Ok(token)) == Ok::<u64, StatusView>(token),
{
}

/// Changing one part of the state leaves the others alone: recording appends
/// one error to the history, and registrations and counts replace the old ones.
pub proof fn law_parts_of_the_state_change_alone(
    view: TransportView,
    kind: HealthErrorKind,
    detail: Seq<char>,
    registry: RegistryView,
    delivery: DeliveryTracker,
)
    ensures
        ({
            let entry = LogEntry { kind, detail };
            &&& view.with_error(kind, detail) == (TransportView {
                log: view.log.push(entry),
                ..view
            })
            &&& view.with_entry(Some(entry)) == (TransportView {
                log: view.log.push(entry),
                ..view
            })
            &&& view.with_entry(None) == view
            &&& view.with_registry(registry) == (TransportView { registry, ..view })
            &&& view.with_delivery(delivery) == (TransportView { delivery, ..view })
            &&& view.has_room() <==> view.log.len() < 0xFFFF_FFFF_FFFF_FFFF
        }),
{
}

/// A write is counted by one in a reliable transport, and not at all in a
/// best-effort one.
pub proof fn law_reliable_writes_are_counted(view: TransportView)
    ensures
        view.config.qos.reliability is BestEffort ==> view.after_write() == view,
        view.config.qos.reliability is Reliable && view.delivery.written < u64::MAX
            ==> view.after_write() == (TransportView {
            delivery: DeliveryTracker {
                written: (view.delivery.written + 1) as u64,
                delivered: view.delivery.delivered,
            },
            ..view
        }),
{
}

/// A new transport is open and running, without registrations, callbacks,
/// counts or errors, and is of the family and the configuration asked for.
pub proof fn law_new_transports_are_empty(family: Family, config: ConfigView)
    ensures
        ({
            let view = fresh(family, config);
            &&& view.family == family
            &&& view.config == config
            &&& view.open
            &&& !view.stopped
            &&& view.teardown is Running
            &&& view.registry.active.len() == 0
            &&& view.registry.running.dom().len() == 0
            &&& view.delivery.written == 0
            &&& view.delivery.delivered == 0
            &&& view.log.len() == 0
            &&& view.has_room()
        }),
{
}

/// Failed writes and failed waits name the family and what was tried.
pub proof fn law_failed_sends_name_their_family(family: Family)
    ensures
        acknowledge_context(family) == "acknowledge "@ + family_word(family) + " sample"@,
        write_context(family) == "write "@ + family_word(family) + " sample"@,
{
}

/// A teardown first waits for delivery exactly if the transport is open,
/// reliable, acknowledges on drop and wrote anything; then it stops the
/// workers, joins the poller, retires the listeners, joins the dispatcher,
/// gives up the writer, and deletes the entities before the participant.
pub proof fn law_teardown_order(view: TransportView, outcomes: Seq<TeardownOutcome>)
    ensures
        first_teardown_step(view) is AwaitDelivery <==> view.open && view.config.qos.reliability
            is Reliable && view.config.acknowledgment_mode is OnDrop && view.delivery.written > 0,
        first_teardown_step(view) is AwaitDelivery || first_teardown_step(view) is Stop,
        advanced(
            TransportView { teardown: TeardownStep::AwaitDelivery, ..view },
            TeardownOutcome::Done,
        ).teardown is Stop,
        ({
            let step = torn_down(entering(view, TeardownStep::Stop), outcomes).teardown;
            &&& outcomes.len() == 0 ==> step is Stop
            &&& outcomes.len() == 1 ==> step is JoinPoller
            &&& outcomes.len() == 2 ==> step is RetireListeners
            &&& outcomes.len() == 3 ==> step is JoinDispatcher
            &&& outcomes.len() == 4 ==> step is ReleaseWriter
            &&& outcomes.len() == 5 ==> step is DeleteEntities
            &&& outcomes.len() == 6 ==> step is DeleteParticipant
            &&& outcomes.len() >= 7 ==> step is Done
        }),
    decreases outcomes.len(),
{
    reveal_with_fuel(torn_down, 8);
    if outcomes.len() > 7 {
        law_teardown_order(view, outcomes.drop_last());
    }
}

/// Entering a step of the teardown changes only what the step is for: stopping
/// tells the workers, retiring removes the registrations and leaves running
/// callbacks counted, giving up the writer closes the transport.
pub proof fn law_teardown_steps_change_only_their_part(view: TransportView, step: TeardownStep)
    ensures
        ({
            let after = entering(view, step);
            &&& after.teardown == step
            &&& after.stopped == (view.stopped || step is Stop)
            &&& after.open == (view.open && !(step is ReleaseWriter))
            &&& step is RetireListeners ==> after.registry.active.len() == 0
                && after.registry.running == view.registry.running && after.registry.next_token
                == view.registry.next_token
            &&& step !is RetireListeners ==> after.registry == view.registry
            &&& after.family == view.family
            &&& after.config == view.config
            &&& after.delivery == view.delivery
            &&& after.log == view.log
        }),
{
}

/// An action of the teardown belongs to the step that was entered: a wait for
/// delivery is for every written sample and as long as configured, and a wait
/// for callbacks is for every registration that was retired.
pub proof fn law_teardown_asks_for_its_step(
    before: TransportView,
    after: TransportView,
    action: TeardownAction,
    at: int,
)
    requires
        action_for(before, after, action),
    ensures
        after.teardown !is Running,
        after.teardown is AwaitDelivery <==> action is AwaitDelivery,
        after.teardown is Stop <==> action is Stop,
        after.teardown is JoinPoller <==> action is JoinPoller,
        after.teardown is RetireListeners <==> action is AwaitIdle,
        after.teardown is JoinDispatcher <==> action is JoinDispatcher,
        after.teardown is ReleaseWriter <==> action is ReleaseWriter,
        after.teardown is DeleteEntities <==> action is DeleteEntities,
        after.teardown is DeleteParticipant <==> action is DeleteParticipant,
        after.teardown is Done <==> action is Done,
        action matches TeardownAction::AwaitDelivery { target, timeout } ==> target
            == before.delivery.written && timeout == before.config.acknowledgment_timeout,
        action matches TeardownAction::AwaitIdle(tokens) ==> tokens@.len()
            == before.registry.active.len() && (0 <= at < tokens@.len() ==> tokens@[at]
            == before.registry.active[at].token),
{
}

/// A teardown step leaves an error behind exactly if its action failed in a way
/// that it can fail: a wait for delivery or a deletion that the middleware
/// refused, or a joined thread that had panicked. The error has the category of
/// the step and names the family.
pub proof fn law_failed_teardown_steps_are_recorded(
    family: Family,
    step: TeardownStep,
    outcome: TeardownOutcome,
)
    ensures
        ({
            let entry = teardown_entry(family, step, outcome);
            let word = family_word(family);
            &&& entry is Some <==> (outcome is Failed && (step is AwaitDelivery
                || step is DeleteEntities || step is DeleteParticipant)) || (outcome is Panicked && (
            step is JoinPoller || step is JoinDispatcher))
            &&& entry is Some && step is AwaitDelivery ==> entry->Some_0.kind
                == HealthErrorKind::DeliveryCompletion && entry->Some_0.detail == "acknowledge "@
                + word + " samples during teardown"@ + ": "@ + failure_text(outcome->Failed_0)
            &&& entry is Some && step is DeleteEntities ==> entry->Some_0.kind
                == HealthErrorKind::Teardown && entry->Some_0.detail == "delete "@ + word
                + " contained entities"@ + ": "@ + failure_text(outcome->Failed_0)
            &&& entry is Some && step is DeleteParticipant ==> entry->Some_0.kind
                == HealthErrorKind::Teardown && entry->Some_0.detail == "delete "@ + word
                + " participant"@ + ": "@ + failure_text(outcome->Failed_0)
            &&& entry is Some && step is JoinPoller ==> entry->Some_0.kind
                == HealthErrorKind::WorkerPanic && entry->Some_0.detail == word
                + " poller thread panicked"@
            &&& entry is Some && step is JoinDispatcher ==> entry->Some_0.kind
                == HealthErrorKind::WorkerPanic && entry->Some_0.detail == word
                + " dispatcher thread panicked"@
        }),
{
}

/// A teardown action that came to an outcome adds at most the error of that
/// outcome to the history and goes on to the next step.
pub proof fn law_teardown_records_as_it_goes(view: TransportView, outcome: TeardownOutcome)
    ensures
        ({
            let entry = teardown_entry(view.family, view.teardown, outcome);
            let after = advanced(view, outcome);
            &&& entry is Some ==> after.log == view.log.push(entry->Some_0)
            &&& entry is None ==> after.log == view.log
            &&& after.delivery == view.delivery
            &&& after.config == view.config
            &&& after.family == view.family
            &&& after.teardown != view.teardown || view.teardown is Done
        }),
{
}

/// Registering and removing without a check of the filters goes by the fields
/// of the registrations alone: registering is refused, as already existing, if
/// and only if one has the same source filter, sink filter and listener, and
/// otherwise adds this one at the end; removing is refused, as not found, if
/// and only if none has, and otherwise answers the token of the one that is
/// taken out. Nothing else changes.
pub proof fn law_registering_changes_registrations_alone(
    before: TransportView,
    after: TransportView,
    source: UriView,
    sink: Option<UriView>,
    listener: u64,
    registered: Result<(), StatusView>,
    removed: Result<u64, StatusView>,
)
    ensures
        ({
            let active = before.registry.active;
            let known = exists|i: int|
                0 <= i < active.len() && (#[trigger] active[i]).source == source && active[i].sink
                    == sink && active[i].listener == listener;
            &&& registered_effect(before, after, source, sink, listener, registered) ==> {
                &&& registered is Err <==> known
                &&& known ==> after == before && registered->Err_0.code
                    == StatusCode::AlreadyExists
                &&& !known ==> after == (TransportView {
                    registry: RegistryView {
                        active: active.push(
                            EntryView { token: before.registry.next_token, source, sink, listener },
                        ),
                        running: before.registry.running,
                        next_token: (before.registry.next_token + 1) as u64,
                    },
                    ..before
                })
            }
            &&& unregistered_effect(before, after, source, sink, listener, removed) ==> {
                &&& removed is Ok <==> known
                &&& !known ==> after == before && removed->Err_0.code == StatusCode::NotFound
                &&& known ==> exists|at: int|
                    0 <= at < active.len() && (#[trigger] active[at]).source == source
                        && active[at].sink == sink && active[at].listener == listener
                        && removed->Ok_0 == active[at].token && after == (TransportView {
                        registry: RegistryView {
                            active: active.remove(at),
                            running: before.registry.running,
                            next_token: before.registry.next_token,
                        },
                        ..before
                    })
            }
        }),
{
    let active = before.registry.active;
    lemma_find(active, source, sink, listener);
    match find(active, source, sink, listener) {
        Some(at) => {
            assert(active[at].source == source && active[at].sink == sink && active[at].listener
                == listener);
        },
        None => {
            assert forall|i: int| 0 <= i < active.len() implies (#[trigger] active[i]).source
                != source || active[i].sink != sink || active[i].listener != listener by {
                assert(!same_key(active[i], source, sink, listener));
            }
        },
    }
}

/// Filters are checked first: a refused pair is answered with the refusal and
/// changes nothing, any other is registered or removed as without the check.
pub proof fn law_filters_are_checked_first(
    before: TransportView,
    after: TransportView,
    source: UriView,
    sink: Option<UriView>,
    listener: u64,
    registered: Result<(), StatusView>,
    removed: Result<u64, StatusView>,
)
    ensures
        filter_outcome(source, sink) matches Err(status) ==> (registration_effect(
            before,
            after,
            source,
            sink,
            listener,
            registered,
        ) ==> after == before && registered == Err::<(), StatusView>(status)) && (removal_effect(
            before,
            after,
            source,
            sink,
            listener,
            removed,
        ) ==> after == before && removed == Err::<u64, StatusView>(status)),
        filter_outcome(source, sink) is Ok ==> registration_effect(
            before,
            after,
            source,
            sink,
            listener,
            registered,
        ) == registered_effect(before, after, source, sink, listener, registered)
            && removal_effect(before, after, source, sink, listener, removed)
            == unregistered_effect(before, after, source, sink, listener, removed),
{
}

/// A teardown stops the workers only after the wait for delivery, retires the
/// listeners only once the poller has ended, gives up the writer only once the
/// dispatcher has ended, and deletes the participant after its entities.
pub proof fn law_teardown_goes_on_to_the_next_step(step: TeardownStep)
    ensures
        next_teardown_step(step) is Stop <==> step is AwaitDelivery,
        next_teardown_step(step) is JoinPoller <==> step is Stop,
        next_teardown_step(step) is RetireListeners <==> step is JoinPoller,
        next_teardown_step(step) is JoinDispatcher <==> step is RetireListeners,
        next_teardown_step(step) is ReleaseWriter <==> step is JoinDispatcher,
        next_teardown_step(step) is DeleteEntities <==> step is ReleaseWriter,
        next_teardown_step(step) is DeleteParticipant <==> step is DeleteEntities,
        next_teardown_step(step) is Done <==> step is DeleteParticipant || step is Done,
        next_teardown_step(step) !is Running,
{
}

} // verus!
