//! Health of a transport: counters and the most recent background errors.

use std::collections::VecDeque;

use vstd::prelude::*;

verus! {

/// Number of recent errors that a health handle keeps.
pub const MAX_HEALTH_EVENTS: usize = 64;

/// Categories reported by background transport work.
#[derive(Clone, Copy, Debug, PartialEq, Eq, Structural)]
pub enum HealthErrorKind {
    /// DDS reader or writer operation failed.
    Dds,
    /// A decoded outer sample violated its contract.
    MalformedSample,
    /// The bounded callback queue was full or disconnected.
    DispatchBackpressure,
    /// A callback panicked.
    CallbackPanic,
    /// A poller or dispatcher thread panicked during shutdown.
    WorkerPanic,
    /// DDS entity teardown failed.
    Teardown,
    /// Written samples were not delivered in time.
    DeliveryCompletion,
}

/// One observable asynchronous transport error.
#[derive(Debug, PartialEq, Eq)]
pub struct HealthEvent {
    /// Monotonic sequence number within this health handle.
    pub sequence: u64,
    /// Stable error category.
    pub kind: HealthErrorKind,
    /// Human-readable detail.
    pub detail: String,
}

/// An error as contracts see it.
#[verifier::ext_equal]
pub struct EventView {
    /// Sequence number.
    pub sequence: nat,
    /// Error category.
    pub kind: HealthErrorKind,
    /// Human-readable detail.
    pub detail: Seq<char>,
}

impl View for HealthEvent {
    type V = EventView;

    open spec fn view(&self) -> EventView {
        EventView { sequence: self.sequence as nat, kind: self.kind, detail: self.detail@ }
    }
}

impl Clone for HealthEvent {
    fn clone(&self) -> (copy: HealthEvent)
        ensures
            copy@ == self@,
    {
        HealthEvent { sequence: self.sequence, kind: self.kind, detail: self.detail.clone() }
    }
}

/// One entry of the history of errors.
#[verifier::ext_equal]
pub struct LogEntry {
    /// Error category.
    pub kind: HealthErrorKind,
    /// Human-readable detail.
    pub detail: Seq<char>,
}

/// Snapshot of transport health counters and recent errors.
#[derive(Debug, Default, PartialEq, Eq)]
pub struct HealthSnapshot {
    /// DDS operation failures.
    pub dds_errors: u64,
    /// Rejected decoded outer samples.
    pub malformed_samples: u64,
    /// Callback jobs rejected by bounded dispatch.
    pub dispatch_drops: u64,
    /// Callback panics caught by the dispatcher.
    pub callback_panics: u64,
    /// Poller or dispatcher join failures.
    pub worker_panics: u64,
    /// DDS teardown failures.
    pub teardown_errors: u64,
    /// Waits for delivery that failed.
    pub delivery_completion_errors: u64,
    /// At most the 64 most recent errors.
    pub recent_events: Vec<HealthEvent>,
}

/// A snapshot as contracts see it.
#[verifier::ext_equal]
pub struct SnapshotView {
    /// DDS operation failures.
    pub dds_errors: nat,
    /// Rejected decoded outer samples.
    pub malformed_samples: nat,
    /// Callback jobs rejected by bounded dispatch.
    pub dispatch_drops: nat,
    /// Callback panics caught by the dispatcher.
    pub callback_panics: nat,
    /// Poller or dispatcher join failures.
    pub worker_panics: nat,
    /// DDS teardown failures.
    pub teardown_errors: nat,
    /// Waits for delivery that failed.
    pub delivery_completion_errors: nat,
    /// The most recent errors, oldest first.
    pub recent_events: Seq<EventView>,
}

/// A sequence of errors as contracts see it.
pub open spec fn event_views(events: Seq<HealthEvent>) -> Seq<EventView> {
    events.map_values(|event: HealthEvent| event@)
}

impl View for HealthSnapshot {
    type V = SnapshotView;

    open spec fn view(&self) -> SnapshotView {
        SnapshotView {
            dds_errors: self.dds_errors as nat,
            malformed_samples: self.malformed_samples as nat,
            dispatch_drops: self.dispatch_drops as nat,
            callback_panics: self.callback_panics as nat,
            worker_panics: self.worker_panics as nat,
            teardown_errors: self.teardown_errors as nat,
            delivery_completion_errors: self.delivery_completion_errors as nat,
            recent_events: event_views(self.recent_events@),
        }
    }
}

impl Clone for HealthSnapshot {
    fn clone(&self) -> (copy: HealthSnapshot)
        ensures
            copy@ == self@,
    {
        let mut recent_events: Vec<HealthEvent> = Vec::new();
        let mut at: usize = 0;
        while at < self.recent_events.len()
            invariant
                at <= self.recent_events.len(),
                event_views(recent_events@) == event_views(self.recent_events@).take(at as int),
            decreases self.recent_events.len() - at,
        {
            let ghost copied = recent_events@;
            let event = self.recent_events[at].clone();
            recent_events.push(event);
            assert(event_views(recent_events@) =~= event_views(copied).push(event@));
            assert(event_views(self.recent_events@).take(at + 1) =~= event_views(
                self.recent_events@,
            ).take(at as int).push(self.recent_events@[at as int]@));
            at = at + 1;
        }
        assert(event_views(recent_events@) =~= event_views(self.recent_events@));
        HealthSnapshot {
            dds_errors: self.dds_errors,
            malformed_samples: self.malformed_samples,
            dispatch_drops: self.dispatch_drops,
            callback_panics: self.callback_panics,
            worker_panics: self.worker_panics,
            teardown_errors: self.teardown_errors,
            delivery_completion_errors: self.delivery_completion_errors,
            recent_events,
        }
    }
}

/// How many entries of a history have the given category.
pub open spec fn tally(log: Seq<LogEntry>, kind: HealthErrorKind) -> nat
    decreases log.len(),
{
    if log.len() == 0 {
        0
    } else {
        tally(log.drop_last(), kind) + (if log.last().kind == kind {
            1nat
        } else {
            0nat
        })
    }
}

/// The last 64 entries of a history, numbered from one over the whole history.
pub open spec fn recent(log: Seq<LogEntry>) -> Seq<EventView> {
    let dropped: int = if log.len() <= MAX_HEALTH_EVENTS {
        0
    } else {
        log.len() - MAX_HEALTH_EVENTS
    };
    Seq::new(
        (log.len() - dropped) as nat,
        |i: int|
            EventView {
                sequence: (dropped + i + 1) as nat,
                kind: log[dropped + i].kind,
                detail: log[dropped + i].detail,
            },
    )
}

/// The snapshot of a handle with the given history.
pub open spec fn snapshot_of(log: Seq<LogEntry>) -> SnapshotView {
    SnapshotView {
        dds_errors: tally(log, HealthErrorKind::Dds),
        malformed_samples: tally(log, HealthErrorKind::MalformedSample),
        dispatch_drops: tally(log, HealthErrorKind::DispatchBackpressure),
        callback_panics: tally(log, HealthErrorKind::CallbackPanic),
        worker_panics: tally(log, HealthErrorKind::WorkerPanic),
        teardown_errors: tally(log, HealthErrorKind::Teardown),
        delivery_completion_errors: tally(log, HealthErrorKind::DeliveryCompletion),
        recent_events: recent(log),
    }
}

/// Health of one transport.
///
/// Its model is the history of every error recorded so far; what is stored
/// is the counters and the tail of that history.
pub struct DdsHealth {
    next_sequence: u64,
    dds_errors: u64,
    malformed_samples: u64,
    dispatch_drops: u64,
    callback_panics: u64,
    worker_panics: u64,
    teardown_errors: u64,
    delivery_completion_errors: u64,
    events: VecDeque<HealthEvent>,
    log: Ghost<Seq<LogEntry>>,
}

impl Default for DdsHealth {
    fn default() -> (health: DdsHealth)
        ensures
            health.wf(),
            health.log() == Seq::<LogEntry>::empty(),
    {
        let health = DdsHealth {
            next_sequence: 0,
            dds_errors: 0,
            malformed_samples: 0,
            dispatch_drops: 0,
            callback_panics: 0,
            worker_panics: 0,
            teardown_errors: 0,
            delivery_completion_errors: 0,
            events: VecDeque::new(),
            log: Ghost(Seq::empty()),
        };
        assert(event_views(health.events@) =~= recent(health.log@));
        health
    }
}

impl DdsHealth {
    /// Every error recorded so far, oldest first.
    pub closed spec fn log(&self) -> Seq<LogEntry> {
        self.log@
    }

    /// The stored counters and events are those of the history.
    pub closed spec fn wf(&self) -> bool {
        &&& self.next_sequence == self.log@.len()
        &&& self.dds_errors == tally(self.log@, HealthErrorKind::Dds)
        &&& self.malformed_samples == tally(self.log@, HealthErrorKind::MalformedSample)
        &&& self.dispatch_drops == tally(self.log@, HealthErrorKind::DispatchBackpressure)
        &&& self.callback_panics == tally(self.log@, HealthErrorKind::CallbackPanic)
        &&& self.worker_panics == tally(self.log@, HealthErrorKind::WorkerPanic)
        &&& self.teardown_errors == tally(self.log@, HealthErrorKind::Teardown)
        &&& self.delivery_completion_errors == tally(self.log@, HealthErrorKind::DeliveryCompletion)
        &&& event_views(self.events@) == recent(self.log@)
    }

    /// Whether another error can still be numbered.
    pub open spec fn has_room(&self) -> bool {
        self.log().len() < u64::MAX
    }

    /// Whether another error can still be numbered.
    pub fn can_record(&self) -> (room: bool)
        requires
            self.wf(),
        ensures
            room == self.has_room(),
    {
        self.next_sequence < u64::MAX
    }

    /// Returns a snapshot of all health information.
    #[must_use]
    pub fn snapshot(&self) -> (snapshot: HealthSnapshot)
        requires
            self.wf(),
        ensures
            snapshot@ == snapshot_of(self.log()),
    {
        let mut recent_events: Vec<HealthEvent> = Vec::new();
        let mut at: usize = 0;
        while at < self.events.len()
            invariant
                at <= self.events@.len(),
                event_views(recent_events@) == event_views(self.events@).take(at as int),
            decreases self.events@.len() - at,
        {
            let ghost copied = recent_events@;
            let event = self.events[at].clone();
            recent_events.push(event);
            assert(event_views(recent_events@) =~= event_views(copied).push(event@));
            assert(event_views(self.events@).take(at + 1) =~= event_views(self.events@).take(
                at as int,
            ).push(self.events@[at as int]@));
            at = at + 1;
        }
        assert(event_views(recent_events@) =~= event_views(self.events@));
        HealthSnapshot {
            dds_errors: self.dds_errors,
            malformed_samples: self.malformed_samples,
            dispatch_drops: self.dispatch_drops,
            callback_panics: self.callback_panics,
            worker_panics: self.worker_panics,
            teardown_errors: self.teardown_errors,
            delivery_completion_errors: self.delivery_completion_errors,
            recent_events,
        }
    }

    /// Records one error.
    pub fn record(&mut self, kind: HealthErrorKind, detail: String)
        requires
            old(self).wf(),
            old(self).has_room(),
        ensures
            final(self).wf(),
            final(self).log() == old(self).log().push(LogEntry { kind, detail: detail@ }),
    {
        let ghost before = self.log@;
        let ghost after = before.push(LogEntry { kind, detail: detail@ });
        proof {
            assert(after.drop_last() =~= before);
            lemma_tally_bound(before, HealthErrorKind::Dds);
            lemma_tally_bound(before, HealthErrorKind::MalformedSample);
            lemma_tally_bound(before, HealthErrorKind::DispatchBackpressure);
            lemma_tally_bound(before, HealthErrorKind::CallbackPanic);
            lemma_tally_bound(before, HealthErrorKind::WorkerPanic);
            lemma_tally_bound(before, HealthErrorKind::Teardown);
            lemma_tally_bound(before, HealthErrorKind::DeliveryCompletion);
        }
        match kind {
            HealthErrorKind::Dds => {
                self.dds_errors = self.dds_errors + 1;
            },
            HealthErrorKind::MalformedSample => {
                self.malformed_samples = self.malformed_samples + 1;
            },
            HealthErrorKind::DispatchBackpressure => {
                self.dispatch_drops = self.dispatch_drops + 1;
            },
            HealthErrorKind::CallbackPanic => {
                self.callback_panics = self.callback_panics + 1;
            },
            HealthErrorKind::WorkerPanic => {
                self.worker_panics = self.worker_panics + 1;
            },
            HealthErrorKind::Teardown => {
                self.teardown_errors = self.teardown_errors + 1;
            },
            HealthErrorKind::DeliveryCompletion => {
                self.delivery_completion_errors = self.delivery_completion_errors + 1;
            },
        }
        self.next_sequence = self.next_sequence + 1;
        let sequence: u64 = self.next_sequence;
        assert(event_views(self.events@).len() == self.events@.len());
        if self.events.len() == MAX_HEALTH_EVENTS {
            let _ = self.events.pop_front();
        }
        self.events.push_back(HealthEvent { sequence, kind, detail });
        self.log = Ghost(after);
        assert(event_views(self.events@) =~= recent(after)) by {
            let kept = event_views(old(self).events@);
            assert(kept == recent(before));
            assert forall|i: int| 0 <= i < self.events@.len() implies event_views(self.events@)[i]
                == recent(after)[i] by {
                if i + 1 < self.events@.len() {
                    if before.len() >= MAX_HEALTH_EVENTS {
                        assert(event_views(self.events@)[i] == kept[i + 1]);
                    } else {
                        assert(event_views(self.events@)[i] == kept[i]);
                    }
                }
            }
        }
    }
}

/// A category occurs at most as often as there are entries.
proof fn lemma_tally_bound(log: Seq<LogEntry>, kind: HealthErrorKind)
    ensures
        tally(log, kind) <= log.len(),
    decreases log.len(),
{
    if log.len() > 0 {
        lemma_tally_bound(log.drop_last(), kind);
    }
}

/// Recording an error raises the counter of its category by one and leaves
/// the other counters as they are.
pub proof fn law_one_counter_per_error(
    log: Seq<LogEntry>,
    entry: LogEntry,
    kind: HealthErrorKind,
)
    ensures
        tally(log.push(entry), kind) == tally(log, kind) + (if entry.kind == kind {
            1nat
        } else {
            0nat
        }),
{
    assert(log.push(entry).drop_last() =~= log);
}

/// The counters together count every recorded error.
pub proof fn law_counters_cover_history(log: Seq<LogEntry>)
    ensures
        ({
            let view = snapshot_of(log);
            view.dds_errors + view.malformed_samples + view.dispatch_drops + view.callback_panics
                + view.worker_panics + view.teardown_errors + view.delivery_completion_errors
                == log.len()
        }),
    decreases log.len(),
{
    if log.len() > 0 {
        law_counters_cover_history(log.drop_last());
    }
}

/// A snapshot holds at most 64 errors, all of them while there are no more,
/// numbered consecutively, and the newest is the last one recorded.
pub proof fn law_recent_events_are_bounded_and_consecutive(log: Seq<LogEntry>)
    ensures
        snapshot_of(log).recent_events.len() <= 64,
        log.len() <= 64 ==> snapshot_of(log).recent_events.len() == log.len(),
        log.len() > 64 ==> snapshot_of(log).recent_events.len() == 64,
        forall|i: int, j: int|
            0 <= i < j < snapshot_of(log).recent_events.len()
                ==> #[trigger] snapshot_of(log).recent_events[j].sequence
                == #[trigger] snapshot_of(log).recent_events[i].sequence + (j - i),
        log.len() > 0 ==> snapshot_of(log).recent_events.last() == (EventView {
            sequence: log.len(),
            kind: log.last().kind,
            detail: log.last().detail,
        }),
{
}

/// The counters of a history continued by another one.
proof fn lemma_tally_continues(log: Seq<LogEntry>, later: Seq<LogEntry>, kind: HealthErrorKind)
    ensures
        tally(log + later, kind) == tally(log, kind) + tally(later, kind),
    decreases later.len(),
{
    if later.len() == 0 {
        assert(log + later =~= log);
    } else {
        lemma_tally_continues(log, later.drop_last(), kind);
        assert((log + later).drop_last() =~= log + later.drop_last());
    }
}

/// Only recording changes what a snapshot shows: as long as nothing is recorded
/// every snapshot is the same, whoever takes it; what is recorded later adds to
/// the counters and takes nothing away, and a recorded error keeps its number,
/// its category and its detail in every later snapshot that still shows it.
pub proof fn law_snapshots_follow_history(log: Seq<LogEntry>, later: Seq<LogEntry>)
    ensures
        later.len() == 0 ==> snapshot_of(log + later) == snapshot_of(log),
        ({
            let (before, after, added) = (
                snapshot_of(log),
                snapshot_of(log + later),
                snapshot_of(later),
            );
            &&& after.dds_errors == before.dds_errors + added.dds_errors
            &&& after.malformed_samples == before.malformed_samples + added.malformed_samples
            &&& after.dispatch_drops == before.dispatch_drops + added.dispatch_drops
            &&& after.callback_panics == before.callback_panics + added.callback_panics
            &&& after.worker_panics == before.worker_panics + added.worker_panics
            &&& after.teardown_errors == before.teardown_errors + added.teardown_errors
            &&& after.delivery_completion_errors == before.delivery_completion_errors
                + added.delivery_completion_errors
            &&& forall|i: int, j: int|
                0 <= i < before.recent_events.len() && 0 <= j < after.recent_events.len()
                    && before.recent_events[i].sequence == after.recent_events[j].sequence
                    ==> #[trigger] before.recent_events[i] == #[trigger] after.recent_events[j]
            &&& later.len() + before.recent_events.len() <= 64 ==> forall|i: int|
                0 <= i < before.recent_events.len() ==> #[trigger] after.recent_events[i]
                    == before.recent_events[i]
        }),
{
    if later.len() == 0 {
        assert(log + later =~= log);
    }
    lemma_tally_continues(log, later, HealthErrorKind::Dds);
    lemma_tally_continues(log, later, HealthErrorKind::MalformedSample);
    lemma_tally_continues(log, later, HealthErrorKind::DispatchBackpressure);
    lemma_tally_continues(log, later, HealthErrorKind::CallbackPanic);
    lemma_tally_continues(log, later, HealthErrorKind::WorkerPanic);
    lemma_tally_continues(log, later, HealthErrorKind::Teardown);
    lemma_tally_continues(log, later, HealthErrorKind::DeliveryCompletion);
}

/// Recording an error raises exactly the counter named after its category, and
/// a health without errors shows nothing but zeros.
pub proof fn law_errors_raise_the_counter_named_after_them(log: Seq<LogEntry>, entry: LogEntry)
    ensures
        ({
            let (before, after) = (snapshot_of(log), snapshot_of(log.push(entry)));
            &&& after.dds_errors - before.dds_errors == if entry.kind is Dds {
                1int
            } else {
                0
            }
            &&& after.malformed_samples - before.malformed_samples == if entry.kind
                is MalformedSample {
                1int
            } else {
                0
            }
            &&& after.dispatch_drops - before.dispatch_drops == if entry.kind
                is DispatchBackpressure {
                1int
            } else {
                0
            }
            &&& after.callback_panics - before.callback_panics == if entry.kind is CallbackPanic {
                1int
            } else {
                0
            }
            &&& after.worker_panics - before.worker_panics == if entry.kind is WorkerPanic {
                1int
            } else {
                0
            }
            &&& after.teardown_errors - before.teardown_errors == if entry.kind is Teardown {
                1int
            } else {
                0
            }
            &&& after.delivery_completion_errors - before.delivery_completion_errors
                == if entry.kind is DeliveryCompletion {
                1int
            } else {
                0
            }
        }),
        log.len() == 0 ==> snapshot_of(log).dds_errors == 0 && snapshot_of(log).malformed_samples
            == 0 && snapshot_of(log).dispatch_drops == 0 && snapshot_of(log).callback_panics == 0
            && snapshot_of(log).worker_panics == 0 && snapshot_of(log).teardown_errors == 0
            && snapshot_of(log).delivery_completion_errors == 0 && snapshot_of(
            log,
        ).recent_events.len() == 0,
{
    assert(log.push(entry).drop_last() =~= log);
}

/// The errors of a snapshot are the last ones recorded, oldest first, each with
/// its place in the history, its category and its detail.
pub proof fn law_recent_events_are_those_recorded(log: Seq<LogEntry>, at: int)
    requires
        0 <= at < snapshot_of(log).recent_events.len(),
    ensures
        ({
            let events = snapshot_of(log).recent_events;
            let place = log.len() - events.len() + at;
            &&& 0 <= place < log.len()
            &&& events[at].sequence == place + 1
            &&& events[at].kind == log[place].kind
            &&& events[at].detail == log[place].detail
        }),
{
}

/// The view of a snapshot shows every counter and every error, and the view of
/// an error every field.
pub proof fn law_snapshots_are_seen_whole(snapshot: HealthSnapshot, at: int)
    ensures
        snapshot@.dds_errors == snapshot.dds_errors,
        snapshot@.malformed_samples == snapshot.malformed_samples,
        snapshot@.dispatch_drops == snapshot.dispatch_drops,
        snapshot@.callback_panics == snapshot.callback_panics,
        snapshot@.worker_panics == snapshot.worker_panics,
        snapshot@.teardown_errors == snapshot.teardown_errors,
        snapshot@.delivery_completion_errors == snapshot.delivery_completion_errors,
        snapshot@.recent_events.len() == snapshot.recent_events@.len(),
        0 <= at < snapshot.recent_events@.len() ==> snapshot@.recent_events[at].sequence
            == snapshot.recent_events@[at].sequence && snapshot@.recent_events[at].kind
            == snapshot.recent_events@[at].kind && snapshot@.recent_events[at].detail
            == snapshot.recent_events@[at].detail@,
{
}

/// Errors can be recorded as long as there are numbers for them.
pub proof fn law_health_has_room_for_every_number(health: &DdsHealth)
    ensures
        health.has_room() <==> health.log().len() < 0xFFFF_FFFF_FFFF_FFFF,
{
}

} // verus!
