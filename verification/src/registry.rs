//! Listener registrations and the callbacks that run for them.
//!
//! A registration gets a token when it is made. Callbacks are started and
//! finished by token, so that a callback which was selected before its listener
//! was unregistered finds the token retired and does not start.

use std::collections::HashMap;

use vstd::prelude::*;

use crate::status::{fail, Status, StatusCode, StatusView};
use crate::uri::{
    copy_maybe, maybe_ref_view, maybe_view, same_maybe, selects_uri, sink_matches, uri_matches, Uri,
    UriView,
};

verus! {

broadcast use vstd::std_specs::hash::group_hash_axioms;

/// One registration: a pair of filters and the listener behind it.
struct Registration {
    token: u64,
    source: Uri,
    sink: Option<Uri>,
    listener: u64,
}

/// A registration as contracts see it.
#[verifier::ext_equal]
pub struct EntryView {
    /// Token under which callbacks run.
    pub token: u64,
    /// Source filter.
    pub source: UriView,
    /// Sink filter, if any.
    pub sink: Option<UriView>,
    /// Identity of the listener.
    pub listener: u64,
}

impl View for Registration {
    type V = EntryView;

    closed spec fn view(&self) -> EntryView {
        EntryView {
            token: self.token,
            source: self.source@,
            sink: maybe_view(self.sink),
            listener: self.listener,
        }
    }
}

/// Registrations and running callbacks as contracts see them.
#[verifier::ext_equal]
pub struct RegistryView {
    /// Registrations in the order in which they were made.
    pub active: Seq<EntryView>,
    /// Number of running callbacks for each token that has any.
    pub running: Map<u64, usize>,
    /// Token of the next registration.
    pub next_token: u64,
}

/// One thing that happens to a registry.
pub enum RegistryStep {
    /// A listener is registered.
    Register {
        /// Source filter.
        source: UriView,
        /// Sink filter, if any.
        sink: Option<UriView>,
        /// Identity of the listener.
        listener: u64,
    },
    /// A listener is unregistered.
    Unregister {
        /// Source filter.
        source: UriView,
        /// Sink filter, if any.
        sink: Option<UriView>,
        /// Identity of the listener.
        listener: u64,
    },
    /// A callback is to start under a token.
    Begin(u64),
    /// A callback under a token ends.
    Finish(u64),
    /// Every listener is unregistered.
    DeactivateAll,
}

/// Whether a registration has the given filters and listener.
pub open spec fn same_key(
    entry: EntryView,
    source: UriView,
    sink: Option<UriView>,
    listener: u64,
) -> bool {
    entry.source == source && entry.sink == sink && entry.listener == listener
}

/// Position of the first registration with the given filters and listener.
pub open spec fn find(
    active: Seq<EntryView>,
    source: UriView,
    sink: Option<UriView>,
    listener: u64,
) -> Option<int>
    decreases active.len(),
{
    if active.len() == 0 {
        None
    } else {
        match find(active.drop_last(), source, sink, listener) {
            Some(at) => Some(at),
            None => if same_key(active.last(), source, sink, listener) {
                Some(active.len() - 1)
            } else {
                None
            },
        }
    }
}

/// Position of the registration with the given token.
pub open spec fn find_token(active: Seq<EntryView>, token: u64) -> Option<int>
    decreases active.len(),
{
    if active.len() == 0 {
        None
    } else {
        match find_token(active.drop_last(), token) {
            Some(at) => Some(at),
            None => if active.last().token == token {
                Some(active.len() - 1)
            } else {
                None
            },
        }
    }
}

/// Whether a registration selects a message with the given addresses.
pub open spec fn selects(entry: EntryView, source: UriView, sink: Option<UriView>) -> bool {
    uri_matches(entry.source, source) && sink_matches(entry.sink, sink)
}

/// Tokens of the registrations that select a message, in registration order.
pub open spec fn selected_tokens(
    active: Seq<EntryView>,
    source: UriView,
    sink: Option<UriView>,
) -> Seq<u64>
    decreases active.len(),
{
    if active.len() == 0 {
        Seq::empty()
    } else {
        let earlier = selected_tokens(active.drop_last(), source, sink);
        if selects(active.last(), source, sink) {
            earlier.push(active.last().token)
        } else {
            earlier
        }
    }
}

/// The tokens of all registrations, in registration order.
pub open spec fn all_tokens(active: Seq<EntryView>) -> Seq<u64> {
    active.map_values(|entry: EntryView| entry.token)
}

impl RegistryView {
    /// No registration occurs twice, and tokens grow from one registration to
    /// the next.
    pub open spec fn wf(self) -> bool {
        &&& forall|i: int|
            0 <= i < self.active.len() ==> (#[trigger] self.active[i]).token < self.next_token
        &&& forall|i: int, j: int|
            0 <= i < j < self.active.len() ==> (#[trigger] self.active[i]).token < (
            #[trigger] self.active[j]).token
        &&& forall|i: int, j: int|
            0 <= i < j < self.active.len() ==> !same_key(
                #[trigger] self.active[i],
                (#[trigger] self.active[j]).source,
                self.active[j].sink,
                self.active[j].listener,
            )
        &&& forall|token: u64| #[trigger]
            self.running.dom().contains(token) ==> token < self.next_token && self.running[token]
                > 0
    }

    /// Whether callbacks may start under a token.
    pub open spec fn is_active(self, token: u64) -> bool {
        find_token(self.active, token) is Some
    }

    /// Number of callbacks that run under a token.
    pub open spec fn in_flight(self, token: u64) -> nat {
        if self.running.dom().contains(token) {
            self.running[token] as nat
        } else {
            0
        }
    }

    /// State after a new registration.
    pub open spec fn registered(
        self,
        source: UriView,
        sink: Option<UriView>,
        listener: u64,
    ) -> RegistryView {
        RegistryView {
            active: self.active.push(EntryView { token: self.next_token, source, sink, listener }),
            running: self.running,
            next_token: (self.next_token + 1) as u64,
        }
    }

    /// State after the registration at the given position was removed.
    pub open spec fn unregistered(self, at: int) -> RegistryView {
        RegistryView {
            active: self.active.remove(at),
            running: self.running,
            next_token: self.next_token,
        }
    }

    /// State after a callback started under a token.
    pub open spec fn begun(self, token: u64) -> RegistryView {
        RegistryView {
            active: self.active,
            running: self.running.insert(token, (self.in_flight(token) + 1) as usize),
            next_token: self.next_token,
        }
    }

    /// State after a callback finished under a token.
    pub open spec fn finished(self, token: u64) -> RegistryView {
        RegistryView {
            active: self.active,
            running: if self.in_flight(token) <= 1 {
                self.running.remove(token)
            } else {
                self.running.insert(token, (self.in_flight(token) - 1) as usize)
            },
            next_token: self.next_token,
        }
    }

    /// State after every registration was removed.
    pub open spec fn cleared(self) -> RegistryView {
        RegistryView {
            active: Seq::empty(),
            running: self.running,
            next_token: self.next_token,
        }
    }

    /// Whether a callback starts when it is to start under a token.
    pub open spec fn starts(self, token: u64) -> bool {
        self.is_active(token) && self.in_flight(token) < usize::MAX
    }

    /// State after one thing happened. What is refused changes nothing.
    pub open spec fn stepped(self, step: RegistryStep) -> RegistryView {
        match step {
            RegistryStep::Register { source, sink, listener } => if find(
                self.active,
                source,
                sink,
                listener,
            ) is None && self.next_token < u64::MAX {
                self.registered(source, sink, listener)
            } else {
                self
            },
            RegistryStep::Unregister { source, sink, listener } => match find(
                self.active,
                source,
                sink,
                listener,
            ) {
                Some(at) => self.unregistered(at),
                None => self,
            },
            RegistryStep::Begin(token) => if self.starts(token) {
                self.begun(token)
            } else {
                self
            },
            RegistryStep::Finish(token) => if self.in_flight(token) > 0 {
                self.finished(token)
            } else {
                self
            },
            RegistryStep::DeactivateAll => self.cleared(),
        }
    }

    /// State after a whole history.
    pub open spec fn replayed(self, steps: Seq<RegistryStep>) -> RegistryView
        decreases steps.len(),
    {
        if steps.len() == 0 {
            self
        } else {
            self.replayed(steps.drop_last()).stepped(steps.last())
        }
    }

    /// How many callbacks started under a token in the course of a history.
    pub open spec fn started(self, steps: Seq<RegistryStep>, token: u64) -> nat
        decreases steps.len(),
    {
        if steps.len() == 0 {
            0
        } else {
            self.started(steps.drop_last(), token) + (if steps.last() == RegistryStep::Begin(token)
                && self.replayed(steps.drop_last()).starts(token) {
                1nat
            } else {
                0nat
            })
        }
    }

    /// How many callbacks ended under a token in the course of a history.
    pub open spec fn ended(self, steps: Seq<RegistryStep>, token: u64) -> nat
        decreases steps.len(),
    {
        if steps.len() == 0 {
            0
        } else {
            self.ended(steps.drop_last(), token) + (if steps.last() == RegistryStep::Finish(token)
                && self.replayed(steps.drop_last()).in_flight(token) > 0 {
                1nat
            } else {
                0nat
            })
        }
    }
}

/// The refusal of a second registration with the same filters and listener.
pub open spec fn already_registered() -> StatusView {
    StatusView { code: StatusCode::AlreadyExists, message: "listener is already registered"@ }
}

/// The refusal to remove a registration that does not exist.
pub open spec fn not_registered() -> StatusView {
    StatusView { code: StatusCode::NotFound, message: "listener is not registered"@ }
}

/// Listener registrations of one transport.
pub struct Registry {
    entries: Vec<Registration>,
    running: HashMap<u64, usize>,
    next_token: u64,
}

/// A list of registrations as contracts see it.
closed spec fn entry_views(entries: Seq<Registration>) -> Seq<EntryView> {
    entries.map_values(|entry: Registration| entry@)
}

impl View for Registry {
    type V = RegistryView;

    closed spec fn view(&self) -> RegistryView {
        RegistryView {
            active: entry_views(self.entries@),
            running: self.running@,
            next_token: self.next_token,
        }
    }
}

impl Default for Registry {
    fn default() -> (registry: Registry)
        ensures
            registry@ == (RegistryView {
                active: Seq::empty(),
                running: Map::empty(),
                next_token: 0,
            }),
            registry@.wf(),
    {
        let registry = Registry { entries: Vec::new(), running: HashMap::new(), next_token: 0 };
        assert(registry@.active =~= Seq::empty());
        registry
    }
}

impl Registry {
    /// Position of the first registration with the given filters and listener.
    fn position(&self, source: &Uri, sink: Option<&Uri>, listener: u64) -> (at: Option<usize>)
        ensures
            match at {
                Some(at) => at < self@.active.len() && find(
                    self@.active,
                    source@,
                    maybe_ref_view(sink),
                    listener,
                ) == Some(at as int),
                None => find(self@.active, source@, maybe_ref_view(sink), listener) is None,
            },
    {
        let mut at: usize = 0;
        while at < self.entries.len()
            invariant
                at <= self.entries.len(),
                find(self@.active.take(at as int), source@, maybe_ref_view(sink), listener) is None,
            decreases self.entries.len() - at,
        {
            let entry = &self.entries[at];
            proof {
                assert(self@.active.take(at + 1).drop_last() =~= self@.active.take(at as int));
                assert(self@.active.take(at + 1).last() == entry@);
            }
            if entry.source.same(source) && same_maybe(&entry.sink, sink) && entry.listener
                == listener {
                proof {
                    lemma_find_prefix(
                        self@.active,
                        at + 1,
                        source@,
                        maybe_ref_view(sink),
                        listener,
                    );
                }
                return Some(at);
            }
            at = at + 1;
        }
        assert(self@.active.take(at as int) =~= self@.active);
        None
    }

    /// Position of the registration with the given token.
    fn token_position(&self, token: u64) -> (at: Option<usize>)
        ensures
            match at {
                Some(at) => at < self@.active.len() && find_token(self@.active, token) == Some(
                    at as int,
                ),
                None => find_token(self@.active, token) is None,
            },
    {
        let mut at: usize = 0;
        while at < self.entries.len()
            invariant
                at <= self.entries.len(),
                find_token(self@.active.take(at as int), token) is None,
            decreases self.entries.len() - at,
        {
            proof {
                assert(self@.active.take(at + 1).drop_last() =~= self@.active.take(at as int));
                assert(self@.active.take(at + 1).last() == self.entries@[at as int]@);
            }
            if self.entries[at].token == token {
                proof {
                    lemma_find_token_prefix(self@.active, at + 1, token);
                }
                return Some(at);
            }
            at = at + 1;
        }
        assert(self@.active.take(at as int) =~= self@.active);
        None
    }

    /// Whether there is a token for another registration.
    pub fn can_register(&self) -> (room: bool)
        ensures
            room == (self@.next_token < u64::MAX),
    {
        self.next_token < u64::MAX
    }

    /// Whether another callback under a token can be counted.
    pub fn can_begin(&self, token: u64) -> (room: bool)
        ensures
            room == (self@.in_flight(token) < usize::MAX),
    {
        match self.running.get(&token) {
            Some(count) => *count < usize::MAX,
            None => true,
        }
    }

    /// Adds a registration, unless the same filters and listener are
    /// registered already.
    pub fn register(&mut self, source: &Uri, sink: Option<&Uri>, listener: u64) -> (outcome: Result<
        (),
        Status,
    >)
        requires
            old(self)@.wf(),
            old(self)@.next_token < u64::MAX,
        ensures
            final(self)@.wf(),
            final(self)@ == old(self)@.stepped(
                RegistryStep::Register { source: source@, sink: maybe_ref_view(sink), listener },
            ),
            match outcome {
                Ok(_) => {
                    &&& find(old(self)@.active, source@, maybe_ref_view(sink), listener) is None
                    &&& final(self)@ == old(self)@.registered(
                        source@,
                        maybe_ref_view(sink),
                        listener,
                    )
                },
                Err(status) => {
                    &&& find(old(self)@.active, source@, maybe_ref_view(sink), listener) is Some
                    &&& status@ == already_registered()
                    &&& final(self)@ == old(self)@
                },
            },
    {
        if self.position(source, sink, listener).is_some() {
            return Err(
                fail(StatusCode::AlreadyExists, "listener is already registered".to_owned()),
            );
        }
        let entry = Registration {
            token: self.next_token,
            source: source.clone(),
            sink: copy_maybe(sink),
            listener,
        };
        let ghost before = self@;
        self.entries.push(entry);
        self.next_token = self.next_token + 1;
        proof {
            assert(self@.active =~= before.active.push(entry@));
            lemma_registered_wf(before, source@, maybe_ref_view(sink), listener);
        }
        Ok(())
    }

    /// Removes a registration and answers its token, under which callbacks may
    /// still be running. None starts under it any more.
    pub fn unregister(
        &mut self,
        source: &Uri,
        sink: Option<&Uri>,
        listener: u64,
    ) -> (outcome: Result<u64, Status>)
        requires
            old(self)@.wf(),
        ensures
            final(self)@.wf(),
            final(self)@ == old(self)@.stepped(
                RegistryStep::Unregister { source: source@, sink: maybe_ref_view(sink), listener },
            ),
            match outcome {
                Ok(token) => {
                    let found = find(old(self)@.active, source@, maybe_ref_view(sink), listener);
                    &&& found is Some
                    &&& 0 <= found->Some_0 < old(self)@.active.len()
                    &&& token == old(self)@.active[found->Some_0].token
                    &&& final(self)@ == old(self)@.unregistered(found->Some_0)
                    &&& !final(self)@.is_active(token)
                },
                Err(status) => {
                    &&& find(old(self)@.active, source@, maybe_ref_view(sink), listener) is None
                    &&& status@ == not_registered()
                    &&& final(self)@ == old(self)@
                },
            },
    {
        match self.position(source, sink, listener) {
            None => Err(fail(StatusCode::NotFound, "listener is not registered".to_owned())),
            Some(at) => {
                let ghost before = self@;
                let entry = self.entries.remove(at);
                proof {
                    assert(self@.active =~= before.active.remove(at as int));
                    lemma_unregistered_wf(before, at as int);
                }
                Ok(entry.token)
            },
        }
    }

    /// Tokens of the registrations that select a message, in registration order.
    pub fn matching(&self, source: &Uri, sink: Option<&Uri>) -> (tokens: Vec<u64>)
        ensures
            tokens@ == selected_tokens(self@.active, source@, maybe_ref_view(sink)),
    {
        let mut tokens: Vec<u64> = Vec::new();
        let mut at: usize = 0;
        while at < self.entries.len()
            invariant
                at <= self.entries.len(),
                tokens@ == selected_tokens(
                    self@.active.take(at as int),
                    source@,
                    maybe_ref_view(sink),
                ),
            decreases self.entries.len() - at,
        {
            let entry = &self.entries[at];
            proof {
                assert(self@.active.take(at + 1).drop_last() =~= self@.active.take(at as int));
                assert(self@.active.take(at + 1).last() == entry@);
            }
            if selects_uri(&entry.source, source) {
                let sink_selected = match (&entry.sink, sink) {
                    (None, None) => true,
                    (Some(filter), Some(value)) => selects_uri(filter, value),
                    _ => false,
                };
                if sink_selected {
                    tokens.push(entry.token);
                }
            }
            at = at + 1;
        }
        assert(self@.active.take(at as int) =~= self@.active);
        tokens
    }

    /// Starts a callback under a token and answers its listener, or nothing
    /// when the registration is gone.
    pub fn begin(&mut self, token: u64) -> (started: Option<u64>)
        requires
            old(self)@.wf(),
            old(self)@.in_flight(token) < usize::MAX,
        ensures
            final(self)@.wf(),
            final(self)@ == old(self)@.stepped(RegistryStep::Begin(token)),
            match started {
                Some(listener) => {
                    let found = find_token(old(self)@.active, token);
                    &&& found is Some
                    &&& 0 <= found->Some_0 < old(self)@.active.len()
                    &&& listener == old(self)@.active[found->Some_0].listener
                    &&& final(self)@ == old(self)@.begun(token)
                },
                None => {
                    &&& !old(self)@.is_active(token)
                    &&& final(self)@ == old(self)@
                },
            },
    {
        match self.token_position(token) {
            None => None,
            Some(at) => {
                let ghost before = self@;
                let listener: u64 = self.entries[at].listener;
                proof {
                    lemma_find_token(before.active, token);
                    assert(self.entries@[at as int]@ == before.active[at as int]);
                }
                let count: usize = match self.running.get(&token) {
                    Some(count) => *count,
                    None => 0,
                };
                self.running.insert(token, count + 1);
                assert(self@ =~= before.begun(token));
                Some(listener)
            },
        }
    }

    /// Ends a callback that was started under a token and answers whether it
    /// was the last one running under it.
    pub fn finish(&mut self, token: u64) -> (idle: bool)
        requires
            old(self)@.wf(),
            old(self)@.in_flight(token) > 0,
        ensures
            final(self)@.wf(),
            final(self)@ == old(self)@.finished(token),
            final(self)@ == old(self)@.stepped(RegistryStep::Finish(token)),
            idle == (final(self)@.in_flight(token) == 0),
    {
        let ghost before = self@;
        let count: usize = match self.running.get(&token) {
            Some(count) => *count,
            None => 0,
        };
        if count <= 1 {
            self.running.remove(&token);
            assert(self@ =~= before.finished(token));
            true
        } else {
            self.running.insert(token, count - 1);
            assert(self@ =~= before.finished(token));
            false
        }
    }

    /// Whether no callback runs under a token.
    pub fn is_idle(&self, token: u64) -> (idle: bool)
        requires
            self@.wf(),
        ensures
            idle == (self@.in_flight(token) == 0),
    {
        !self.running.contains_key(&token)
    }

    /// Removes every registration and answers their tokens, under which
    /// callbacks may still be running.
    pub fn deactivate_all(&mut self) -> (tokens: Vec<u64>)
        requires
            old(self)@.wf(),
        ensures
            final(self)@.wf(),
            final(self)@ == old(self)@.cleared(),
            final(self)@ == old(self)@.stepped(RegistryStep::DeactivateAll),
            tokens@ == all_tokens(old(self)@.active),
    {
        let ghost before = self@;
        let mut tokens: Vec<u64> = Vec::new();
        let mut at: usize = 0;
        while at < self.entries.len()
            invariant
                self@ == before,
                at <= self.entries.len(),
                tokens@ == all_tokens(before.active).take(at as int),
            decreases self.entries.len() - at,
        {
            assert(self.entries@[at as int]@ == before.active[at as int]);
            tokens.push(self.entries[at].token);
            assert(tokens@ =~= all_tokens(before.active).take(at + 1));
            at = at + 1;
        }
        assert(tokens@ =~= all_tokens(before.active));
        self.entries.clear();
        assert(self@ =~= before.cleared());
        tokens
    }
}

/// A match in a prefix is the match in the whole.
proof fn lemma_find_prefix(
    active: Seq<EntryView>,
    len: int,
    source: UriView,
    sink: Option<UriView>,
    listener: u64,
)
    requires
        0 <= len <= active.len(),
        find(active.take(len), source, sink, listener) is Some,
    ensures
        find(active, source, sink, listener) == find(active.take(len), source, sink, listener),
    decreases active.len(),
{
    if len < active.len() {
        assert(active.drop_last().take(len) =~= active.take(len));
        lemma_find_prefix(active.drop_last(), len, source, sink, listener);
    } else {
        assert(active.take(len) =~= active);
    }
}

/// A token found in a prefix is at the same place in the whole.
proof fn lemma_find_token_prefix(active: Seq<EntryView>, len: int, token: u64)
    requires
        0 <= len <= active.len(),
        find_token(active.take(len), token) is Some,
    ensures
        find_token(active, token) == find_token(active.take(len), token),
    decreases active.len(),
{
    if len < active.len() {
        assert(active.drop_last().take(len) =~= active.take(len));
        lemma_find_token_prefix(active.drop_last(), len, token);
    } else {
        assert(active.take(len) =~= active);
    }
}

/// What a search by filters and listener tells.
pub proof fn lemma_find(
    active: Seq<EntryView>,
    source: UriView,
    sink: Option<UriView>,
    listener: u64,
)
    ensures
        match find(active, source, sink, listener) {
            Some(at) => 0 <= at < active.len() && same_key(active[at], source, sink, listener),
            None => forall|i: int|
                0 <= i < active.len() ==> !same_key(#[trigger] active[i], source, sink, listener),
        },
    decreases active.len(),
{
    if active.len() > 0 {
        let shorter = active.drop_last();
        lemma_find(shorter, source, sink, listener);
        if find(active, source, sink, listener) is None {
            assert forall|i: int| 0 <= i < active.len() implies !same_key(
                #[trigger] active[i],
                source,
                sink,
                listener,
            ) by {
                if i < shorter.len() {
                    assert(active[i] == shorter[i]);
                }
            }
        }
    }
}

/// What a search by token tells.
pub proof fn lemma_find_token(active: Seq<EntryView>, token: u64)
    ensures
        match find_token(active, token) {
            Some(at) => 0 <= at < active.len() && active[at].token == token,
            None => forall|i: int| 0 <= i < active.len() ==> (#[trigger] active[i]).token != token,
        },
    decreases active.len(),
{
    if active.len() > 0 {
        let shorter = active.drop_last();
        lemma_find_token(shorter, token);
        if find_token(active, token) is None {
            assert forall|i: int| 0 <= i < active.len() implies (#[trigger] active[i]).token
                != token by {
                if i < shorter.len() {
                    assert(active[i] == shorter[i]);
                }
            }
        }
    }
}

/// A new registration keeps the registry well formed.
proof fn lemma_registered_wf(
    view: RegistryView,
    source: UriView,
    sink: Option<UriView>,
    listener: u64,
)
    requires
        view.wf(),
        view.next_token < u64::MAX,
        find(view.active, source, sink, listener) is None,
    ensures
        view.registered(source, sink, listener).wf(),
{
    lemma_find(view.active, source, sink, listener);
}

/// Removing a registration keeps the registry well formed and retires its token.
proof fn lemma_unregistered_wf(view: RegistryView, at: int)
    requires
        view.wf(),
        0 <= at < view.active.len(),
    ensures
        view.unregistered(at).wf(),
        !view.unregistered(at).is_active(view.active[at].token),
{
    let after = view.unregistered(at);
    assert forall|i: int| 0 <= i < after.active.len() implies #[trigger] after.active[i]
        == view.active[if i < at {
        i
    } else {
        i + 1
    }] by {}
    lemma_find_token(after.active, view.active[at].token);
}

/// A registration that was just made is found, at the end of the list, so a
/// second one with the same filters and listener is refused.
pub proof fn law_registered_is_found(
    view: RegistryView,
    source: UriView,
    sink: Option<UriView>,
    listener: u64,
)
    requires
        find(view.active, source, sink, listener) is None,
    ensures
        find(view.registered(source, sink, listener).active, source, sink, listener) == Some(
            view.active.len() as int,
        ),
{
    let after = view.registered(source, sink, listener);
    assert(after.active.drop_last() =~= view.active);
}

/// Unregistering undoes registering: the same registrations remain, in the
/// same order, with the same callbacks running.
pub proof fn law_unregister_undoes_register(
    view: RegistryView,
    source: UriView,
    sink: Option<UriView>,
    listener: u64,
)
    requires
        find(view.active, source, sink, listener) is None,
    ensures
        ({
            let after = view.registered(source, sink, listener);
            let removed = after.unregistered(find(after.active, source, sink, listener)->Some_0);
            removed.active == view.active && removed.running == view.running
        }),
{
    law_registered_is_found(view, source, sink, listener);
    let after = view.registered(source, sink, listener);
    assert(after.active.remove(view.active.len() as int) =~= view.active);
}

/// A registration that was removed is gone: it can be made again, and it
/// selects no message any more.
pub proof fn law_unregistered_is_gone(
    view: RegistryView,
    source: UriView,
    sink: Option<UriView>,
    listener: u64,
)
    requires
        view.wf(),
        find(view.active, source, sink, listener) is Some,
    ensures
        ({
            let at = find(view.active, source, sink, listener)->Some_0;
            let after = view.unregistered(at);
            &&& after.wf()
            &&& find(after.active, source, sink, listener) is None
            &&& forall|message_source: UriView, message_sink: Option<UriView>|
                !(#[trigger] selected_tokens(
                    after.active,
                    message_source,
                    message_sink,
                )).contains(view.active[at].token)
        }),
{
    lemma_find(view.active, source, sink, listener);
    let at = find(view.active, source, sink, listener)->Some_0;
    let after = view.unregistered(at);
    lemma_unregistered_wf(view, at);
    assert forall|i: int| 0 <= i < after.active.len() implies #[trigger] after.active[i]
        == view.active[if i < at {
        i
    } else {
        i + 1
    }] by {}
    lemma_find(after.active, source, sink, listener);
    lemma_find_token(after.active, view.active[at].token);
    assert forall|message_source: UriView, message_sink: Option<UriView>|
        !(#[trigger] selected_tokens(after.active, message_source, message_sink)).contains(
            view.active[at].token,
        ) by {
        law_matching_is_exact(after, message_source, message_sink, view.active[at].token);
    }
}

/// A message reaches exactly the registrations that select it: a token is
/// among the selected ones if and only if it belongs to such a registration.
pub proof fn law_matching_is_exact(
    view: RegistryView,
    source: UriView,
    sink: Option<UriView>,
    token: u64,
)
    ensures
        selected_tokens(view.active, source, sink).contains(token) <==> exists|i: int|
            0 <= i < view.active.len() && (#[trigger] view.active[i]).token == token && selects(
                view.active[i],
                source,
                sink,
            ),
    decreases view.active.len(),
{
    let tokens = selected_tokens(view.active, source, sink);
    if view.active.len() > 0 {
        let shorter = RegistryView { active: view.active.drop_last(), ..view };
        law_matching_is_exact(shorter, source, sink, token);
        let earlier = selected_tokens(shorter.active, source, sink);
        let last = view.active.last();
        if selects(last, source, sink) {
            assert(tokens == earlier.push(last.token));
            if last.token == token {
                assert(tokens[earlier.len() as int] == token);
                assert(view.active[view.active.len() - 1].token == token);
            }
            if earlier.contains(token) {
                let k = choose|k: int| 0 <= k < earlier.len() && earlier[k] == token;
                assert(tokens[k] == token);
            }
            if tokens.contains(token) && last.token != token {
                let k = choose|k: int| 0 <= k < tokens.len() && tokens[k] == token;
                assert(earlier[k] == token);
            }
        }
        if earlier.contains(token) {
            let i = choose|i: int|
                0 <= i < shorter.active.len() && (#[trigger] shorter.active[i]).token == token
                    && selects(shorter.active[i], source, sink);
            assert(view.active[i] == shorter.active[i]);
        }
        if exists|i: int|
            0 <= i < view.active.len() && (#[trigger] view.active[i]).token == token && selects(
                view.active[i],
                source,
                sink,
            ) {
            let i = choose|i: int|
                0 <= i < view.active.len() && (#[trigger] view.active[i]).token == token && selects(
                    view.active[i],
                    source,
                    sink,
                );
            if i < shorter.active.len() {
                assert(view.active[i] == shorter.active[i]);
                assert(earlier.contains(token));
            }
        }
    }
}

/// Listeners are called in registration order, each registration at most once
/// per message: tokens grow from one registration to the next, and so do the
/// selected ones.
pub proof fn law_selection_keeps_registration_order(
    view: RegistryView,
    source: UriView,
    sink: Option<UriView>,
)
    requires
        view.wf(),
    ensures
        forall|i: int, j: int|
            0 <= i < j < selected_tokens(view.active, source, sink).len()
                ==> #[trigger] selected_tokens(view.active, source, sink)[i]
                < #[trigger] selected_tokens(view.active, source, sink)[j],
    decreases view.active.len(),
{
    if view.active.len() > 0 {
        let shorter = RegistryView { active: view.active.drop_last(), ..view };
        assert(shorter.wf()) by {
            assert forall|i: int| 0 <= i < shorter.active.len() implies #[trigger] shorter.active[i]
                == view.active[i] by {}
        }
        law_selection_keeps_registration_order(shorter, source, sink);
        let earlier = selected_tokens(shorter.active, source, sink);
        assert forall|k: int| 0 <= k < earlier.len() implies #[trigger] earlier[k]
            < view.active.last().token by {
            law_matching_is_exact(shorter, source, sink, earlier[k]);
            let i = choose|i: int|
                0 <= i < shorter.active.len() && (#[trigger] shorter.active[i]).token == earlier[k]
                    && selects(shorter.active[i], source, sink);
            assert(view.active[i] == shorter.active[i]);
        }
    }
}

/// Without a sink filter a registration selects only messages without a sink,
/// and with one only messages that have a sink.
pub proof fn law_absent_sink_filter_selects_sinkless_messages(
    entry: EntryView,
    source: UriView,
    sink: Option<UriView>,
)
    requires
        selects(entry, source, sink),
    ensures
        entry.sink is None <==> sink is None,
{
}

/// A retired token stays retired: whatever happens next, no callback can start
/// under it.
pub proof fn law_retired_tokens_stay_retired(
    view: RegistryView,
    token: u64,
    source: UriView,
    sink: Option<UriView>,
    listener: u64,
    at: int,
    other: u64,
)
    requires
        view.wf(),
        token < view.next_token,
        !view.is_active(token),
    ensures
        view.next_token < u64::MAX ==> !view.registered(source, sink, listener).is_active(token),
        0 <= at < view.active.len() ==> !view.unregistered(at).is_active(token),
        !view.begun(other).is_active(token),
        !view.finished(other).is_active(token),
        !view.cleared().is_active(token),
{
    lemma_find_token(view.active, token);
    lemma_find_token(view.registered(source, sink, listener).active, token);
    let removed = view.unregistered(at);
    lemma_find_token(removed.active, token);
    if 0 <= at < view.active.len() && removed.is_active(token) {
        let i = find_token(removed.active, token)->Some_0;
        assert(removed.active[i] == view.active[if i < at {
            i
        } else {
            i + 1
        }]);
    }
}

/// A callback that starts and finishes leaves the registry as it was, and
/// removing registrations ends no callback: an unregistered token is idle
/// only once every callback that started under it has finished.
pub proof fn law_callbacks_are_counted(view: RegistryView, token: u64, other: u64, at: int)
    requires
        view.wf(),
        view.in_flight(token) < usize::MAX,
        other != token,
    ensures
        view.begun(token).in_flight(token) == view.in_flight(token) + 1,
        view.begun(token).in_flight(other) == view.in_flight(other),
        view.begun(token).finished(token) == view,
        view.unregistered(at).in_flight(token) == view.in_flight(token),
        view.cleared().in_flight(token) == view.in_flight(token),
        view.in_flight(token) > 0 ==> view.finished(token).in_flight(token) == view.in_flight(token)
            - 1,
        view.finished(token).in_flight(other) == view.in_flight(other),
{
    assert(view.begun(token).finished(token).running =~= view.running);
}

/// Whatever happens to a registry, it stays well formed, and no token is given
/// out a second time.
pub proof fn law_history_keeps_order(view: RegistryView, steps: Seq<RegistryStep>)
    requires
        view.wf(),
    ensures
        view.replayed(steps).wf(),
        view.replayed(steps).next_token >= view.next_token,
    decreases steps.len(),
{
    if steps.len() > 0 {
        law_history_keeps_order(view, steps.drop_last());
        let before = view.replayed(steps.drop_last());
        match steps.last() {
            RegistryStep::Register { source, sink, listener } => {
                if find(before.active, source, sink, listener) is None && before.next_token
                    < u64::MAX {
                    lemma_registered_wf(before, source, sink, listener);
                }
            },
            RegistryStep::Unregister { source, sink, listener } => {
                lemma_find(before.active, source, sink, listener);
                if find(before.active, source, sink, listener) is Some {
                    lemma_unregistered_wf(
                        before,
                        find(before.active, source, sink, listener)->Some_0,
                    );
                }
            },
            RegistryStep::Begin(token) => {
                lemma_find_token(before.active, token);
            },
            _ => {},
        }
    }
}

/// Over a whole history every callback is accounted for: those that run under a
/// token are those that ran before and those that started since, less those
/// that ended. So a token is idle exactly when all of them have ended.
pub proof fn law_history_counts_callbacks(
    view: RegistryView,
    steps: Seq<RegistryStep>,
    token: u64,
)
    ensures
        view.replayed(steps).in_flight(token) + view.ended(steps, token) == view.in_flight(token)
            + view.started(steps, token),
        view.replayed(steps).in_flight(token) == 0 <==> view.ended(steps, token)
            == view.in_flight(token) + view.started(steps, token),
    decreases steps.len(),
{
    if steps.len() > 0 {
        law_history_counts_callbacks(view, steps.drop_last(), token);
    }
}

/// A token that is retired stays so over every later history: no callback
/// starts under it any more, no message selects it, those that still run only
/// end, and once it is idle it stays idle. The same filters and listener may be
/// registered again in the meantime; they get another token.
pub proof fn law_retired_tokens_start_nothing(
    view: RegistryView,
    steps: Seq<RegistryStep>,
    token: u64,
)
    requires
        view.wf(),
        token < view.next_token,
        !view.is_active(token),
    ensures
        !view.replayed(steps).is_active(token),
        token < view.replayed(steps).next_token,
        view.started(steps, token) == 0,
        view.replayed(steps).in_flight(token) + view.ended(steps, token) == view.in_flight(token),
        view.in_flight(token) == 0 ==> view.replayed(steps).in_flight(token) == 0,
        forall|source: UriView, sink: Option<UriView>|
            !(#[trigger] selected_tokens(view.replayed(steps).active, source, sink)).contains(
                token,
            ),
    decreases steps.len(),
{
    law_history_keeps_order(view, steps);
    if steps.len() > 0 {
        law_retired_tokens_start_nothing(view, steps.drop_last(), token);
        law_history_keeps_order(view, steps.drop_last());
        let before = view.replayed(steps.drop_last());
        match steps.last() {
            RegistryStep::Register { source, sink, listener } => {
                law_retired_tokens_stay_retired(before, token, source, sink, listener, 0, 0);
            },
            RegistryStep::Unregister { source, sink, listener } => {
                lemma_find(before.active, source, sink, listener);
                if find(before.active, source, sink, listener) is Some {
                    law_retired_tokens_stay_retired(
                        before,
                        token,
                        source,
                        sink,
                        listener,
                        find(before.active, source, sink, listener)->Some_0,
                        0,
                    );
                }
            },
            _ => {},
        }
    }
    law_history_counts_callbacks(view, steps, token);
    let after = view.replayed(steps);
    lemma_find_token(after.active, token);
    assert forall|source: UriView, sink: Option<UriView>|
        !(#[trigger] selected_tokens(after.active, source, sink)).contains(token) by {
        law_matching_is_exact(after, source, sink, token);
    }
}

/// Unregistering ends a listener for good: from then on, over every later
/// history, no callback starts under its token, even one that was selected
/// before; those that ran at that time only end, and once they have ended none
/// ever runs under it again. Every other registration stays active.
pub proof fn law_unregistered_listeners_stay_silent(
    view: RegistryView,
    source: UriView,
    sink: Option<UriView>,
    listener: u64,
    steps: Seq<RegistryStep>,
)
    requires
        view.wf(),
        find(view.active, source, sink, listener) is Some,
    ensures
        ({
            let at = find(view.active, source, sink, listener)->Some_0;
            let token = view.active[at].token;
            let after = view.stepped(RegistryStep::Unregister { source, sink, listener });
            &&& 0 <= at < view.active.len()
            &&& !after.replayed(steps).is_active(token)
            &&& after.started(steps, token) == 0
            &&& after.replayed(steps).in_flight(token) + after.ended(steps, token)
                == view.in_flight(token)
            &&& after.in_flight(token) == 0 ==> after.replayed(steps).in_flight(token) == 0
            &&& forall|i: int|
                0 <= i < view.active.len() && i != at ==> after.is_active(
                    (#[trigger] view.active[i]).token,
                )
        }),
{
    lemma_find(view.active, source, sink, listener);
    let at = find(view.active, source, sink, listener)->Some_0;
    let after = view.unregistered(at);
    lemma_unregistered_wf(view, at);
    law_retired_tokens_start_nothing(after, steps, view.active[at].token);
    assert forall|i: int| 0 <= i < view.active.len() && i != at implies after.is_active(
        (#[trigger] view.active[i]).token,
    ) by {
        let j = if i < at {
            i
        } else {
            i - 1
        };
        assert(after.active[j] == view.active[i]);
        lemma_find_token(after.active, view.active[i].token);
    }
}

/// Removing every registration ends all listeners for good: nothing is selected
/// or found any more, a second removal changes nothing, and over every later
/// history no callback starts under a token given out before; those that ran at
/// that time only end, and once they have ended none ever runs again.
pub proof fn law_deactivated_listeners_stay_silent(
    view: RegistryView,
    token: u64,
    steps: Seq<RegistryStep>,
)
    requires
        view.wf(),
        token < view.next_token,
    ensures
        ({
            let after = view.stepped(RegistryStep::DeactivateAll);
            &&& after.stepped(RegistryStep::DeactivateAll) == after
            &&& forall|source: UriView, sink: Option<UriView>| #[trigger]
                selected_tokens(after.active, source, sink).len() == 0
            &&& forall|source: UriView, sink: Option<UriView>, listener: u64| #[trigger]
                find(after.active, source, sink, listener) is None
            &&& !after.replayed(steps).is_active(token)
            &&& after.started(steps, token) == 0
            &&& after.replayed(steps).in_flight(token) + after.ended(steps, token)
                == view.in_flight(token)
            &&& after.in_flight(token) == 0 ==> after.replayed(steps).in_flight(token) == 0
        }),
{
    law_retired_tokens_start_nothing(view.cleared(), steps, token);
}

/// A registration whose filters are concrete addresses selects the messages
/// between exactly these addresses, and wildcards select every address.
pub proof fn law_filters_select_their_own_addresses(entry: EntryView, any: UriView)
    requires
        any.authority_name == "*"@,
        any.ue_id == 0xFFFF_FFFF,
        any.ue_version_major == 0xFF,
        any.resource_id == 0xFFFF,
    ensures
        selects(entry, entry.source, entry.sink),
        uri_matches(any, entry.source),
{
}

/// A message reaches a registration if and only if each part of its source is
/// the part of the source filter, or that filter holds the wildcard of the
/// part, and likewise for the sink; without a sink filter, if and only if the
/// message has no sink.
pub proof fn law_listeners_receive_what_their_filters_name(
    view: RegistryView,
    at: int,
    source: UriView,
    sink: Option<UriView>,
)
    requires
        view.wf(),
        0 <= at < view.active.len(),
    ensures
        selected_tokens(view.active, source, sink).contains(view.active[at].token) <==> ({
            let filter = view.active[at].source;
            &&& filter.authority_name == "*"@ || filter.authority_name == source.authority_name
            &&& filter.ue_id % 0x1_0000 == 0xFFFF || filter.ue_id % 0x1_0000 == source.ue_id
                % 0x1_0000
            &&& filter.ue_id / 0x1_0000 == 0xFFFF || filter.ue_id / 0x1_0000 == source.ue_id
                / 0x1_0000
            &&& filter.ue_version_major == 0xFF || filter.ue_version_major % 0x100
                == source.ue_version_major % 0x100
            &&& filter.resource_id == 0xFFFF || filter.resource_id == source.resource_id
            &&& match (view.active[at].sink, sink) {
                (None, None) => true,
                (Some(filter), Some(sink)) => {
                    &&& filter.authority_name == "*"@ || filter.authority_name
                        == sink.authority_name
                    &&& filter.ue_id % 0x1_0000 == 0xFFFF || filter.ue_id % 0x1_0000 == sink.ue_id
                        % 0x1_0000
                    &&& filter.ue_id / 0x1_0000 == 0xFFFF || filter.ue_id / 0x1_0000 == sink.ue_id
                        / 0x1_0000
                    &&& filter.ue_version_major == 0xFF || filter.ue_version_major % 0x100
                        == sink.ue_version_major % 0x100
                    &&& filter.resource_id == 0xFFFF || filter.resource_id == sink.resource_id
                },
                _ => false,
            }
        }),
{
    law_matching_is_exact(view, source, sink, view.active[at].token);
    if selects(view.active[at], source, sink) {
        assert(selected_tokens(view.active, source, sink).contains(view.active[at].token));
    } else if selected_tokens(view.active, source, sink).contains(view.active[at].token) {
        let i = choose|i: int|
            0 <= i < view.active.len() && (#[trigger] view.active[i]).token == view.active[at].token
                && selects(view.active[i], source, sink);
        assert(i == at);
    }
}

/// Every selected token belongs to a registration, so nobody else is reached.
pub proof fn law_only_registered_tokens_are_selected(
    view: RegistryView,
    source: UriView,
    sink: Option<UriView>,
    at: int,
)
    requires
        0 <= at < selected_tokens(view.active, source, sink).len(),
    ensures
        exists|i: int|
            0 <= i < view.active.len() && (#[trigger] view.active[i]).token == selected_tokens(
                view.active,
                source,
                sink,
            )[at],
{
    let tokens = selected_tokens(view.active, source, sink);
    assert(tokens.contains(tokens[at]));
    law_matching_is_exact(view, source, sink, tokens[at]);
    let i = choose|i: int|
        0 <= i < view.active.len() && (#[trigger] view.active[i]).token == tokens[at] && selects(
            view.active[i],
            source,
            sink,
        );
    assert(view.active[i].token == tokens[at]);
}

/// A registration is the same as another if and only if source filter, sink
/// filter and listener are all equal: registering is refused exactly then, and
/// otherwise adds this registration behind the others; unregistering removes
/// exactly such a registration and is refused where there is none.
pub proof fn law_registrations_are_known_by_filters_and_listener(
    view: RegistryView,
    source: UriView,
    sink: Option<UriView>,
    listener: u64,
)
    requires
        view.wf(),
        view.next_token < u64::MAX,
    ensures
        ({
            let known = exists|i: int|
                0 <= i < view.active.len() && (#[trigger] view.active[i]).source == source
                    && view.active[i].sink == sink && view.active[i].listener == listener;
            let added = view.stepped(RegistryStep::Register { source, sink, listener });
            let removed = view.stepped(RegistryStep::Unregister { source, sink, listener });
            &&& find(view.active, source, sink, listener) is Some <==> known
            &&& known ==> added == view
            &&& !known ==> added.active == view.active.push(
                EntryView { token: view.next_token, source, sink, listener },
            ) && added.running == view.running && added.next_token == view.next_token + 1
            &&& !known ==> removed == view
            &&& known ==> removed.running == view.running && removed.next_token == view.next_token
                && exists|at: int|
                0 <= at < view.active.len() && (#[trigger] view.active[at]).source == source
                    && view.active[at].sink == sink && view.active[at].listener == listener
                    && removed.active == view.active.remove(at)
            &&& forall|i: int|
                0 <= i < removed.active.len() ==> (#[trigger] removed.active[i]).source != source
                    || removed.active[i].sink != sink || removed.active[i].listener != listener
        }),
{
    lemma_find(view.active, source, sink, listener);
    let found = find(view.active, source, sink, listener);
    let removed = view.stepped(RegistryStep::Unregister { source, sink, listener });
    match found {
        Some(at) => {
            assert(view.active[at].source == source && view.active[at].sink == sink
                && view.active[at].listener == listener);
            law_unregistered_is_gone(view, source, sink, listener);
            lemma_find(removed.active, source, sink, listener);
            assert forall|i: int| 0 <= i < removed.active.len() implies (
            #[trigger] removed.active[i]).source != source || removed.active[i].sink != sink
                || removed.active[i].listener != listener by {
                assert(!same_key(removed.active[i], source, sink, listener));
            }
        },
        None => {
            assert forall|i: int| 0 <= i < view.active.len() implies (
            #[trigger] view.active[i]).source != source || view.active[i].sink != sink
                || view.active[i].listener != listener by {
                assert(!same_key(view.active[i], source, sink, listener));
            }
        },
    }
}

/// Callbacks start exactly under the tokens of registrations. Starting or
/// ending one changes the count of its own token by one and nothing else;
/// removing every registration leaves the counts alone.
pub proof fn law_callbacks_change_their_own_count(view: RegistryView, token: u64, other: u64)
    requires
        view.wf(),
        other != token,
    ensures
        view.is_active(token) <==> exists|i: int|
            0 <= i < view.active.len() && (#[trigger] view.active[i]).token == token,
        view.running.dom().contains(token) ==> view.in_flight(token) == view.running[token],
        !view.running.dom().contains(token) ==> view.in_flight(token) == 0,
        view.starts(token) <==> view.is_active(token) && view.in_flight(token) < usize::MAX,
        ({
            let begun = view.stepped(RegistryStep::Begin(token));
            let ended = view.stepped(RegistryStep::Finish(token));
            let emptied = view.stepped(RegistryStep::DeactivateAll);
            &&& begun.active == view.active && begun.next_token == view.next_token
            &&& begun.in_flight(token) == view.in_flight(token) + if view.starts(token) {
                1int
            } else {
                0
            }
            &&& begun.in_flight(other) == view.in_flight(other)
            &&& ended.active == view.active && ended.next_token == view.next_token
            &&& ended.in_flight(token) == view.in_flight(token) - if view.in_flight(token) > 0 {
                1int
            } else {
                0
            }
            &&& ended.in_flight(other) == view.in_flight(other)
            &&& emptied.active.len() == 0 && emptied.running == view.running
                && emptied.next_token == view.next_token
        }),
{
    lemma_find_token(view.active, token);
    if view.is_active(token) {
        let at = find_token(view.active, token)->Some_0;
        assert(view.active[at].token == token);
    }
}

/// A callback runs for the listener that was registered under its token.
pub proof fn law_callbacks_run_for_their_own_listener(view: RegistryView, at: int)
    requires
        view.wf(),
        0 <= at < view.active.len(),
    ensures
        find_token(view.active, view.active[at].token) == Some(at),
{
    lemma_find_token(view.active, view.active[at].token);
}

/// The token of each registration stands at its own place among all tokens.
pub proof fn law_all_tokens_are_listed(active: Seq<EntryView>, at: int)
    ensures
        all_tokens(active).len() == active.len(),
        0 <= at < active.len() ==> all_tokens(active)[at] == active[at].token,
{
}

/// A second registration is refused as already existing, and the removal of one
/// that does not exist as not found.
pub proof fn law_refused_registrations_have_their_codes(status: StatusView)
    ensures
        status == already_registered() ==> status.code == StatusCode::AlreadyExists
            && status.message == "listener is already registered"@,
        status == not_registered() ==> status.code == StatusCode::NotFound && status.message
            == "listener is not registered"@,
{
}

} // verus!
