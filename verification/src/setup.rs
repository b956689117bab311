//! Bringing a transport up, entity by entity.

use vstd::prelude::*;

use crate::config::{config_fault, config_outcome, ConfigView, DdsConfig};
use crate::family::{
    family_topic, family_type, family_word, reader_qos, writer_qos, EndpointQos, Family,
    CLASSIC_TOPIC_V1, CLASSIC_TYPE_V1, OWNED_TOPIC_V1, OWNED_TYPE_V1, ZERO_COPY_TOPIC_V1,
    ZERO_COPY_TYPE_V1,
};
use crate::status::{
    dds_status, dds_status_view, fail, failure_code, failure_text, DdsFailure, Status, StatusCode,
    StatusView,
};
use crate::text::join3;
use crate::transport::{fresh, Transport};

verus! {

/// What is created next.
#[derive(Clone, Copy, Debug, PartialEq, Eq, Structural)]
pub enum SetupStep {
    /// The domain participant.
    Participant,
    /// The topic of the family.
    Topic,
    /// The publisher.
    Publisher,
    /// The writer.
    Writer,
    /// The subscriber.
    Subscriber,
    /// The reader.
    Reader,
    /// The thread that runs callbacks.
    Dispatcher,
    /// The thread that takes samples.
    Poller,
    /// Nothing: everything is there.
    Ready,
}

/// What the owner of a transport does next to bring it up.
#[derive(Debug, PartialEq, Eq)]
pub enum SetupAction {
    /// Create a participant in a domain.
    CreateParticipant {
        /// DDS domain.
        domain_id: i32,
    },
    /// Create the topic.
    CreateTopic {
        /// Name of the topic.
        topic: &'static str,
        /// Name of its registered type.
        registered_type: &'static str,
    },
    /// Create a publisher.
    CreatePublisher,
    /// Create the writer.
    CreateWriter(EndpointQos),
    /// Create a subscriber.
    CreateSubscriber,
    /// Create the reader.
    CreateReader(EndpointQos),
    /// Start the dispatcher thread with a bounded queue.
    SpawnDispatcher {
        /// Name of the thread.
        name: String,
        /// Number of jobs that the queue holds.
        capacity: usize,
    },
    /// Start the poller thread.
    SpawnPoller {
        /// Name of the thread.
        name: String,
    },
    /// Nothing is left to do.
    Finish,
}

/// Why a setup action failed.
#[derive(Debug, PartialEq, Eq)]
pub enum SetupFailure {
    /// The middleware refused it.
    Dds(DdsFailure),
    /// The operating system refused to start a thread.
    Spawn(String),
}

/// Context in which a failed step is reported.
pub open spec fn step_context(family: Family, step: SetupStep) -> Seq<char> {
    match step {
        SetupStep::Participant => "create "@ + family_word(family) + " participant"@,
        SetupStep::Topic => "create "@ + family_word(family) + " topic"@,
        SetupStep::Publisher => "create "@ + family_word(family) + " publisher"@,
        SetupStep::Writer => "create "@ + family_word(family) + " writer"@,
        SetupStep::Subscriber => "create "@ + family_word(family) + " subscriber"@,
        SetupStep::Reader => "create "@ + family_word(family) + " reader"@,
        SetupStep::Dispatcher => "spawn "@ + "callback"@ + " dispatcher"@,
        SetupStep::Poller => "spawn "@ + family_word(family) + " poller"@,
        SetupStep::Ready => Seq::empty(),
    }
}

/// Status of a setup that a failed step ended.
pub open spec fn setup_status(
    family: Family,
    step: SetupStep,
    failure: SetupFailure,
) -> StatusView {
    match failure {
        SetupFailure::Dds(failure) => dds_status_view(step_context(family, step), failure),
        SetupFailure::Spawn(detail) => StatusView {
            code: StatusCode::ResourceExhausted,
            message: step_context(family, step) + ": "@ + detail@,
        },
    }
}

/// The step that follows a step.
pub open spec fn next_setup_step(step: SetupStep) -> SetupStep {
    match step {
        SetupStep::Participant => SetupStep::Topic,
        SetupStep::Topic => SetupStep::Publisher,
        SetupStep::Publisher => SetupStep::Writer,
        SetupStep::Writer => SetupStep::Subscriber,
        SetupStep::Subscriber => SetupStep::Reader,
        SetupStep::Reader => SetupStep::Dispatcher,
        SetupStep::Dispatcher => SetupStep::Poller,
        SetupStep::Poller => SetupStep::Ready,
        SetupStep::Ready => SetupStep::Ready,
    }
}

/// Whether an action is the one of a step.
pub open spec fn is_action_of(
    action: SetupAction,
    family: Family,
    config: ConfigView,
    step: SetupStep,
) -> bool {
    let endpoint = EndpointQos {
        reliability: config.qos.reliability,
        keep_last: config.qos.history_depth,
    };
    match step {
        SetupStep::Participant => action == (SetupAction::CreateParticipant {
            domain_id: config.domain_id,
        }),
        SetupStep::Topic => {
            &&& action is CreateTopic
            &&& action->topic@ == family_topic(family)
            &&& action->registered_type@ == family_type(family)
        },
        SetupStep::Publisher => action == SetupAction::CreatePublisher,
        SetupStep::Writer => action == SetupAction::CreateWriter(endpoint),
        SetupStep::Subscriber => action == SetupAction::CreateSubscriber,
        SetupStep::Reader => action == SetupAction::CreateReader(endpoint),
        SetupStep::Dispatcher => {
            &&& action is SpawnDispatcher
            &&& action->SpawnDispatcher_name@ == "up-dds-dispatch"@
            &&& action->capacity == config.dispatch_capacity
        },
        SetupStep::Poller => {
            &&& action is SpawnPoller
            &&& action->SpawnPoller_name@ == "up-dds-"@ + family_word(family) + "-poll"@
        },
        SetupStep::Ready => action == SetupAction::Finish,
    }
}

/// A setup as contracts see it.
#[verifier::ext_equal]
pub struct SetupView {
    /// Family of the transport.
    pub family: Family,
    /// Configuration of the transport.
    pub config: ConfigView,
    /// What is created next.
    pub step: SetupStep,
}

/// A transport that is being brought up.
pub struct Setup {
    family: Family,
    config: DdsConfig,
    step: SetupStep,
}

impl View for Setup {
    type V = SetupView;

    closed spec fn view(&self) -> SetupView {
        SetupView { family: self.family, config: self.config@, step: self.step }
    }
}

impl Setup {
    /// The configuration is valid.
    pub open spec fn wf(&self) -> bool {
        config_fault(self@.config) is None
    }

    /// Starts the setup of a transport, unless its configuration is invalid.
    pub fn begin(family: Family, config: DdsConfig) -> (started: Result<Setup, Status>)
        ensures
            match started {
                Ok(setup) => {
                    &&& config_outcome(config@) is Ok
                    &&& setup.wf()
                    &&& setup@ == (SetupView {
                        family,
                        config: config@,
                        step: SetupStep::Participant,
                    })
                },
                Err(status) => config_outcome(config@) == Err::<(), StatusView>(status@),
            },
    {
        match config.validate() {
            Err(status) => Err(status),
            Ok(_) => Ok(Setup { family, config, step: SetupStep::Participant }),
        }
    }

    /// The next action.
    pub fn action(&self) -> (action: SetupAction)
        ensures
            is_action_of(action, self@.family, self@.config, self@.step),
    {
        match self.step {
            SetupStep::Participant => SetupAction::CreateParticipant {
                domain_id: self.config.domain_id,
            },
            SetupStep::Topic => SetupAction::CreateTopic {
                topic: self.family.topic(),
                registered_type: self.family.registered_type(),
            },
            SetupStep::Publisher => SetupAction::CreatePublisher,
            SetupStep::Writer => SetupAction::CreateWriter(writer_qos(&self.config.qos)),
            SetupStep::Subscriber => SetupAction::CreateSubscriber,
            SetupStep::Reader => SetupAction::CreateReader(reader_qos(&self.config.qos)),
            SetupStep::Dispatcher => SetupAction::SpawnDispatcher {
                name: "up-dds-dispatch".to_owned(),
                capacity: self.config.dispatch_capacity,
            },
            SetupStep::Poller => SetupAction::SpawnPoller {
                name: join3("up-dds-", self.family.word(), "-poll"),
            },
            SetupStep::Ready => SetupAction::Finish,
        }
    }

    /// Context in which a failure of the next action is reported.
    fn context(&self) -> (context: String)
        ensures
            context@ == step_context(self@.family, self@.step),
    {
        let word = self.family.word();
        match self.step {
            SetupStep::Participant => join3("create ", word, " participant"),
            SetupStep::Topic => join3("create ", word, " topic"),
            SetupStep::Publisher => join3("create ", word, " publisher"),
            SetupStep::Writer => join3("create ", word, " writer"),
            SetupStep::Subscriber => join3("create ", word, " subscriber"),
            SetupStep::Reader => join3("create ", word, " reader"),
            SetupStep::Dispatcher => join3("spawn ", "callback", " dispatcher"),
            SetupStep::Poller => join3("spawn ", word, " poller"),
            SetupStep::Ready => String::new(),
        }
    }

    /// Takes in that the next action succeeded.
    pub fn succeeded(&mut self)
        requires
            old(self).wf(),
        ensures
            final(self).wf(),
            final(self)@ == (SetupView {
                step: next_setup_step(old(self)@.step),
                ..old(self)@
            }),
    {
        self.step = match self.step {
            SetupStep::Participant => SetupStep::Topic,
            SetupStep::Topic => SetupStep::Publisher,
            SetupStep::Publisher => SetupStep::Writer,
            SetupStep::Writer => SetupStep::Subscriber,
            SetupStep::Subscriber => SetupStep::Reader,
            SetupStep::Reader => SetupStep::Dispatcher,
            SetupStep::Dispatcher => SetupStep::Poller,
            SetupStep::Poller => SetupStep::Ready,
            SetupStep::Ready => SetupStep::Ready,
        };
    }

    /// The status with which the setup ends because the next action failed.
    pub fn failed(&self, failure: SetupFailure) -> (status: Status)
        requires
            !(self@.step is Ready),
        ensures
            status@ == setup_status(self@.family, self@.step, failure),
    {
        let context = self.context();
        match failure {
            SetupFailure::Dds(failure) => dds_status(context.as_str(), &failure),
            SetupFailure::Spawn(detail) => fail(
                StatusCode::ResourceExhausted,
                join3(context.as_str(), ": ", detail.as_str()),
            ),
        }
    }

    /// The transport, once everything is there.
    pub fn finish(self) -> (transport: Transport)
        requires
            self.wf(),
            self@.step is Ready,
        ensures
            transport.wf(),
            transport@ == fresh(self@.family, self@.config),
    {
        Transport::assemble(self.family, self.config)
    }
}

/// The step reached after a number of successful actions.
pub open spec fn step_after(actions: nat) -> SetupStep
    decreases actions,
{
    if actions == 0 {
        SetupStep::Participant
    } else {
        next_setup_step(step_after((actions - 1) as nat))
    }
}

/// A transport is ready after eight successful actions and not before, and the
/// reader is there before anything takes samples from it.
pub proof fn law_setup_order(actions: nat)
    ensures
        actions < 8 ==> !(step_after(actions) is Ready),
        actions >= 8 ==> step_after(actions) is Ready,
        step_after(0) is Participant,
        step_after(1) is Topic,
        step_after(3) is Writer,
        step_after(5) is Reader,
        step_after(6) is Dispatcher,
        step_after(7) is Poller,
    decreases actions,
{
    reveal_with_fuel(step_after, 9);
    if actions > 8 {
        law_setup_order((actions - 1) as nat);
    }
}

/// Each setup step asks for its own entity, with the domain, the names, the
/// quality of service and the queue length of family and configuration.
pub proof fn law_setup_asks_for_what_is_configured(
    action: SetupAction,
    family: Family,
    config: ConfigView,
    step: SetupStep,
)
    requires
        is_action_of(action, family, config, step),
    ensures
        step is Participant <==> action is CreateParticipant,
        step is Topic <==> action is CreateTopic,
        step is Publisher <==> action is CreatePublisher,
        step is Writer <==> action is CreateWriter,
        step is Subscriber <==> action is CreateSubscriber,
        step is Reader <==> action is CreateReader,
        step is Dispatcher <==> action is SpawnDispatcher,
        step is Poller <==> action is SpawnPoller,
        step is Ready <==> action is Finish,
        action matches SetupAction::CreateParticipant { domain_id } ==> domain_id
            == config.domain_id,
        action matches SetupAction::CreateTopic { topic, registered_type } ==> topic@ == (
        match family {
            Family::Classic => CLASSIC_TOPIC_V1@,
            Family::Owned => OWNED_TOPIC_V1@,
            Family::ZeroCopy => ZERO_COPY_TOPIC_V1@,
        }) && registered_type@ == (match family {
            Family::Classic => CLASSIC_TYPE_V1@,
            Family::Owned => OWNED_TYPE_V1@,
            Family::ZeroCopy => ZERO_COPY_TYPE_V1@,
        }),
        action matches SetupAction::CreateWriter(qos) ==> qos.reliability
            == config.qos.reliability && qos.keep_last == config.qos.history_depth,
        action matches SetupAction::CreateReader(qos) ==> qos.reliability
            == config.qos.reliability && qos.keep_last == config.qos.history_depth,
        action matches SetupAction::SpawnDispatcher { name, capacity } ==> name@
            == "up-dds-dispatch"@ && capacity == config.dispatch_capacity,
        action matches SetupAction::SpawnPoller { name } ==> name@ == "up-dds-"@ + family_word(
            family,
        ) + "-poll"@,
{
}

/// A setup creates participant, topic, publisher, writer, subscriber and
/// reader, in this order, before it starts the dispatcher and then the poller;
/// what is ready stays ready.
pub proof fn law_setup_steps_follow_each_other(step: SetupStep)
    ensures
        step_after(0) is Participant,
        step_after(1) is Topic,
        step_after(2) is Publisher,
        step_after(3) is Writer,
        step_after(4) is Subscriber,
        step_after(5) is Reader,
        step_after(6) is Dispatcher,
        step_after(7) is Poller,
        step_after(8) is Ready,
        step is Ready ==> next_setup_step(step) is Ready,
        step !is Ready ==> next_setup_step(step) != step,
{
    reveal_with_fuel(step_after, 9);
}

/// A failed step ends the setup under the code of the DDS failure, or as used
/// up resources when a thread did not start, and its message names what was
/// created or started for which family before it gives the reason.
pub proof fn law_failed_setup_steps_name_themselves(
    family: Family,
    step: SetupStep,
    failure: SetupFailure,
)
    ensures
        ({
            let word = family_word(family);
            let context = match step {
                SetupStep::Participant => "create "@ + word + " participant"@,
                SetupStep::Topic => "create "@ + word + " topic"@,
                SetupStep::Publisher => "create "@ + word + " publisher"@,
                SetupStep::Writer => "create "@ + word + " writer"@,
                SetupStep::Subscriber => "create "@ + word + " subscriber"@,
                SetupStep::Reader => "create "@ + word + " reader"@,
                SetupStep::Dispatcher => "spawn "@ + "callback"@ + " dispatcher"@,
                SetupStep::Poller => "spawn "@ + word + " poller"@,
                SetupStep::Ready => Seq::empty(),
            };
            let status = setup_status(family, step, failure);
            &&& step_context(family, step) == context
            &&& failure matches SetupFailure::Dds(reason) ==> status.code == failure_code(reason)
                && status.message == context + ": "@ + failure_text(reason)
            &&& failure matches SetupFailure::Spawn(reason) ==> status.code
                == StatusCode::ResourceExhausted && status.message == context + ": "@ + reason@
        }),
{
}

/// A setup goes on from each entity to the one that needs it next: the topic
/// needs the participant, the writer the publisher, the reader the subscriber,
/// and both threads come after the reader.
pub proof fn law_setup_goes_on_to_the_next_entity(step: SetupStep)
    ensures
        next_setup_step(step) is Topic <==> step is Participant,
        next_setup_step(step) is Publisher <==> step is Topic,
        next_setup_step(step) is Writer <==> step is Publisher,
        next_setup_step(step) is Subscriber <==> step is Writer,
        next_setup_step(step) is Reader <==> step is Subscriber,
        next_setup_step(step) is Dispatcher <==> step is Reader,
        next_setup_step(step) is Poller <==> step is Dispatcher,
        next_setup_step(step) is Ready <==> step is Poller || step is Ready,
        next_setup_step(step) !is Participant,
{
}

} // verus!
