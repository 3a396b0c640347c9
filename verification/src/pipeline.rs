//! The run as a whole: build, then archive and publish side by side, then bind.
//!
//! A [`Pipeline`] is a state and a transition function. The caller performs
//! each [`Action`] and reports what came of it as an [`Event`]. The archive
//! producer and the publishing consumer run side by side, joined by a bounded
//! pipe; the pipeline leaves that stage only when both have ended, and reports
//! the first failure among them that is no cancellation.
use vstd::prelude::*;
use crate::effect::BuildReport;
use crate::error::BuildError;
use crate::error::ErrorKind;

verus! {

/// What can go wrong before the build starts. Each failure names the path
/// it is about and, where the system gave one, the cause.
#[derive(Debug, Clone, PartialEq, Eq)]
pub enum SetupError {
    /// The project path does not exist or is no directory.
    InvalidProjectPath { path: String },
    /// The project has no configuration file at the given path.
    MissingConfigFile { path: String },
    UnreadableConfig { path: String, cause: String },
    MalformedConfig { path: String, cause: String },
    /// The staging directory could not be created.
    StagingUnavailable { cause: String },
}

/// The mathematical content of a [`SetupError`].
pub enum SetupErrorView {
    InvalidProjectPath { path: Seq<char> },
    MissingConfigFile { path: Seq<char> },
    UnreadableConfig { path: Seq<char>, cause: Seq<char> },
    MalformedConfig { path: Seq<char>, cause: Seq<char> },
    StagingUnavailable { cause: Seq<char> },
}

impl View for SetupError {
    type V = SetupErrorView;

    open spec fn view(&self) -> SetupErrorView {
        match *self {
            SetupError::InvalidProjectPath { path } => SetupErrorView::InvalidProjectPath {
                path: path@,
            },
            SetupError::MissingConfigFile { path } => SetupErrorView::MissingConfigFile {
                path: path@,
            },
            SetupError::UnreadableConfig { path, cause } => SetupErrorView::UnreadableConfig {
                path: path@,
                cause: cause@,
            },
            SetupError::MalformedConfig { path, cause } => SetupErrorView::MalformedConfig {
                path: path@,
                cause: cause@,
            },
            SetupError::StagingUnavailable { cause } => SetupErrorView::StagingUnavailable {
                cause: cause@,
            },
        }
    }
}

/// What can go wrong between the pipe and the remote content store. Each
/// failure names the store's address and the cause that the transport gave.
#[derive(Debug, Clone, PartialEq, Eq)]
pub enum PublishFailure {
    /// The content store could not be reached.
    RegistryUnreachable { endpoint: String, cause: String },
    /// The stream to the content store broke, or the store did not answer it.
    StreamFailed { endpoint: String, cause: String },
}

/// A failed run.
#[derive(Debug, Clone, PartialEq, Eq)]
pub enum PipelineError {
    Setup { reason: SetupError },
    Build { error: BuildError },
    /// The archive producer failed; carries what it said.
    ArchiveFailed { message: String },
    /// The archive producer was cancelled, and nothing else had failed.
    ArchiveAborted,
    Publish { failure: PublishFailure },
    /// The publishing consumer was cancelled, and nothing else had failed.
    PublishAborted,
    /// The name-binding service at the given address could not be reached.
    AssociationUnreachable { endpoint: String, cause: String },
    /// The name-binding service at the given address was reached and refused
    /// to bind the digest to the name.
    AssociationRejected { endpoint: String, name: String, digest: String },
}

impl PipelineError {
    /// The class of this failure.
    pub open spec fn spec_kind(self) -> ErrorKind {
        match self {
            PipelineError::Setup { reason } => match reason {
                SetupError::StagingUnavailable { .. } => ErrorKind::Execution,
                _ => ErrorKind::Configuration,
            },
            PipelineError::Build { error } => error@.kind(),
            PipelineError::ArchiveFailed { .. } | PipelineError::ArchiveAborted => ErrorKind::Artifact,
            PipelineError::Publish { .. }
            | PipelineError::PublishAborted
            | PipelineError::AssociationUnreachable { .. } => ErrorKind::Transport,
            PipelineError::AssociationRejected { .. } => ErrorKind::RemoteRejection,
        }
    }

    /// The class of this failure.
    pub fn kind(&self) -> (k: ErrorKind)
        ensures
            k == self.spec_kind(),
    {
        match self {
            PipelineError::Setup { reason } => match reason {
                SetupError::StagingUnavailable { .. } => ErrorKind::Execution,
                _ => ErrorKind::Configuration,
            },
            PipelineError::Build { error } => error.kind(),
            PipelineError::ArchiveFailed { .. } | PipelineError::ArchiveAborted => ErrorKind::Artifact,
            PipelineError::Publish { .. }
            | PipelineError::PublishAborted
            | PipelineError::AssociationUnreachable { .. } => ErrorKind::Transport,
            PipelineError::AssociationRejected { .. } => ErrorKind::RemoteRejection,
        }
    }
}

/// What a successful run leaves: the digest and the name it is bound to.
#[derive(Debug, Clone, PartialEq, Eq)]
pub struct PipelineResult {
    pub digest: String,
    pub name: String,
}

/// One of the two concurrent branches of the streaming stage.
#[derive(Debug, Clone, Copy, PartialEq, Eq, Structural)]
pub enum Branch {
    Running,
    Succeeded,
    Failed,
    Cancelled,
}

/// Where a run stands.
#[derive(Debug, Clone, PartialEq, Eq)]
pub enum PipelineState {
    Idle,
    Building,
    /// The producer archives while the consumer publishes. `published` is what
    /// the consumer got; `failure` is the first failure that was no cancellation.
    Streaming { producer: Branch, consumer: Branch, published: Option<String>, failure: Option<
        PipelineError,
    > },
    Binding { digest: String },
    Done,
    Failed { kind: ErrorKind },
}

/// How the archive producer ended.
#[derive(Debug, Clone, PartialEq, Eq)]
pub enum ProducerOutcome {
    /// The whole archive was written and the write end closed.
    Completed,
    Failed { message: String },
    Cancelled,
}

/// How the publishing consumer ended.
#[derive(Debug, Clone, PartialEq, Eq)]
pub enum ConsumerOutcome {
    /// The stream was read to its end and the store answered with a digest.
    Published { digest: String },
    Failed { cause: PublishFailure },
    Cancelled,
}

/// What the name-binding service said, or that it said nothing. A failure
/// names the service's address.
#[derive(Debug, Clone, PartialEq, Eq)]
pub enum BindOutcome {
    Accepted,
    Rejected { endpoint: String },
    Unreachable { endpoint: String, cause: String },
}

/// What the caller reports to the pipeline.
#[derive(Debug, Clone, PartialEq, Eq)]
pub enum Event {
    /// The configuration is loaded and the staging directory exists; `name`
    /// is the logical name that the configuration gives the project.
    Prepared { name: String },
    SetupFailed { reason: SetupError },
    BuildSucceeded { report: BuildReport },
    BuildFailed { error: BuildError },
    ProducerFinished { archive: ProducerOutcome },
    ConsumerFinished { publish: ConsumerOutcome },
    BindFinished { answer: BindOutcome },
}

/// What the pipeline asks of the caller.
#[derive(Debug, Clone, PartialEq, Eq)]
pub enum Action {
    /// Run the build backend against the staging directory.
    RunBuild,
    /// Start the archive producer and the publishing consumer, joined by the pipe.
    StartStreaming,
    /// The producer has ended and its write end is closed: wait for the consumer.
    AwaitConsumer,
    /// The consumer has its digest: wait for the producer to end.
    AwaitProducer,
    /// The consumer has ended without a digest and nobody reads the pipe:
    /// cancel the producer, then report how it ended.
    CancelProducer,
    /// Bind the digest to the name.
    Bind { name: String, digest: String },
    /// Remove the staging directory, then report success: the run is over.
    Complete { result: PipelineResult },
    /// Remove the staging directory, then report the failure: the run is over.
    Abandon { error: PipelineError },
    /// The event answers nothing that was asked: nothing to do.
    Ignore,
}

impl Action {
    /// Whether the action ends the run. Both actions that do remove the
    /// staging directory first.
    pub open spec fn ends_run(self) -> bool {
        self is Complete || self is Abandon
    }
}

impl PipelineState {
    /// A run is over in `Done` and in `Failed`.
    pub open spec fn is_terminal(self) -> bool {
        self is Done || self is Failed
    }

    /// The place of a state in the order of a run; the two final states share the last.
    pub open spec fn rank(self) -> nat {
        match self {
            PipelineState::Idle => 0,
            PipelineState::Building => 1,
            PipelineState::Streaming { .. } => 2,
            PipelineState::Binding { .. } => 3,
            PipelineState::Done => 4,
            PipelineState::Failed { .. } => 4,
        }
    }

    /// What a streaming state must hold to make sense: a branch that still
    /// runs, a digest exactly when the consumer succeeded, a recorded failure
    /// whenever a branch failed, and no recorded failure but a branch's own.
    pub open spec fn well_formed(self) -> bool {
        match self {
            PipelineState::Streaming { producer, consumer, published, failure } => {
                &&& producer == Branch::Running || consumer == Branch::Running
                &&& published is Some <==> consumer == Branch::Succeeded
                &&& (producer == Branch::Failed || consumer == Branch::Failed) ==> failure is Some
                &&& failure matches Some(e) ==> e is ArchiveFailed || e is Publish
            },
            _ => true,
        }
    }

    /// The streaming stage as it begins: both branches running, nothing known.
    pub open spec fn streaming_begun() -> PipelineState {
        PipelineState::Streaming {
            producer: Branch::Running,
            consumer: Branch::Running,
            published: None,
            failure: None,
        }
    }
}

/// The branch state that a producer's end leaves.
pub open spec fn producer_branch(outcome: ProducerOutcome) -> Branch {
    match outcome {
        ProducerOutcome::Completed => Branch::Succeeded,
        ProducerOutcome::Failed { .. } => Branch::Failed,
        ProducerOutcome::Cancelled => Branch::Cancelled,
    }
}

/// The branch state that a consumer's end leaves.
pub open spec fn consumer_branch(outcome: ConsumerOutcome) -> Branch {
    match outcome {
        ConsumerOutcome::Published { .. } => Branch::Succeeded,
        ConsumerOutcome::Failed { .. } => Branch::Failed,
        ConsumerOutcome::Cancelled => Branch::Cancelled,
    }
}

/// The failure that a producer's end stands for, if it is one. A
/// cancellation is none.
pub open spec fn producer_failure(outcome: ProducerOutcome) -> Option<PipelineError> {
    match outcome {
        ProducerOutcome::Failed { message } => Some(PipelineError::ArchiveFailed { message }),
        _ => None,
    }
}

/// The failure that a consumer's end stands for, if it is one. A
/// cancellation is none.
pub open spec fn consumer_failure(outcome: ConsumerOutcome) -> Option<PipelineError> {
    match outcome {
        ConsumerOutcome::Failed { cause } => Some(PipelineError::Publish { failure: cause }),
        _ => None,
    }
}

/// The failure on record after one more branch has ended: the earlier one
/// stays; a later one is recorded only where there was none.
pub open spec fn first_failure(recorded: Option<PipelineError>, later: Option<PipelineError>) -> Option<
    PipelineError,
> {
    match recorded {
        Some(e) => Some(e),
        None => later,
    }
}

/// The verdict on the streaming stage once both branches have ended: the
/// recorded failure; without one, a cancelled branch; without that, the digest.
pub open spec fn streaming_verdict(
    producer: Branch,
    consumer: Branch,
    digest: Option<String>,
    failure: Option<PipelineError>,
) -> Result<String, PipelineError> {
    match failure {
        Some(e) => Err(e),
        None => if producer != Branch::Succeeded {
            Err(PipelineError::ArchiveAborted)
        } else {
            match digest {
                Some(d) => Ok(d),
                None => Err(PipelineError::PublishAborted),
            }
        },
    }
}

/// A run of the pipeline. From the moment it is prepared, it is a run for
/// one logical name.
#[derive(Debug, Clone, PartialEq, Eq)]
pub struct Pipeline {
    pub name: String,
    pub state: PipelineState,
}

impl Pipeline {
    /// How a run ends in failure: in the final state of the failure's class,
    /// abandoning with the failure itself.
    pub open spec fn failing(name: String, error: PipelineError) -> (Pipeline, Action) {
        (
            Pipeline { name, state: PipelineState::Failed { kind: error.spec_kind() } },
            Action::Abandon { error },
        )
    }

    /// Where the streaming stage goes once both branches have ended.
    pub open spec fn joined(
        name: String,
        producer: Branch,
        consumer: Branch,
        digest: Option<String>,
        failure: Option<PipelineError>,
    ) -> (Pipeline, Action) {
        match streaming_verdict(producer, consumer, digest, failure) {
            Ok(d) => (
                Pipeline { name, state: PipelineState::Binding { digest: d } },
                Action::Bind { name, digest: d },
            ),
            Err(e) => Self::failing(name, e),
        }
    }

    /// The transition function: the pipeline after `event`, and what it asks next.
    ///
    /// Each state answers the events of its own stage. Any other event, and
    /// any event in a final state, changes nothing and asks nothing.
    pub open spec fn next(self, event: Event) -> (Pipeline, Action) {
        match (self.state, event) {
            (PipelineState::Idle, Event::Prepared { name }) => (
                Pipeline { name, state: PipelineState::Building },
                Action::RunBuild,
            ),
            (PipelineState::Idle, Event::SetupFailed { reason }) => Self::failing(
                self.name,
                PipelineError::Setup { reason },
            ),
            (PipelineState::Building, Event::BuildSucceeded { report }) => (
                Pipeline { name: self.name, state: PipelineState::streaming_begun() },
                Action::StartStreaming,
            ),
            (PipelineState::Building, Event::BuildFailed { error }) => Self::failing(
                self.name,
                PipelineError::Build { error },
            ),
            (
                PipelineState::Streaming { producer, consumer, published, failure },
                Event::ProducerFinished { archive },
            ) => if producer != Branch::Running {
                (self, Action::Ignore)
            } else {
                let ended = producer_branch(archive);
                let recorded = first_failure(failure, producer_failure(archive));
                if consumer == Branch::Running {
                    (
                        Pipeline {
                            name: self.name,
                            state: PipelineState::Streaming {
                                producer: ended,
                                consumer,
                                published,
                                failure: recorded,
                            },
                        },
                        Action::AwaitConsumer,
                    )
                } else {
                    Self::joined(self.name, ended, consumer, published, recorded)
                }
            },
            (
                PipelineState::Streaming { producer, consumer, published, failure },
                Event::ConsumerFinished { publish },
            ) => if consumer != Branch::Running {
                (self, Action::Ignore)
            } else {
                let ended = consumer_branch(publish);
                let recorded = first_failure(failure, consumer_failure(publish));
                let got = match publish {
                    ConsumerOutcome::Published { digest } => Some(digest),
                    _ => None,
                };
                if producer == Branch::Running {
                    (
                        Pipeline {
                            name: self.name,
                            state: PipelineState::Streaming {
                                producer,
                                consumer: ended,
                                published: got,
                                failure: recorded,
                            },
                        },
                        if ended == Branch::Succeeded {
                            Action::AwaitProducer
                        } else {
                            Action::CancelProducer
                        },
                    )
                } else {
                    Self::joined(self.name, producer, ended, got, recorded)
                }
            },
            (PipelineState::Binding { digest }, Event::BindFinished { answer }) => match answer {
                BindOutcome::Accepted => (
                    Pipeline { name: self.name, state: PipelineState::Done },
                    Action::Complete { result: PipelineResult { digest, name: self.name } },
                ),
                BindOutcome::Rejected { endpoint } => Self::failing(
                    self.name,
                    PipelineError::AssociationRejected { endpoint, name: self.name, digest },
                ),
                BindOutcome::Unreachable { endpoint, cause } => Self::failing(
                    self.name,
                    PipelineError::AssociationUnreachable { endpoint, cause },
                ),
            },
            _ => (self, Action::Ignore),
        }
    }

    /// A run before anything has happened. It has no name yet: the name
    /// comes with the configuration.
    pub fn new() -> (pipeline: Pipeline)
        ensures
            pipeline.name@ == Seq::<char>::empty(),
            pipeline.state == PipelineState::Idle,
    {
        Pipeline { name: String::new(), state: PipelineState::Idle }
    }

    /// Ends the run in failure.
    fn fail(name: String, error: PipelineError) -> (r: (Pipeline, Action))
        ensures
            r == Self::failing(name, error),
    {
        let kind = error.kind();
        (Pipeline { name, state: PipelineState::Failed { kind } }, Action::Abandon { error })
    }

    /// Leaves the streaming stage, both branches having ended.
    fn join(
        name: String,
        producer: Branch,
        consumer: Branch,
        digest: Option<String>,
        failure: Option<PipelineError>,
    ) -> (r: (Pipeline, Action))
        ensures
            r == Self::joined(name, producer, consumer, digest, failure),
    {
        match failure {
            Some(e) => Self::fail(name, e),
            None => {
                if producer != Branch::Succeeded {
                    Self::fail(name, PipelineError::ArchiveAborted)
                } else {
                    match digest {
                        Some(d) => {
                            let bound = name.clone();
                            let digest = d.clone();
                            (
                                Pipeline { name, state: PipelineState::Binding { digest: d } },
                                Action::Bind { name: bound, digest },
                            )
                        },
                        None => Self::fail(name, PipelineError::PublishAborted),
                    }
                }
            },
        }
    }

    /// Takes an event and says what to do next.
    pub fn step(self, event: Event) -> (r: (Pipeline, Action))
        ensures
            r == self.next(event),
    {
        let Pipeline { name, state } = self;
        match (state, event) {
            (PipelineState::Idle, Event::Prepared { name: given }) => (
                Pipeline { name: given, state: PipelineState::Building },
                Action::RunBuild,
            ),
            (PipelineState::Idle, Event::SetupFailed { reason }) => {
                Self::fail(name, PipelineError::Setup { reason })
            },
            (PipelineState::Building, Event::BuildSucceeded { report }) => (
                Pipeline {
                    name,
                    state: PipelineState::Streaming {
                        producer: Branch::Running,
                        consumer: Branch::Running,
                        published: None,
                        failure: None,
                    },
                },
                Action::StartStreaming,
            ),
            (PipelineState::Building, Event::BuildFailed { error }) => {
                Self::fail(name, PipelineError::Build { error })
            },
            (
                PipelineState::Streaming { producer, consumer, published, failure },
                Event::ProducerFinished { archive },
            ) => {
                if producer != Branch::Running {
                    (
                        Pipeline {
                            name,
                            state: PipelineState::Streaming { producer, consumer, published, failure },
                        },
                        Action::Ignore,
                    )
                } else {
                    let (ended, later) = match archive {
                        ProducerOutcome::Completed => (Branch::Succeeded, None),
                        ProducerOutcome::Failed { message } => (
                            Branch::Failed,
                            Some(PipelineError::ArchiveFailed { message }),
                        ),
                        ProducerOutcome::Cancelled => (Branch::Cancelled, None),
                    };
                    let recorded = match failure {
                        Some(e) => Some(e),
                        None => later,
                    };
                    if consumer == Branch::Running {
                        (
                            Pipeline {
                                name,
                                state: PipelineState::Streaming {
                                    producer: ended,
                                    consumer,
                                    published,
                                    failure: recorded,
                                },
                            },
                            Action::AwaitConsumer,
                        )
                    } else {
                        Self::join(name, ended, consumer, published, recorded)
                    }
                }
            },
            (
                PipelineState::Streaming { producer, consumer, published, failure },
                Event::ConsumerFinished { publish },
            ) => {
                if consumer != Branch::Running {
                    (
                        Pipeline {
                            name,
                            state: PipelineState::Streaming { producer, consumer, published, failure },
                        },
                        Action::Ignore,
                    )
                } else {
                    let (ended, later, got) = match publish {
                        ConsumerOutcome::Published { digest } => (
                            Branch::Succeeded,
                            None,
                            Some(digest),
                        ),
                        ConsumerOutcome::Failed { cause } => (
                            Branch::Failed,
                            Some(PipelineError::Publish { failure: cause }),
                            None,
                        ),
                        ConsumerOutcome::Cancelled => (Branch::Cancelled, None, None),
                    };
                    let recorded = match failure {
                        Some(e) => Some(e),
                        None => later,
                    };
                    if producer == Branch::Running {
                        (
                            Pipeline {
                                name,
                                state: PipelineState::Streaming {
                                    producer,
                                    consumer: ended,
                                    published: got,
                                    failure: recorded,
                                },
                            },
                            if ended == Branch::Succeeded {
                                Action::AwaitProducer
                            } else {
                                Action::CancelProducer
                            },
                        )
                    } else {
                        Self::join(name, producer, ended, got, recorded)
                    }
                }
            },
            (PipelineState::Binding { digest }, Event::BindFinished { answer }) => {
                match answer {
                    BindOutcome::Accepted => {
                        let bound = name.clone();
                        (
                            Pipeline { name, state: PipelineState::Done },
                            Action::Complete { result: PipelineResult { digest, name: bound } },
                        )
                    },
                    BindOutcome::Rejected { endpoint } => {
                        let bound = name.clone();
                        Self::fail(
                            name,
                            PipelineError::AssociationRejected { endpoint, name: bound, digest },
                        )
                    },
                    BindOutcome::Unreachable { endpoint, cause } => Self::fail(
                        name,
                        PipelineError::AssociationUnreachable { endpoint, cause },
                    ),
                }
            },
            (state, _) => (Pipeline { name, state }, Action::Ignore),
        }
    }
}

impl Pipeline {
    /// The pipeline after a sequence of events, taken in order.
    pub open spec fn after(self, events: Seq<Event>) -> Pipeline
        decreases events.len(),
    {
        if events.len() == 0 {
            self
        } else {
            self.next(events[0]).0.after(events.drop_first())
        }
    }

    /// The least number of events that can still lead to `Done`; nothing for
    /// a failed run, which never gets there.
    pub open spec fn events_to_done(self) -> Option<nat> {
        match self.state {
            PipelineState::Idle => Some(5),
            PipelineState::Building => Some(4),
            PipelineState::Streaming { producer, consumer, .. } => Some(
                1 + (if producer == Branch::Running {
                    1nat
                } else {
                    0nat
                }) + (if consumer == Branch::Running {
                    1nat
                } else {
                    0nat
                }),
            ),
            PipelineState::Binding { .. } => Some(1),
            PipelineState::Done => Some(0),
            PipelineState::Failed { .. } => None,
        }
    }
}

/// A run that is over stays as it is: no event changes it or asks for anything.
pub proof fn lemma_final_states_absorb(pipeline: Pipeline, events: Seq<Event>)
    requires
        pipeline.state.is_terminal(),
    ensures
        pipeline.after(events) == pipeline,
        forall|event: Event| #[trigger] pipeline.next(event) == (pipeline, Action::Ignore),
    decreases events.len(),
{
    if events.len() > 0 {
        lemma_final_states_absorb(pipeline, events.drop_first());
    }
}

/// A run never goes back, keeps the name it was prepared with, and keeps a
/// streaming state well formed.
pub proof fn lemma_steps_go_forward(pipeline: Pipeline, event: Event)
    ensures
        !(pipeline.state is Idle) ==> pipeline.next(event).0.name == pipeline.name,
        pipeline.state is Idle ==> match event {
            Event::Prepared { name } => pipeline.next(event).0.name == name,
            _ => pipeline.next(event).0.name == pipeline.name,
        },
        pipeline.next(event).0.state.rank() >= pipeline.state.rank(),
        pipeline.state.well_formed() ==> pipeline.next(event).0.state.well_formed(),
{
}

/// A run advances to the next stage only on the success of the stage it is
/// in: `Prepared` leaves `Idle`, a successful build leaves `Building`, the end
/// of the last running branch with a digest and no failure leaves
/// `Streaming`, an accepted binding leaves `Binding`. No stage is skipped.
pub proof fn lemma_advance_only_on_success(pipeline: Pipeline, event: Event)
    requires
        pipeline.next(event).0.state.rank() > pipeline.state.rank(),
        !(pipeline.next(event).0.state is Failed),
    ensures
        pipeline.next(event).0.state.rank() == pipeline.state.rank() + 1,
        match pipeline.state {
            PipelineState::Idle => event is Prepared,
            PipelineState::Building => event is BuildSucceeded,
            PipelineState::Streaming { producer, consumer, published, failure } => {
                &&& failure is None
                &&& event is ProducerFinished || event is ConsumerFinished
                &&& event matches Event::ProducerFinished { archive } ==> archive is Completed
                    && published is Some
                &&& event matches Event::ConsumerFinished { publish } ==> publish is Published
                    && producer == Branch::Succeeded
            },
            PipelineState::Binding { .. } => event == (Event::BindFinished {
                answer: BindOutcome::Accepted,
            }),
            _ => false,
        },
{
}

/// Every way out of a run removes the staging directory: a run that is not
/// over enters a final state exactly when the action is one that ends the
/// run, in `Done` exactly with `Complete`, and in `Failed` exactly with
/// `Abandon`, whose failure is of the class that the state names.
pub proof fn lemma_cleanup_on_every_exit(pipeline: Pipeline, event: Event)
    requires
        !pipeline.state.is_terminal(),
    ensures
        pipeline.next(event).0.state.is_terminal() <==> pipeline.next(event).1.ends_run(),
        pipeline.next(event).0.state is Done <==> pipeline.next(event).1 is Complete,
        pipeline.next(event).0.state is Failed <==> pipeline.next(event).1 is Abandon,
        pipeline.next(event).1 matches Action::Abandon { error } ==> pipeline.next(event).0.state
            == (PipelineState::Failed { kind: error.spec_kind() }),
        pipeline.next(event).1 matches Action::Complete { result } ==> {
            &&& result.name == pipeline.name
            &&& pipeline.state == (PipelineState::Binding { digest: result.digest })
        },
{
}

/// Any failure ends the run at once, whatever the stage, except in the
/// streaming stage, where the other branch is waited for.
pub proof fn lemma_failure_short_circuits(pipeline: Pipeline)
    ensures
        pipeline.state is Idle ==> forall|reason: SetupError| #[trigger]
            pipeline.next(Event::SetupFailed { reason }).1 == (Action::Abandon {
                error: PipelineError::Setup { reason },
            }),
        pipeline.state is Building ==> forall|error: BuildError| #[trigger]
            pipeline.next(Event::BuildFailed { error }).1 == (Action::Abandon {
                error: PipelineError::Build { error },
            }),
        pipeline.state matches PipelineState::Binding { digest } ==> {
            &&& forall|endpoint: String| #[trigger]
                pipeline.next(
                    Event::BindFinished { answer: BindOutcome::Rejected { endpoint } },
                ).1 == (Action::Abandon {
                    error: PipelineError::AssociationRejected {
                        endpoint,
                        name: pipeline.name,
                        digest,
                    },
                })
            &&& forall|endpoint: String, cause: String| #[trigger]
                pipeline.next(
                    Event::BindFinished { answer: BindOutcome::Unreachable { endpoint, cause } },
                ).1 == (Action::Abandon {
                    error: PipelineError::AssociationUnreachable { endpoint, cause },
                })
        },
        forall|error: PipelineError|
            error is AssociationRejected ==> #[trigger] error.spec_kind()
                == ErrorKind::RemoteRejection,
        forall|error: PipelineError|
            error is AssociationUnreachable ==> #[trigger] error.spec_kind()
                == ErrorKind::Transport,
{
}

/// The streaming stage is left only when the branch that was still running
/// ends: both branches are awaited before the run goes on or fails.
pub proof fn lemma_streaming_waits_for_both(pipeline: Pipeline, event: Event)
    requires
        pipeline.state is Streaming,
        !(pipeline.next(event).0.state is Streaming),
    ensures
        pipeline.state matches PipelineState::Streaming { producer, consumer, .. } && {
            ||| event is ProducerFinished && producer == Branch::Running && consumer
                != Branch::Running
            ||| event is ConsumerFinished && consumer == Branch::Running && producer
                != Branch::Running
        },
{
}

/// Once a failure is on record in the streaming stage, no later event
/// replaces it: the run stays in the stage with that failure, or abandons
/// with it.
pub proof fn lemma_first_failure_is_kept(pipeline: Pipeline, event: Event)
    requires
        pipeline.state matches PipelineState::Streaming { failure, .. } && failure is Some,
    ensures
        ({
            let first = pipeline.state->Streaming_failure->0;
            let (after, action) = pipeline.next(event);
            ||| after.state matches PipelineState::Streaming { failure, .. } && failure == Some(
                first,
            ) && !action.ends_run()
            ||| action == (Action::Abandon { error: first })
        }),
{
}

/// A cancellation is never reported in place of a failure: where a branch
/// fails with nothing on record yet, its failure goes on record or ends the
/// run, whether or not the other branch was cancelled before.
pub proof fn lemma_cancellation_hides_no_failure(
    pipeline: Pipeline,
    message: String,
    cause: PublishFailure,
)
    requires
        pipeline.state matches PipelineState::Streaming { failure, .. } && failure is None,
    ensures
        pipeline.state->Streaming_producer == Branch::Running ==> ({
            let error = PipelineError::ArchiveFailed { message };
            let (after, action) = pipeline.next(
                Event::ProducerFinished { archive: ProducerOutcome::Failed { message } },
            );
            ||| after.state matches PipelineState::Streaming { failure, .. } && failure == Some(
                error,
            )
            ||| action == (Action::Abandon { error })
        }),
        pipeline.state->Streaming_consumer == Branch::Running ==> ({
            let error = PipelineError::Publish { failure: cause };
            let (after, action) = pipeline.next(
                Event::ConsumerFinished { publish: ConsumerOutcome::Failed { cause } },
            );
            ||| after.state matches PipelineState::Streaming { failure, .. } && failure == Some(
                error,
            )
            ||| action == (Action::Abandon { error })
        }),
{
}

/// A failed producer is what the run reports, however the consumer ends
/// after it: with a digest, with a failure of its own, or cancelled.
pub proof fn lemma_producer_failure_is_reported(
    name: String,
    message: String,
    consumer_end: ConsumerOutcome,
)
    ensures
        ({
            let begun = Pipeline { name, state: PipelineState::streaming_begun() };
            let (waiting, first_action) = begun.next(
                Event::ProducerFinished { archive: ProducerOutcome::Failed { message } },
            );
            let (ended, last_action) = waiting.next(
                Event::ConsumerFinished { publish: consumer_end },
            );
            &&& first_action == Action::AwaitConsumer
            &&& waiting.state is Streaming
            &&& last_action == (Action::Abandon { error: PipelineError::ArchiveFailed { message } })
            &&& ended.state == (PipelineState::Failed { kind: ErrorKind::Artifact })
        }),
{
}

/// A failed consumer is what the run reports, however the producer ends
/// after it; and the producer is told to stop, since nobody reads the pipe
/// any more.
pub proof fn lemma_consumer_failure_is_reported(
    name: String,
    cause: PublishFailure,
    producer_end: ProducerOutcome,
)
    ensures
        ({
            let begun = Pipeline { name, state: PipelineState::streaming_begun() };
            let (waiting, first_action) = begun.next(
                Event::ConsumerFinished { publish: ConsumerOutcome::Failed { cause } },
            );
            let (ended, last_action) = waiting.next(
                Event::ProducerFinished { archive: producer_end },
            );
            &&& first_action == Action::CancelProducer
            &&& waiting.state is Streaming
            &&& last_action == (Action::Abandon { error: PipelineError::Publish { failure: cause } })
            &&& ended.state == (PipelineState::Failed { kind: ErrorKind::Transport })
        }),
{
}

/// The two branches may end in either order: where both succeed, the run
/// binds the consumer's digest to the pipeline's name.
pub proof fn lemma_streaming_success_binds(name: String, digest: String)
    ensures
        ({
            let begun = Pipeline { name, state: PipelineState::streaming_begun() };
            let produced = Event::ProducerFinished { archive: ProducerOutcome::Completed };
            let published = Event::ConsumerFinished {
                publish: ConsumerOutcome::Published { digest },
            };
            let bind = Action::Bind { name, digest };
            let binding = Pipeline { name, state: PipelineState::Binding { digest } };
            &&& begun.next(produced).0.next(published) == (binding, bind)
            &&& begun.next(published).0.next(produced) == (binding, bind)
        }),
{
}

/// Failure can be reached from every state in which the run is not over.
pub proof fn lemma_failure_is_reachable(pipeline: Pipeline)
    requires
        !pipeline.state.is_terminal(),
        pipeline.state.well_formed(),
    ensures
        exists|events: Seq<Event>| #[trigger] pipeline.after(events).state is Failed,
{
    let cancel_producer = Event::ProducerFinished { archive: ProducerOutcome::Cancelled };
    let cancel_consumer = Event::ConsumerFinished { publish: ConsumerOutcome::Cancelled };
    let events = match pipeline.state {
        PipelineState::Idle => seq![
            Event::SetupFailed {
                reason: SetupError::InvalidProjectPath { path: pipeline.name },
            },
        ],
        PipelineState::Building => seq![Event::BuildFailed { error: BuildError::EmptyScript }],
        PipelineState::Streaming { .. } => seq![cancel_producer, cancel_consumer],
        _ => seq![
            Event::BindFinished { answer: BindOutcome::Rejected { endpoint: pipeline.name } },
        ],
    };
    let first = pipeline.next(events[0]).0;
    assert(events.drop_first().len() == events.len() - 1);
    if events.len() == 1 {
        assert(first.after(events.drop_first()) == first);
        assert(first.state is Failed);
    } else {
        let rest = events.drop_first();
        assert(rest[0] == cancel_consumer);
        let second = first.next(rest[0]).0;
        assert(rest.drop_first().len() == 0);
        assert(second.after(rest.drop_first()) == second);
        assert(first.after(rest) == second);
        assert(second.state is Failed);
    }
    assert(pipeline.after(events).state is Failed);
}

/// One event brings a run at most one event closer to `Done`, and a failed
/// run never gets there.
pub proof fn lemma_one_event_one_step(pipeline: Pipeline, event: Event)
    requires
        pipeline.state.well_formed(),
    ensures
        pipeline.events_to_done() is None ==> pipeline.next(event).0.events_to_done() is None,
        pipeline.next(event).0.events_to_done() matches Some(left) ==> {
            &&& pipeline.events_to_done() is Some
            &&& left + 1 >= pipeline.events_to_done()->0
        },
{
}

/// No run is `Done` before every stage has succeeded: from `Idle` that takes
/// five events at least (prepared, built, archived, published, bound), and
/// from any state at least as many as `events_to_done` says.
pub proof fn lemma_done_takes_every_stage(pipeline: Pipeline, events: Seq<Event>)
    requires
        pipeline.state.well_formed(),
        pipeline.after(events).state is Done,
    ensures
        pipeline.events_to_done() matches Some(needed) && events.len() >= needed,
    decreases events.len(),
{
    if events.len() > 0 {
        let stepped = pipeline.next(events[0]).0;
        lemma_steps_go_forward(pipeline, events[0]);
        lemma_one_event_one_step(pipeline, events[0]);
        lemma_done_takes_every_stage(stepped, events.drop_first());
    }
}

/// Failures of configuration and validation end the run before the network
/// is touched: a run is abandoned with a failure of one of these classes only
/// before the streaming stage has begun.
pub proof fn lemma_fail_fast_before_the_network(pipeline: Pipeline, event: Event)
    requires
        pipeline.state.well_formed(),
        pipeline.next(event).1 matches Action::Abandon { error } && (error.spec_kind()
            == ErrorKind::Configuration || error.spec_kind() == ErrorKind::Validation),
    ensures
        pipeline.state is Idle || pipeline.state is Building,
{
}

/// Every state that a run can get into is well formed: a new run is, and
/// no sequence of events leads out of the well-formed states.
pub proof fn lemma_runs_stay_well_formed(pipeline: Pipeline, events: Seq<Event>)
    requires
        pipeline.state.well_formed(),
    ensures
        pipeline.after(events).state.well_formed(),
        PipelineState::Idle.well_formed(),
    decreases events.len(),
{
    if events.len() > 0 {
        lemma_steps_go_forward(pipeline, events[0]);
        lemma_runs_stay_well_formed(pipeline.next(events[0]).0, events.drop_first());
    }
}

} // verus!
