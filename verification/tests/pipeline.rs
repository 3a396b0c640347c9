use nocti::effect::BuildReport;
use nocti::error::BuildError;
use nocti::error::ErrorKind;
use nocti::pipeline::Action;
use nocti::pipeline::BindOutcome;
use nocti::pipeline::Branch;
use nocti::pipeline::ConsumerOutcome;
use nocti::pipeline::Event;
use nocti::pipeline::Pipeline;
use nocti::pipeline::PipelineError;
use nocti::pipeline::PipelineResult;
use nocti::pipeline::PipelineState;
use nocti::pipeline::ProducerOutcome;
use nocti::pipeline::PublishFailure;
use nocti::pipeline::SetupError;

fn built() -> Event {
    Event::BuildSucceeded { report: BuildReport { output_empty: false } }
}

fn prepared() -> Event {
    Event::Prepared { name: "demo".to_string() }
}

fn stream_failed() -> PublishFailure {
    PublishFailure::StreamFailed {
        endpoint: "http://registry:50001".to_string(),
        cause: "broken pipe".to_string(),
    }
}

fn registry_unreachable() -> PublishFailure {
    PublishFailure::RegistryUnreachable {
        endpoint: "http://registry:50001".to_string(),
        cause: "connection refused".to_string(),
    }
}

fn produced() -> Event {
    Event::ProducerFinished { archive: ProducerOutcome::Completed }
}

fn published(digest: &str) -> Event {
    Event::ConsumerFinished { publish: ConsumerOutcome::Published { digest: digest.to_string() } }
}

fn streaming() -> Pipeline {
    let (pipeline, _) = Pipeline::new().step(prepared());
    let (pipeline, action) = pipeline.step(built());
    assert_eq!(action, Action::StartStreaming);
    pipeline
}

fn run(mut pipeline: Pipeline, events: Vec<Event>) -> (Pipeline, Action) {
    let mut last = Action::Ignore;
    for event in events {
        let (next, action) = pipeline.step(event);
        pipeline = next;
        last = action;
    }
    (pipeline, last)
}

#[test]
fn a_run_goes_through_every_stage() {
    let pipeline = Pipeline::new();
    assert_eq!(pipeline.state, PipelineState::Idle);
    assert_eq!(pipeline.name, "");

    let (pipeline, action) = pipeline.step(prepared());
    assert_eq!(pipeline.name, "demo");
    assert_eq!(pipeline.state, PipelineState::Building);
    assert_eq!(action, Action::RunBuild);

    let (pipeline, action) = pipeline.step(built());
    assert_eq!(
        pipeline.state,
        PipelineState::Streaming {
            producer: Branch::Running,
            consumer: Branch::Running,
            published: None,
            failure: None,
        }
    );
    assert_eq!(action, Action::StartStreaming);

    let (pipeline, action) = pipeline.step(produced());
    assert_eq!(
        pipeline.state,
        PipelineState::Streaming {
            producer: Branch::Succeeded,
            consumer: Branch::Running,
            published: None,
            failure: None,
        }
    );
    assert_eq!(action, Action::AwaitConsumer);

    let (pipeline, action) = pipeline.step(published("sha256:abc"));
    assert_eq!(pipeline.state, PipelineState::Binding { digest: "sha256:abc".to_string() });
    assert_eq!(
        action,
        Action::Bind { name: "demo".to_string(), digest: "sha256:abc".to_string() }
    );

    let (pipeline, action) = pipeline.step(Event::BindFinished { answer: BindOutcome::Accepted });
    assert_eq!(pipeline.state, PipelineState::Done);
    assert_eq!(
        action,
        Action::Complete {
            result: PipelineResult { digest: "sha256:abc".to_string(), name: "demo".to_string() }
        }
    );
    assert_eq!(pipeline.name, "demo");
}

#[test]
fn the_consumer_may_end_first() {
    let (pipeline, action) = streaming().step(published("d1"));
    assert_eq!(action, Action::AwaitProducer);
    assert_eq!(
        pipeline.state,
        PipelineState::Streaming {
            producer: Branch::Running,
            consumer: Branch::Succeeded,
            published: Some("d1".to_string()),
            failure: None,
        }
    );
    let (pipeline, action) = pipeline.step(produced());
    assert_eq!(pipeline.state, PipelineState::Binding { digest: "d1".to_string() });
    assert_eq!(action, Action::Bind { name: "demo".to_string(), digest: "d1".to_string() });
}

#[test]
fn setup_failures_end_the_run() {
    let path = || "/work/project/Nocti.toml".to_string();
    let cause = || "expected `=`".to_string();
    let cases = [
        (
            SetupError::InvalidProjectPath { path: "/work/project".to_string() },
            ErrorKind::Configuration,
        ),
        (SetupError::MissingConfigFile { path: path() }, ErrorKind::Configuration),
        (SetupError::UnreadableConfig { path: path(), cause: cause() }, ErrorKind::Configuration),
        (SetupError::MalformedConfig { path: path(), cause: cause() }, ErrorKind::Configuration),
        (SetupError::StagingUnavailable { cause: cause() }, ErrorKind::Execution),
    ];
    for (reason, kind) in cases {
        let (pipeline, action) =
            Pipeline::new().step(Event::SetupFailed { reason: reason.clone() });
        assert_eq!(pipeline.state, PipelineState::Failed { kind });
        assert_eq!(action, Action::Abandon { error: PipelineError::Setup { reason } });
    }
}

#[test]
fn a_failed_build_ends_the_run() {
    let (pipeline, _) = Pipeline::new().step(prepared());
    let error = BuildError::NonZeroExit { code: Some(3) };
    let (pipeline, action) = pipeline.step(Event::BuildFailed { error: error.clone() });
    assert_eq!(pipeline.state, PipelineState::Failed { kind: ErrorKind::Execution });
    assert_eq!(action, Action::Abandon { error: PipelineError::Build { error } });

    let (pipeline, _) = Pipeline::new().step(prepared());
    let (pipeline, _) = pipeline.step(Event::BuildFailed { error: BuildError::EmptyScript });
    assert_eq!(pipeline.state, PipelineState::Failed { kind: ErrorKind::Configuration });
}

#[test]
fn a_producer_failure_is_reported_after_the_consumer_has_ended() {
    let failed = Event::ProducerFinished {
        archive: ProducerOutcome::Failed { message: "unreadable file".to_string() },
    };
    let (pipeline, action) = streaming().step(failed);
    // the run is not over: the consumer is waited for
    assert_eq!(action, Action::AwaitConsumer);
    assert!(matches!(pipeline.state, PipelineState::Streaming { .. }));

    // the consumer sees a clean end of stream and gets a digest all the same
    let (pipeline, action) = pipeline.step(published("truncated"));
    assert_eq!(pipeline.state, PipelineState::Failed { kind: ErrorKind::Artifact });
    assert_eq!(
        action,
        Action::Abandon {
            error: PipelineError::ArchiveFailed { message: "unreadable file".to_string() }
        }
    );
}

#[test]
fn the_first_failure_is_the_one_reported() {
    let producer_failed = || Event::ProducerFinished {
        archive: ProducerOutcome::Failed { message: "tar".to_string() },
    };
    let consumer_failed = || Event::ConsumerFinished {
        publish: ConsumerOutcome::Failed { cause: stream_failed() },
    };

    let (_, action) = run(streaming(), vec![producer_failed(), consumer_failed()]);
    assert_eq!(
        action,
        Action::Abandon { error: PipelineError::ArchiveFailed { message: "tar".to_string() } }
    );

    let (pipeline, action) = run(streaming(), vec![consumer_failed(), producer_failed()]);
    assert_eq!(
        action,
        Action::Abandon { error: PipelineError::Publish { failure: stream_failed() } }
    );
    assert_eq!(pipeline.state, PipelineState::Failed { kind: ErrorKind::Transport });
}

#[test]
fn a_failed_consumer_has_the_producer_cancelled() {
    let unreachable = Event::ConsumerFinished {
        publish: ConsumerOutcome::Failed { cause: registry_unreachable() },
    };
    let (pipeline, action) = streaming().step(unreachable);
    assert_eq!(action, Action::CancelProducer);
    assert!(matches!(pipeline.state, PipelineState::Streaming { .. }));

    let cancelled = Event::ProducerFinished { archive: ProducerOutcome::Cancelled };
    let (pipeline, action) = pipeline.step(cancelled);
    assert_eq!(pipeline.state, PipelineState::Failed { kind: ErrorKind::Transport });
    assert_eq!(
        action,
        Action::Abandon {
            error: PipelineError::Publish { failure: registry_unreachable() }
        }
    );
}

#[test]
fn a_cancellation_alone_is_reported_as_such() {
    let cancel_producer = || Event::ProducerFinished { archive: ProducerOutcome::Cancelled };
    let cancel_consumer = || Event::ConsumerFinished { publish: ConsumerOutcome::Cancelled };

    let (_, action) = run(streaming(), vec![cancel_producer(), published("d")]);
    assert_eq!(action, Action::Abandon { error: PipelineError::ArchiveAborted });

    let (_, action) = run(streaming(), vec![produced(), cancel_consumer()]);
    assert_eq!(action, Action::Abandon { error: PipelineError::PublishAborted });

    let (_, action) = run(streaming(), vec![cancel_consumer(), cancel_producer()]);
    assert_eq!(action, Action::Abandon { error: PipelineError::ArchiveAborted });

    // a failure after a cancellation is still the failure that is reported
    let failed = Event::ProducerFinished {
        archive: ProducerOutcome::Failed { message: "broken pipe".to_string() },
    };
    let (_, action) = run(streaming(), vec![cancel_consumer(), failed]);
    assert_eq!(
        action,
        Action::Abandon {
            error: PipelineError::ArchiveFailed { message: "broken pipe".to_string() }
        }
    );
}

#[test]
fn rejection_and_unreachability_are_told_apart() {
    let binding = || run(streaming(), vec![produced(), published("d")]).0;

    let endpoint = || "http://control:50002".to_string();
    let rejected = BindOutcome::Rejected { endpoint: endpoint() };
    let (pipeline, action) = binding().step(Event::BindFinished { answer: rejected });
    assert_eq!(pipeline.state, PipelineState::Failed { kind: ErrorKind::RemoteRejection });
    assert_eq!(
        action,
        Action::Abandon {
            error: PipelineError::AssociationRejected {
                endpoint: endpoint(),
                name: "demo".to_string(),
                digest: "d".to_string(),
            }
        }
    );

    let unreachable =
        BindOutcome::Unreachable { endpoint: endpoint(), cause: "timed out".to_string() };
    let (pipeline, action) = binding().step(Event::BindFinished { answer: unreachable });
    assert_eq!(pipeline.state, PipelineState::Failed { kind: ErrorKind::Transport });
    assert_eq!(
        action,
        Action::Abandon {
            error: PipelineError::AssociationUnreachable {
                endpoint: endpoint(),
                cause: "timed out".to_string(),
            }
        }
    );
}

#[test]
fn a_finished_run_ignores_every_event() {
    let (done, _) = run(
        streaming(),
        vec![produced(), published("d"), Event::BindFinished { answer: BindOutcome::Accepted }],
    );
    assert_eq!(done.state, PipelineState::Done);
    let (failed, _) =
        Pipeline::new().step(Event::SetupFailed {
            reason: SetupError::StagingUnavailable { cause: "no space".to_string() },
        });
    for pipeline in [done, failed] {
        for event in [
            prepared(),
            built(),
            produced(),
            published("x"),
            Event::BindFinished { answer: BindOutcome::Accepted },
            Event::BuildFailed { error: BuildError::WaitFailure },
        ] {
            let (after, action) = pipeline.clone().step(event);
            assert_eq!(after, pipeline);
            assert_eq!(action, Action::Ignore);
        }
    }
}

#[test]
fn events_of_another_stage_are_ignored() {
    let idle = Pipeline::new();
    let (after, action) = idle.clone().step(built());
    assert_eq!((after, action), (idle.clone(), Action::Ignore));
    let (after, action) = idle.clone().step(published("d"));
    assert_eq!((after, action), (idle, Action::Ignore));

    let begun = streaming();
    let (after, action) = begun.clone().step(prepared());
    assert_eq!((after, action), (begun.clone(), Action::Ignore));
    let (after, action) = begun.clone().step(Event::BindFinished { answer: BindOutcome::Accepted });
    assert_eq!((after, action), (begun, Action::Ignore));

    // a branch ends once
    let (waiting, _) = streaming().step(produced());
    let (after, action) = waiting.clone().step(produced());
    assert_eq!((after, action), (waiting, Action::Ignore));
}

#[test]
fn pipeline_error_kinds() {
    assert_eq!(
        PipelineError::ArchiveFailed { message: "m".to_string() }.kind(),
        ErrorKind::Artifact
    );
    assert_eq!(PipelineError::ArchiveAborted.kind(), ErrorKind::Artifact);
    assert_eq!(PipelineError::PublishAborted.kind(), ErrorKind::Transport);
    assert_eq!(
        PipelineError::Publish { failure: registry_unreachable() }.kind(),
        ErrorKind::Transport
    );
    let text = || "x".to_string();
    assert_eq!(
        PipelineError::AssociationUnreachable { endpoint: text(), cause: text() }.kind(),
        ErrorKind::Transport
    );
    assert_eq!(
        PipelineError::AssociationRejected { endpoint: text(), name: text(), digest: text() }
            .kind(),
        ErrorKind::RemoteRejection
    );
    assert_eq!(
        PipelineError::Build { error: BuildError::MissingManifest { path: "p".to_string() } }.kind(),
        ErrorKind::Validation
    );
}
