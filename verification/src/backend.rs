//! The build backends as one closed choice.
//!
//! A configuration selects exactly one backend. The selection is made once,
//! when the build starts, and a run keeps its backend to the end: every step
//! is dispatched by an exhaustive match on the variant.
use vstd::prelude::*;
use crate::custom::CustomBuild;
use crate::custom::CustomBuildView;
use crate::custom::ScriptStage;
use crate::effect::BuildContext;
use crate::effect::BuildContextView;
use crate::effect::Effect;
use crate::effect::EffectView;
use crate::effect::Reply;
use crate::effect::ReplyView;
use crate::effect::Step;
use crate::effect::StepView;
use crate::rust::CompiledStage;
use crate::rust::CompiledStageView;
use crate::rust::RustBuild;
use crate::rust::RustBuildConfig;
use crate::rust::RustBuildConfigView;
use crate::rust::RustBuildView;

verus! {

/// The build that a configuration selects.
#[derive(Debug, Clone, PartialEq, Eq)]
pub enum Build {
    /// A script of the user's.
    Custom { build: CustomBuild },
    /// A compilation by the toolchain.
    Rust { config: RustBuildConfig },
}

/// The mathematical content of a [`Build`].
pub enum BuildView {
    Custom { build: CustomBuildView },
    Rust { config: RustBuildConfigView },
}

impl View for Build {
    type V = BuildView;

    open spec fn view(&self) -> BuildView {
        match *self {
            Build::Custom { build } => BuildView::Custom { build: build@ },
            Build::Rust { config } => BuildView::Rust { config: config@ },
        }
    }
}

/// A build under way: the backend and the stage it is in.
#[derive(Debug, Clone, PartialEq, Eq)]
pub enum BuildRun {
    Script { build: CustomBuild, stage: ScriptStage },
    Compiled { build: RustBuild, stage: CompiledStage },
}

/// The mathematical content of a [`BuildRun`].
pub enum BuildRunView {
    Script { build: CustomBuildView, stage: ScriptStage },
    Compiled { build: RustBuildView, stage: CompiledStageView },
}

impl View for BuildRun {
    type V = BuildRunView;

    open spec fn view(&self) -> BuildRunView {
        match *self {
            BuildRun::Script { build, stage } => BuildRunView::Script { build: build@, stage },
            BuildRun::Compiled { build, stage } => BuildRunView::Compiled {
                build: build@,
                stage: stage@,
            },
        }
    }
}

/// A step of the script backend as a step of a run.
pub open spec fn script_step(build: CustomBuildView, step: StepView<ScriptStage>) -> StepView<
    BuildRunView,
> {
    match step {
        StepView::Continue { stage } => StepView::Continue {
            stage: BuildRunView::Script { build, stage },
        },
        StepView::Succeeded { report } => StepView::Succeeded { report },
        StepView::Failed { error } => StepView::Failed { error },
    }
}

/// A step of the compiled backend as a step of a run.
pub open spec fn compiled_step(build: RustBuildView, step: StepView<CompiledStageView>) -> StepView<
    BuildRunView,
> {
    match step {
        StepView::Continue { stage } => StepView::Continue {
            stage: BuildRunView::Compiled { build, stage },
        },
        StepView::Succeeded { report } => StepView::Succeeded { report },
        StepView::Failed { error } => StepView::Failed { error },
    }
}

impl BuildView {
    /// Where the selected build starts.
    pub open spec fn start(self) -> StepView<BuildRunView> {
        match self {
            BuildView::Custom { build } => script_step(build, build.start()),
            BuildView::Rust { config } => StepView::Continue {
                stage: BuildRunView::Compiled {
                    build: RustBuildView::of_config(config),
                    stage: CompiledStageView::CheckManifest,
                },
            },
        }
    }
}

impl BuildRunView {
    /// What the run asks of the caller.
    pub open spec fn request(self, ctx: BuildContextView) -> EffectView {
        match self {
            BuildRunView::Script { build, stage } => build.request(ctx, stage),
            BuildRunView::Compiled { build, stage } => build.request(ctx, stage),
        }
    }

    /// Where the run stands after the caller's reply.
    pub open spec fn advance(self, ctx: BuildContextView, reply: ReplyView) -> StepView<
        BuildRunView,
    > {
        match self {
            BuildRunView::Script { build, stage } => script_step(
                build,
                build.advance(ctx, stage, reply),
            ),
            BuildRunView::Compiled { build, stage } => compiled_step(
                build,
                build.advance(ctx, stage, reply),
            ),
        }
    }

    /// Whether two runs are of the same backend with the same configuration.
    pub open spec fn same_backend(self, other: BuildRunView) -> bool {
        match (self, other) {
            (
                BuildRunView::Script { build: a, .. },
                BuildRunView::Script { build: b, .. },
            ) => a == b,
            (
                BuildRunView::Compiled { build: a, .. },
                BuildRunView::Compiled { build: b, .. },
            ) => a == b,
            _ => false,
        }
    }
}

impl Build {
    /// Starts the selected build: validates what can be validated at once
    /// and names the first stage.
    pub fn start(self) -> (step: Step<BuildRun>)
        ensures
            step@ == self@.start(),
    {
        match self {
            Build::Custom { build } => {
                match build.start() {
                    Step::Continue { stage } => Step::Continue {
                        stage: BuildRun::Script { build, stage },
                    },
                    Step::Succeeded { report } => Step::Succeeded { report },
                    Step::Failed { error } => Step::Failed { error },
                }
            },
            Build::Rust { config } => {
                let build = RustBuild::from_config(config);
                Step::Continue {
                    stage: BuildRun::Compiled { build, stage: CompiledStage::CheckManifest },
                }
            },
        }
    }
}

impl BuildRun {
    /// What the run asks of the caller in the stage it is in.
    pub fn request(&self, ctx: &BuildContext) -> (effect: Effect)
        ensures
            effect@ == self@.request(ctx@),
    {
        match self {
            BuildRun::Script { build, stage } => build.request(ctx, *stage),
            BuildRun::Compiled { build, stage } => build.request(ctx, stage),
        }
    }

    /// Takes the caller's reply and says where the run stands now.
    pub fn advance(self, ctx: &BuildContext, reply: Reply) -> (step: Step<BuildRun>)
        ensures
            step@ == self@.advance(ctx@, reply@),
    {
        match self {
            BuildRun::Script { build, stage } => {
                match build.advance(ctx, stage, reply) {
                    Step::Continue { stage } => Step::Continue {
                        stage: BuildRun::Script { build, stage },
                    },
                    Step::Succeeded { report } => Step::Succeeded { report },
                    Step::Failed { error } => Step::Failed { error },
                }
            },
            BuildRun::Compiled { build, stage } => {
                match build.advance(ctx, stage, reply) {
                    Step::Continue { stage } => Step::Continue {
                        stage: BuildRun::Compiled { build, stage },
                    },
                    Step::Succeeded { report } => Step::Succeeded { report },
                    Step::Failed { error } => Step::Failed { error },
                }
            },
        }
    }
}

/// A run keeps the backend that the configuration selected, and the
/// backend's configuration, from its first stage to its last.
pub proof fn lemma_backend_is_fixed(
    build: BuildView,
    run: BuildRunView,
    ctx: BuildContextView,
    reply: ReplyView,
)
    ensures
        build.start() matches StepView::Continue { stage: started } ==> match build {
            BuildView::Custom { build: script } => started matches BuildRunView::Script {
                build: kept,
                ..
            } && kept == script,
            BuildView::Rust { config } => started matches BuildRunView::Compiled {
                build: kept,
                ..
            } && kept == RustBuildView::of_config(config),
        },
        run.advance(ctx, reply) matches StepView::Continue { stage: next } ==> next.same_backend(
            run,
        ),
{
}

} // verus!
