//! The compiled backend: a build that asks the toolchain what the project
//! holds, compiles it, and picks up the binary.
use vstd::prelude::*;
use crate::effect::BuildContext;
use crate::effect::BuildContextView;
use crate::effect::BuildReport;
use crate::effect::Effect;
use crate::effect::EffectView;
use crate::effect::Reply;
use crate::effect::ReplyView;
use crate::effect::Step;
use crate::effect::StepView;
use crate::error::BuildError;
use crate::error::BuildErrorView;
use crate::metadata::CargoMetadataView;
use crate::process::ExecutionError;
use crate::process::ExitOutcome;
use crate::process::ProcessExecution;
use crate::process::ProcessExecutionView;
use crate::process::StdioMode;
use crate::process::check_exit;
use crate::process::exit_verdict;
use crate::metadata::CargoMetadata;
use crate::metadata::Package;
use crate::metadata::PackageView;
use crate::metadata::Target;
use crate::metadata::TargetView;
use crate::paths::joined;
use crate::paths::path_eq;
use crate::paths::path_join;
use crate::paths::same_path;
use crate::seqs::first_index;
use crate::seqs::lemma_first_match;
use crate::seqs::lemma_first_match_found;
use crate::seqs::lemma_first_match_none;
use crate::text::lowercased;
use crate::text::opt_text;
use crate::text::same_text;
use crate::text::to_lowercase;

verus! {

/// The target that a build compiles for unless it is told otherwise.
pub open spec fn spec_default_target() -> Seq<char> {
    "x86_64-unknown-linux-musl"@
}

/// The name of the profile that a configuration without one asks for.
pub open spec fn spec_default_profile() -> Seq<char> {
    "release"@
}

/// The name of the project's manifest file.
pub open spec fn manifest_name() -> Seq<char> {
    "Cargo.toml"@
}

/// The directory below the project that the toolchain builds into.
pub open spec fn build_dir_name() -> Seq<char> {
    "target"@
}

/// The name under which the binary is put into the output directory.
pub open spec fn artifact_name() -> Seq<char> {
    "bootstrap"@
}

/// The build configuration that optimises, or the one that does not.
#[derive(Debug, Clone, Copy, PartialEq, Eq, Structural)]
pub enum BuildProfile {
    Release,
    Debug,
}

impl BuildProfile {
    /// The profile that a lower-case name stands for: `Debug` for `"debug"`,
    /// `Release` for every other name.
    pub open spec fn of_lowercase(name: Seq<char>) -> BuildProfile {
        if name == "debug"@ {
            BuildProfile::Debug
        } else {
            BuildProfile::Release
        }
    }

    /// The directory below the build directory that the profile builds into.
    pub open spec fn dir_name(self) -> Seq<char> {
        match self {
            BuildProfile::Release => "release"@,
            BuildProfile::Debug => "debug"@,
        }
    }

    /// The profile that a lower-case name stands for.
    pub fn from_lowercase(name: &str) -> (profile: BuildProfile)
        ensures
            profile == BuildProfile::of_lowercase(name@),
    {
        if same_text(name, "debug") {
            BuildProfile::Debug
        } else {
            BuildProfile::Release
        }
    }
}

/// The name of the profile that a configuration without one asks for.
pub fn default_profile() -> (name: String)
    ensures
        name@ == spec_default_profile(),
{
    "release".to_string()
}

/// A compiled build as a configuration file states it.
#[derive(Debug, Clone, PartialEq, Eq)]
pub struct RustBuildConfig {
    /// The target triple to compile for.
    pub target: Option<String>,
    /// The name of the profile, in any case of letters.
    pub profile: String,
    /// The package to build, where the workspace has several.
    pub package_name: Option<String>,
    /// The binary to pick up, where the package has several.
    pub binary_name: Option<String>,
}

/// The mathematical content of a [`RustBuildConfig`].
pub struct RustBuildConfigView {
    pub target: Option<Seq<char>>,
    pub profile: Seq<char>,
    pub package_name: Option<Seq<char>>,
    pub binary_name: Option<Seq<char>>,
}

impl View for RustBuildConfig {
    type V = RustBuildConfigView;

    open spec fn view(&self) -> RustBuildConfigView {
        RustBuildConfigView {
            target: opt_text(self.target),
            profile: self.profile@,
            package_name: opt_text(self.package_name),
            binary_name: opt_text(self.binary_name),
        }
    }
}

impl RustBuildConfig {
    /// A configuration of the given parts.
    pub fn new(
        target: Option<String>,
        profile: String,
        package_name: Option<String>,
        binary_name: Option<String>,
    ) -> (config: RustBuildConfig)
        ensures
            config.target == target,
            config.profile == profile,
            config.package_name == package_name,
            config.binary_name == binary_name,
    {
        RustBuildConfig { target, profile, package_name, binary_name }
    }
}

/// A compiled build.
#[derive(Debug, Clone, PartialEq, Eq)]
pub struct RustBuild {
    /// The target triple to compile for; the toolchain's own where absent.
    pub target: Option<String>,
    pub profile: BuildProfile,
    /// The package to build; where absent, the one at the project root, else
    /// the first.
    pub package_name: Option<String>,
    /// The binary to pick up; where absent, the first binary of the package.
    pub binary_name: Option<String>,
}

/// The mathematical content of a [`RustBuild`].
pub struct RustBuildView {
    pub target: Option<Seq<char>>,
    pub profile: BuildProfile,
    pub package_name: Option<Seq<char>>,
    pub binary_name: Option<Seq<char>>,
}

impl View for RustBuild {
    type V = RustBuildView;

    open spec fn view(&self) -> RustBuildView {
        RustBuildView {
            target: opt_text(self.target),
            profile: self.profile,
            package_name: opt_text(self.package_name),
            binary_name: opt_text(self.binary_name),
        }
    }
}

impl RustBuildView {
    /// The build that nothing has been configured on yet.
    pub open spec fn initial() -> RustBuildView {
        RustBuildView {
            target: Some(spec_default_target()),
            profile: BuildProfile::Release,
            package_name: None,
            binary_name: None,
        }
    }

    /// The build that a configuration asks for: the target, the package and
    /// the binary as the configuration names them, each unset where it names
    /// none, and the profile by its lower-case name.
    pub open spec fn of_config(config: RustBuildConfigView) -> RustBuildView {
        RustBuildView {
            target: config.target,
            profile: BuildProfile::of_lowercase(lowercased(config.profile)),
            package_name: config.package_name,
            binary_name: config.binary_name,
        }
    }

    /// The package that the build resolves to, as a position in the list: the
    /// first of the configured name where a name is configured; else the first
    /// whose manifest is the one at the project root; else the first.
    pub open spec fn resolve_package(
        self,
        packages: Seq<PackageView>,
        project_path: Seq<char>,
    ) -> Result<int, BuildErrorView> {
        match self.package_name {
            Some(name) => match first_index(packages, |p: PackageView| p.name == name) {
                Some(i) => Ok(i),
                None => Err(BuildErrorView::PackageNotFound { name }),
            },
            None => {
                let root_manifest = joined(project_path, manifest_name());
                match first_index(
                    packages,
                    |p: PackageView| same_path(p.manifest_path, root_manifest),
                ) {
                    Some(i) => Ok(i),
                    None => if packages.len() > 0 {
                        Ok(0)
                    } else {
                        Err(BuildErrorView::NoPackagesFound)
                    },
                }
            },
        }
    }

    /// The binary target that the build resolves to within a package, as a
    /// position in the package's targets: the first binary of the configured
    /// name where a name is configured; else the first binary.
    pub open spec fn resolve_binary(self, package: PackageView) -> Result<int, BuildErrorView> {
        match self.binary_name {
            Some(name) => match first_index(
                package.targets,
                |t: TargetView| t.is_binary() && t.name == name,
            ) {
                Some(i) => Ok(i),
                None => Err(
                    BuildErrorView::BinaryTargetNotFound { name, package: package.name },
                ),
            },
            None => match first_index(package.targets, |t: TargetView| t.is_binary()) {
                Some(i) => Ok(i),
                None => Err(
                    BuildErrorView::NoBinaryTargets {
                        package: package.name,
                        available: package.targets.map_values(|t: TargetView| t.name),
                    },
                ),
            },
        }
    }

    /// The directory that the binary is built into: the build directory of
    /// the project, then the target triple where one is set, then the
    /// profile's directory.
    pub open spec fn binary_dir(self, project_path: Seq<char>) -> Seq<char> {
        let build_dir = joined(project_path, build_dir_name());
        let target_dir = match self.target {
            Some(target) => joined(build_dir, target),
            None => build_dir,
        };
        joined(target_dir, self.profile.dir_name())
    }

    /// Where the binary of the given name is expected after the build.
    pub open spec fn binary_path(self, project_path: Seq<char>, binary_name: Seq<char>) -> Seq<
        char,
    > {
        joined(self.binary_dir(project_path), binary_name)
    }
}

impl From<RustBuildConfig> for RustBuild {
    /// The build that a configuration asks for.
    fn from(config: RustBuildConfig) -> (build: RustBuild)
        ensures
            build@ == RustBuildView::of_config(config@),
    {
        RustBuild::from_config(config)
    }
}

impl vstd::std_specs::convert::FromSpecImpl<RustBuildConfig> for RustBuild {
    /// The conversion is stated over the content of the build, by the
    /// `ensures` of `from`: no one value of `RustBuild` is singled out.
    open spec fn obeys_from_spec() -> bool {
        false
    }

    open spec fn from_spec(config: RustBuildConfig) -> RustBuild {
        choose|build: RustBuild| build@ == RustBuildView::of_config(config@)
    }
}

impl Default for RustBuild {
    /// The build that nothing has been configured on yet: a release build
    /// for the default target, of whatever package and binary resolve.
    fn default() -> (build: RustBuild)
        ensures
            build@ == RustBuildView::initial(),
    {
        RustBuild {
            target: Some("x86_64-unknown-linux-musl".to_string()),
            profile: BuildProfile::Release,
            package_name: None,
            binary_name: None,
        }
    }
}

impl RustBuild {
    /// The build that nothing has been configured on yet.
    pub fn new() -> (build: RustBuild)
        ensures
            build@ == RustBuildView::initial(),
    {
        RustBuild {
            target: Some("x86_64-unknown-linux-musl".to_string()),
            profile: BuildProfile::Release,
            package_name: None,
            binary_name: None,
        }
    }

    /// The same build for another target.
    pub fn target(self, target: String) -> (build: RustBuild)
        ensures
            build@ == (RustBuildView { target: Some(target@), ..self@ }),
    {
        let mut build = self;
        build.target = Some(target);
        build
    }

    /// The same build under another profile.
    pub fn profile(self, profile: BuildProfile) -> (build: RustBuild)
        ensures
            build@ == (RustBuildView { profile: profile, ..self@ }),
    {
        let mut build = self;
        build.profile = profile;
        build
    }

    /// The same build of the package of the given name.
    pub fn package_name(self, name: &str) -> (build: RustBuild)
        ensures
            build@ == (RustBuildView { package_name: Some(name@), ..self@ }),
    {
        let mut build = self;
        build.package_name = Some(name.to_string());
        build
    }

    /// The same build picking up the binary of the given name.
    pub fn binary_name(self, name: &str) -> (build: RustBuild)
        ensures
            build@ == (RustBuildView { binary_name: Some(name@), ..self@ }),
    {
        let mut build = self;
        build.binary_name = Some(name.to_string());
        build
    }

    /// The build that a configuration asks for. A target that the
    /// configuration does not set stays unset: the toolchain then builds for
    /// its own target, and the binary is expected without a triple's directory.
    pub fn from_config(config: RustBuildConfig) -> (build: RustBuild)
        ensures
            build@ == RustBuildView::of_config(config@),
    {
        let lower = to_lowercase(config.profile.as_str());
        let profile = BuildProfile::from_lowercase(lower.as_str());
        RustBuild {
            target: config.target,
            profile,
            package_name: config.package_name,
            binary_name: config.binary_name,
        }
    }

    /// Resolves the package to build among those of the metadata.
    ///
    /// A configured name selects the first package of that name and fails
    /// with `PackageNotFound` where there is none. Without a name, the first
    /// package whose manifest is the project root's is selected; where there
    /// is none, the first package; `NoPackagesFound` where the list is empty.
    pub fn find_package<'a>(&self, metadata: &'a CargoMetadata, project_path: &str) -> (r: Result<
        &'a Package,
        BuildError,
    >)
        ensures
            match r {
                Ok(package) => {
                    &&& self@.resolve_package(metadata@.packages, project_path@) matches Ok(i)
                    &&& 0 <= i < metadata.packages@.len()
                    &&& *package == metadata.packages@[i]
                },
                Err(e) => self@.resolve_package(metadata@.packages, project_path@) == Err::<
                    int,
                    BuildErrorView,
                >(e@),
            },
    {
        let ghost packages = metadata@.packages;
        match &self.package_name {
            Some(name) => {
                let ghost pred = |p: PackageView| p.name == name@;
                let mut i: usize = 0;
                while i < metadata.packages.len()
                    invariant
                        i <= metadata.packages.len(),
                        packages == metadata@.packages,
                        pred == (|p: PackageView| p.name == name@),
                        self@.package_name == Some(name@),
                        forall|j: int| 0 <= j < i ==> !pred(#[trigger] packages[j]),
                    decreases metadata.packages.len() - i,
                {
                    assert(packages[i as int] == metadata.packages@[i as int]@);
                    if metadata.packages[i].name == *name {
                        proof {
                            lemma_first_match_found(packages, pred, 0, i as int);
                        }
                        return Ok(&metadata.packages[i]);
                    }
                    i += 1;
                }
                proof {
                    lemma_first_match_none(packages, pred, 0);
                }
                Err(BuildError::PackageNotFound { name: name.clone() })
            },
            None => {
                let root_manifest = path_join(project_path, "Cargo.toml");
                let ghost pred = |p: PackageView| same_path(p.manifest_path, root_manifest@);
                let mut i: usize = 0;
                while i < metadata.packages.len()
                    invariant
                        i <= metadata.packages.len(),
                        packages == metadata@.packages,
                        pred == (|p: PackageView| same_path(p.manifest_path, root_manifest@)),
                        self@.package_name is None,
                        root_manifest@ == joined(project_path@, manifest_name()),
                        forall|j: int| 0 <= j < i ==> !pred(#[trigger] packages[j]),
                    decreases metadata.packages.len() - i,
                {
                    assert(packages[i as int] == metadata.packages@[i as int]@);
                    if path_eq(metadata.packages[i].manifest_path.as_str(), root_manifest.as_str()) {
                        proof {
                            lemma_first_match_found(packages, pred, 0, i as int);
                        }
                        return Ok(&metadata.packages[i]);
                    }
                    i += 1;
                }
                proof {
                    lemma_first_match_none(packages, pred, 0);
                }
                if metadata.packages.len() > 0 {
                    Ok(&metadata.packages[0])
                } else {
                    Err(BuildError::NoPackagesFound)
                }
            },
        }
    }

    /// Resolves the binary to pick up among the targets of a package.
    ///
    /// A configured name selects the first binary target of that name and
    /// fails with `BinaryTargetNotFound` where there is none. Without a name
    /// the first binary target is selected; where the package has none, the
    /// failure `NoBinaryTargets` lists the names of the targets it has.
    pub fn find_binary_target<'a>(&self, package: &'a Package) -> (r: Result<&'a Target, BuildError>)
        ensures
            match r {
                Ok(target) => {
                    &&& self@.resolve_binary(package@) matches Ok(i)
                    &&& 0 <= i < package.targets@.len()
                    &&& *target == package.targets@[i]
                },
                Err(e) => self@.resolve_binary(package@) == Err::<int, BuildErrorView>(e@),
            },
    {
        let ghost targets = package@.targets;
        match &self.binary_name {
            Some(name) => {
                let ghost pred = |t: TargetView| t.is_binary() && t.name == name@;
                let mut i: usize = 0;
                while i < package.targets.len()
                    invariant
                        i <= package.targets.len(),
                        targets == package@.targets,
                        pred == (|t: TargetView| t.is_binary() && t.name == name@),
                        self@.binary_name == Some(name@),
                        forall|j: int| 0 <= j < i ==> !pred(#[trigger] targets[j]),
                    decreases package.targets.len() - i,
                {
                    assert(targets[i as int] == package.targets@[i as int]@);
                    if is_binary(&package.targets[i]) && package.targets[i].name == *name {
                        proof {
                            lemma_first_match_found(targets, pred, 0, i as int);
                        }
                        return Ok(&package.targets[i]);
                    }
                    i += 1;
                }
                proof {
                    lemma_first_match_none(targets, pred, 0);
                }
                Err(
                    BuildError::BinaryTargetNotFound {
                        name: name.clone(),
                        package: package.name.clone(),
                    },
                )
            },
            None => {
                let ghost pred = |t: TargetView| t.is_binary();
                let mut i: usize = 0;
                while i < package.targets.len()
                    invariant
                        i <= package.targets.len(),
                        targets == package@.targets,
                        pred == (|t: TargetView| t.is_binary()),
                        self@.binary_name is None,
                        forall|j: int| 0 <= j < i ==> !pred(#[trigger] targets[j]),
                    decreases package.targets.len() - i,
                {
                    assert(targets[i as int] == package.targets@[i as int]@);
                    if is_binary(&package.targets[i]) {
                        proof {
                            lemma_first_match_found(targets, pred, 0, i as int);
                        }
                        return Ok(&package.targets[i]);
                    }
                    i += 1;
                }
                proof {
                    lemma_first_match_none(targets, pred, 0);
                }
                Err(
                    BuildError::NoBinaryTargets {
                        package: package.name.clone(),
                        available: target_names(package),
                    },
                )
            },
        }
    }

    /// Where the binary of the given name is expected after the build: below
    /// the project, in the build directory, then in the directory of the
    /// target triple where one is set, then in the directory of the profile.
    pub fn get_binary_path(&self, project_path: &str, binary_name: &str) -> (path: String)
        ensures
            path@ == self@.binary_path(project_path@, binary_name@),
    {
        let mut dir = path_join(project_path, "target");
        if let Some(target) = &self.target {
            dir = path_join(dir.as_str(), target.as_str());
        }
        dir = match self.profile {
            BuildProfile::Release => path_join(dir.as_str(), "release"),
            BuildProfile::Debug => path_join(dir.as_str(), "debug"),
        };
        path_join(dir.as_str(), binary_name)
    }
}

/// Whether a target is a binary: whether `"bin"` is among its kinds.
pub fn is_binary(target: &Target) -> (r: bool)
    ensures
        r == target@.is_binary(),
{
    let bin = "bin".to_string();
    let mut i: usize = 0;
    while i < target.kind.len()
        invariant
            i <= target.kind.len(),
            bin@ == "bin"@,
            forall|j: int| 0 <= j < i ==> target@.kind[j] != "bin"@,
        decreases target.kind.len() - i,
    {
        assert(target@.kind[i as int] == target.kind@[i as int]@);
        if target.kind[i] == bin {
            return true;
        }
        i += 1;
    }
    false
}

/// The names of the targets of a package, in order.
pub fn target_names(package: &Package) -> (names: Vec<String>)
    ensures
        names.deep_view() == package@.targets.map_values(|t: TargetView| t.name),
{
    let mut names: Vec<String> = Vec::new();
    let mut i: usize = 0;
    while i < package.targets.len()
        invariant
            i <= package.targets.len(),
            names@.len() == i,
            forall|j: int| 0 <= j < i ==> (#[trigger] names@[j])@ == package.targets@[j].name@,
        decreases package.targets.len() - i,
    {
        names.push(package.targets[i].name.clone());
        i += 1;
    }
    assert(names.deep_view() =~= package@.targets.map_values(|t: TargetView| t.name));
    names
}

/// The program that is the build toolchain.
pub open spec fn toolchain() -> Seq<char> {
    "cargo"@
}

/// The stages of a compiled build, in the order in which they are passed.
#[derive(Debug, Clone, PartialEq, Eq)]
pub enum CompiledStage {
    /// Asking whether the project has a manifest.
    CheckManifest,
    /// Running the toolchain once to see that it is there.
    ProbeToolchain,
    /// Running the toolchain's metadata query.
    QueryMetadata,
    /// Asking for the query's output to be read as metadata.
    ParseMetadata { document: Vec<u8> },
    /// Compiling; `binary` is the name of the binary that was resolved.
    Compile { binary: String },
    /// Asking whether the binary is where it is expected.
    CheckBinary { binary: String },
    /// Asking for the output directory to be created.
    PrepareOutput { binary: String },
    /// Asking for the binary to be copied into the output directory.
    CopyBinary { binary: String },
}

/// The mathematical content of a [`CompiledStage`].
pub enum CompiledStageView {
    CheckManifest,
    ProbeToolchain,
    QueryMetadata,
    ParseMetadata { document: Seq<u8> },
    Compile { binary: Seq<char> },
    CheckBinary { binary: Seq<char> },
    PrepareOutput { binary: Seq<char> },
    CopyBinary { binary: Seq<char> },
}

impl View for CompiledStage {
    type V = CompiledStageView;

    open spec fn view(&self) -> CompiledStageView {
        match *self {
            CompiledStage::CheckManifest => CompiledStageView::CheckManifest,
            CompiledStage::ProbeToolchain => CompiledStageView::ProbeToolchain,
            CompiledStage::QueryMetadata => CompiledStageView::QueryMetadata,
            CompiledStage::ParseMetadata { document } => CompiledStageView::ParseMetadata {
                document: document@,
            },
            CompiledStage::Compile { binary } => CompiledStageView::Compile { binary: binary@ },
            CompiledStage::CheckBinary { binary } => CompiledStageView::CheckBinary {
                binary: binary@,
            },
            CompiledStage::PrepareOutput { binary } => CompiledStageView::PrepareOutput {
                binary: binary@,
            },
            CompiledStage::CopyBinary { binary } => CompiledStageView::CopyBinary {
                binary: binary@,
            },
        }
    }
}

impl CompiledStageView {
    /// The place of a stage in the order of a build.
    pub open spec fn rank(self) -> nat {
        match self {
            CompiledStageView::CheckManifest => 0,
            CompiledStageView::ProbeToolchain => 1,
            CompiledStageView::QueryMetadata => 2,
            CompiledStageView::ParseMetadata { .. } => 3,
            CompiledStageView::Compile { .. } => 4,
            CompiledStageView::CheckBinary { .. } => 5,
            CompiledStageView::PrepareOutput { .. } => 6,
            CompiledStageView::CopyBinary { .. } => 7,
        }
    }

    /// The binary that the build has resolved to, from the stage on in which
    /// it is known.
    pub open spec fn binary(self) -> Option<Seq<char>> {
        match self {
            CompiledStageView::Compile { binary } => Some(binary),
            CompiledStageView::CheckBinary { binary } => Some(binary),
            CompiledStageView::PrepareOutput { binary } => Some(binary),
            CompiledStageView::CopyBinary { binary } => Some(binary),
            _ => None,
        }
    }
}

/// A command of the toolchain, run in the project directory.
pub open spec fn toolchain_command(
    ctx: BuildContextView,
    args: Seq<Seq<char>>,
    stdio: StdioMode,
) -> ProcessExecutionView {
    ProcessExecutionView {
        command: toolchain(),
        args,
        cwd: ctx.project_path,
        env: Seq::empty(),
        timeout_seconds: None,
        stdio,
        kill_on_cancel: true,
    }
}

impl RustBuildView {
    /// The manifest that a project must have at its root.
    pub open spec fn manifest_path(ctx: BuildContextView) -> Seq<char> {
        joined(ctx.project_path, manifest_name())
    }

    /// Where the binary is put: under the canonical name, in the output directory.
    pub open spec fn artifact_path(ctx: BuildContextView) -> Seq<char> {
        joined(ctx.output_path, artifact_name())
    }

    /// The command that shows whether the toolchain is there.
    pub open spec fn probe_command(ctx: BuildContextView) -> ProcessExecutionView {
        toolchain_command(ctx, seq!["--version"@], StdioMode::Captured)
    }

    /// The command that queries the metadata of the project's own packages.
    pub open spec fn metadata_command(ctx: BuildContextView) -> ProcessExecutionView {
        toolchain_command(
            ctx,
            seq!["metadata"@, "--no-deps"@, "--format-version=1"@],
            StdioMode::Captured,
        )
    }

    /// The arguments of the compilation: the release flag for a release
    /// build, then the target triple where one is set.
    pub open spec fn build_args(self) -> Seq<Seq<char>> {
        let profile_args = match self.profile {
            BuildProfile::Release => seq!["build"@, "--release"@],
            BuildProfile::Debug => seq!["build"@],
        };
        match self.target {
            Some(target) => profile_args.push("--target"@).push(target),
            None => profile_args,
        }
    }

    /// The command that compiles the project.
    pub open spec fn build_command(self, ctx: BuildContextView) -> ProcessExecutionView {
        toolchain_command(ctx, self.build_args(), StdioMode::Inherited)
    }

    /// The name of the binary that the build resolves to in the metadata:
    /// the package first, then the binary within it.
    pub open spec fn resolve(self, metadata: CargoMetadataView, project_path: Seq<char>) -> Result<
        Seq<char>,
        BuildErrorView,
    > {
        match self.resolve_package(metadata.packages, project_path) {
            Err(e) => Err(e),
            Ok(i) => match self.resolve_binary(metadata.packages[i]) {
                Err(e) => Err(e),
                Ok(j) => Ok(metadata.packages[i].targets[j].name),
            },
        }
    }

    /// What each stage asks of the caller.
    pub open spec fn request(self, ctx: BuildContextView, stage: CompiledStageView) -> EffectView {
        match stage {
            CompiledStageView::CheckManifest => EffectView::PathExists {
                path: Self::manifest_path(ctx),
            },
            CompiledStageView::ProbeToolchain => EffectView::RunCaptured {
                execution: Self::probe_command(ctx),
            },
            CompiledStageView::QueryMetadata => EffectView::RunCaptured {
                execution: Self::metadata_command(ctx),
            },
            CompiledStageView::ParseMetadata { document } => EffectView::ParseMetadata { document },
            CompiledStageView::Compile { binary } => EffectView::Run {
                execution: self.build_command(ctx),
            },
            CompiledStageView::CheckBinary { binary } => EffectView::PathExists {
                path: self.binary_path(ctx.project_path, binary),
            },
            CompiledStageView::PrepareOutput { binary } => EffectView::CreateDirAll {
                path: ctx.output_path,
            },
            CompiledStageView::CopyBinary { binary } => EffectView::CopyFile {
                from: self.binary_path(ctx.project_path, binary),
                to: Self::artifact_path(ctx),
            },
        }
    }

    /// Where a build stands after the caller's reply to the request of `stage`.
    /// A reply that does not answer that request changes nothing.
    pub open spec fn advance(
        self,
        ctx: BuildContextView,
        stage: CompiledStageView,
        reply: ReplyView,
    ) -> StepView<CompiledStageView> {
        match (stage, reply) {
            (CompiledStageView::CheckManifest, ReplyView::Exists { exists }) => if exists {
                StepView::Continue { stage: CompiledStageView::ProbeToolchain }
            } else {
                StepView::Failed {
                    error: BuildErrorView::MissingManifest { path: Self::manifest_path(ctx) },
                }
            },
            (
                CompiledStageView::ProbeToolchain,
                ReplyView::Captured { exit, stdout, stderr },
            ) => match exit {
                ExitOutcome::Exited(_) => StepView::Continue {
                    stage: CompiledStageView::QueryMetadata,
                },
                _ => StepView::Failed { error: BuildErrorView::ToolchainUnavailable },
            },
            (
                CompiledStageView::QueryMetadata,
                ReplyView::Captured { exit, stdout, stderr },
            ) => match exit_verdict(exit) {
                Ok(_) => StepView::Continue {
                    stage: CompiledStageView::ParseMetadata { document: stdout },
                },
                Err(cause) => StepView::Failed {
                    error: BuildErrorView::MetadataQueryFailed { cause, stderr },
                },
            },
            (
                CompiledStageView::ParseMetadata { document },
                ReplyView::Metadata { metadata },
            ) => match metadata {
                None => StepView::Failed { error: BuildErrorView::MetadataInvalid },
                Some(m) => match self.resolve(m, ctx.project_path) {
                    Ok(binary) => StepView::Continue {
                        stage: CompiledStageView::Compile { binary },
                    },
                    Err(error) => StepView::Failed { error },
                },
            },
            (CompiledStageView::Compile { binary }, ReplyView::Ran { exit }) => match exit {
                ExitOutcome::Exited(code) => if code == Some(0i32) {
                    StepView::Continue { stage: CompiledStageView::CheckBinary { binary } }
                } else {
                    StepView::Failed { error: BuildErrorView::BuildToolFailed { code } }
                },
                _ => StepView::Failed { error: BuildErrorView::BuildToolUnavailable },
            },
            (CompiledStageView::CheckBinary { binary }, ReplyView::Exists { exists }) => if exists {
                StepView::Continue { stage: CompiledStageView::PrepareOutput { binary } }
            } else {
                StepView::Failed {
                    error: BuildErrorView::BinaryNotProduced {
                        path: self.binary_path(ctx.project_path, binary),
                    },
                }
            },
            (
                CompiledStageView::PrepareOutput { binary },
                ReplyView::Created { created },
            ) => if created {
                StepView::Continue { stage: CompiledStageView::CopyBinary { binary } }
            } else {
                StepView::Failed {
                    error: BuildErrorView::OutputDirectoryUnavailable { path: ctx.output_path },
                }
            },
            (CompiledStageView::CopyBinary { binary }, ReplyView::Copied { copied }) => if copied {
                StepView::Succeeded { report: BuildReport { output_empty: false } }
            } else {
                StepView::Failed {
                    error: BuildErrorView::CopyFailed {
                        from: self.binary_path(ctx.project_path, binary),
                        to: Self::artifact_path(ctx),
                    },
                }
            },
            _ => StepView::Continue { stage },
        }
    }
}

/// A command of the toolchain, run in the project directory.
fn toolchain_execution(ctx: &BuildContext, args: Vec<String>, stdio: StdioMode) -> (execution:
    ProcessExecution)
    ensures
        execution@ == toolchain_command(ctx@, args.deep_view(), stdio),
{
    let env: Vec<(String, String)> = Vec::new();
    assert(env.deep_view() =~= Seq::empty());
    ProcessExecution {
        command: "cargo".to_string(),
        args,
        cwd: ctx.project_path.clone(),
        env,
        timeout_seconds: None,
        stdio,
        kill_on_cancel: true,
    }
}

/// Appends the text as a new argument.
fn push_arg(args: &mut Vec<String>, arg: &str)
    ensures
        final(args).deep_view() == old(args).deep_view().push(arg@),
{
    let owned = arg.to_string();
    args.push(owned);
    assert(args.deep_view() =~= old(args).deep_view().push(arg@));
}

impl RustBuild {
    /// The manifest that the project must have at its root.
    pub fn manifest_path(ctx: &BuildContext) -> (path: String)
        ensures
            path@ == RustBuildView::manifest_path(ctx@),
    {
        path_join(ctx.project_path.as_str(), "Cargo.toml")
    }

    /// Where the binary is put: under the canonical name, in the output directory.
    pub fn artifact_path(ctx: &BuildContext) -> (path: String)
        ensures
            path@ == RustBuildView::artifact_path(ctx@),
    {
        path_join(ctx.output_path.as_str(), "bootstrap")
    }

    /// The command that shows whether the toolchain is there.
    pub fn probe_command(ctx: &BuildContext) -> (execution: ProcessExecution)
        ensures
            execution@ == RustBuildView::probe_command(ctx@),
    {
        let mut args: Vec<String> = Vec::new();
        assert(args.deep_view() =~= Seq::empty());
        push_arg(&mut args, "--version");
        assert(args.deep_view() =~= seq!["--version"@]);
        toolchain_execution(ctx, args, StdioMode::Captured)
    }

    /// The command that queries the metadata of the project's own packages.
    pub fn metadata_command(ctx: &BuildContext) -> (execution: ProcessExecution)
        ensures
            execution@ == RustBuildView::metadata_command(ctx@),
    {
        let mut args: Vec<String> = Vec::new();
        assert(args.deep_view() =~= Seq::empty());
        push_arg(&mut args, "metadata");
        push_arg(&mut args, "--no-deps");
        push_arg(&mut args, "--format-version=1");
        assert(args.deep_view() =~= seq!["metadata"@, "--no-deps"@, "--format-version=1"@]);
        toolchain_execution(ctx, args, StdioMode::Captured)
    }

    /// The command that compiles the project.
    pub fn build_command(&self, ctx: &BuildContext) -> (execution: ProcessExecution)
        ensures
            execution@ == self@.build_command(ctx@),
    {
        let mut args: Vec<String> = Vec::new();
        assert(args.deep_view() =~= Seq::empty());
        push_arg(&mut args, "build");
        match self.profile {
            BuildProfile::Release => {
                push_arg(&mut args, "--release");
                assert(args.deep_view() =~= seq!["build"@, "--release"@]);
            },
            BuildProfile::Debug => {
                assert(args.deep_view() =~= seq!["build"@]);
            },
        }
        if let Some(target) = &self.target {
            push_arg(&mut args, "--target");
            push_arg(&mut args, target.as_str());
        }
        toolchain_execution(ctx, args, StdioMode::Inherited)
    }

    /// Resolves the name of the binary to pick up: the package first, then
    /// the binary within it.
    pub fn resolve(&self, metadata: &CargoMetadata, project_path: &str) -> (r: Result<
        String,
        BuildError,
    >)
        ensures
            match r {
                Ok(binary) => self@.resolve(metadata@, project_path@) == Ok::<
                    Seq<char>,
                    BuildErrorView,
                >(binary@),
                Err(e) => self@.resolve(metadata@, project_path@) == Err::<
                    Seq<char>,
                    BuildErrorView,
                >(e@),
            },
    {
        match self.find_package(metadata, project_path) {
            Err(e) => Err(e),
            Ok(package) => match self.find_binary_target(package) {
                Err(e) => Err(e),
                Ok(target) => Ok(target.name.clone()),
            },
        }
    }

    /// Starts a build: names the first stage. A compiled build has nothing to
    /// refuse before it has looked at the project.
    pub fn start(&self) -> (step: Step<CompiledStage>)
        ensures
            step@ == (StepView::Continue { stage: CompiledStageView::CheckManifest }),
    {
        Step::Continue { stage: CompiledStage::CheckManifest }
    }

    /// What the build asks of the caller in `stage`.
    pub fn request(&self, ctx: &BuildContext, stage: &CompiledStage) -> (effect: Effect)
        ensures
            effect@ == self@.request(ctx@, stage@),
    {
        match stage {
            CompiledStage::CheckManifest => Effect::PathExists { path: Self::manifest_path(ctx) },
            CompiledStage::ProbeToolchain => Effect::RunCaptured {
                execution: Self::probe_command(ctx),
            },
            CompiledStage::QueryMetadata => Effect::RunCaptured {
                execution: Self::metadata_command(ctx),
            },
            CompiledStage::ParseMetadata { document } => Effect::ParseMetadata {
                document: copy_bytes(document),
            },
            CompiledStage::Compile { .. } => Effect::Run { execution: self.build_command(ctx) },
            CompiledStage::CheckBinary { binary } => Effect::PathExists {
                path: self.get_binary_path(ctx.project_path.as_str(), binary.as_str()),
            },
            CompiledStage::PrepareOutput { .. } => Effect::CreateDirAll {
                path: ctx.output_path.clone(),
            },
            CompiledStage::CopyBinary { binary } => Effect::CopyFile {
                from: self.get_binary_path(ctx.project_path.as_str(), binary.as_str()),
                to: Self::artifact_path(ctx),
            },
        }
    }

    /// Takes the caller's reply to the request of `stage` and says where the
    /// build stands now.
    pub fn advance(&self, ctx: &BuildContext, stage: CompiledStage, reply: Reply) -> (step: Step<
        CompiledStage,
    >)
        ensures
            step@ == self@.advance(ctx@, stage@, reply@),
    {
        match (stage, reply) {
            (CompiledStage::CheckManifest, Reply::Exists { exists }) => {
                if exists {
                    Step::Continue { stage: CompiledStage::ProbeToolchain }
                } else {
                    Step::Failed {
                        error: BuildError::MissingManifest { path: Self::manifest_path(ctx) },
                    }
                }
            },
            (CompiledStage::ProbeToolchain, Reply::Captured { exit, stdout, stderr }) => {
                match exit {
                    ExitOutcome::Exited(_) => Step::Continue {
                        stage: CompiledStage::QueryMetadata,
                    },
                    _ => Step::Failed { error: BuildError::ToolchainUnavailable },
                }
            },
            (CompiledStage::QueryMetadata, Reply::Captured { exit, stdout, stderr }) => {
                match check_exit(exit) {
                    Ok(_) => Step::Continue {
                        stage: CompiledStage::ParseMetadata { document: stdout },
                    },
                    Err(cause) => Step::Failed {
                        error: BuildError::MetadataQueryFailed { cause, stderr },
                    },
                }
            },
            (CompiledStage::ParseMetadata { document }, Reply::Metadata { metadata }) => {
                match metadata {
                    None => Step::Failed { error: BuildError::MetadataInvalid },
                    Some(m) => match self.resolve(&m, ctx.project_path.as_str()) {
                        Ok(binary) => Step::Continue { stage: CompiledStage::Compile { binary } },
                        Err(error) => Step::Failed { error },
                    },
                }
            },
            (CompiledStage::Compile { binary }, Reply::Ran { exit }) => {
                match exit {
                    ExitOutcome::Exited(code) => {
                        match code {
                            Some(0) => Step::Continue {
                                stage: CompiledStage::CheckBinary { binary },
                            },
                            _ => Step::Failed { error: BuildError::BuildToolFailed { code } },
                        }
                    },
                    _ => Step::Failed { error: BuildError::BuildToolUnavailable },
                }
            },
            (CompiledStage::CheckBinary { binary }, Reply::Exists { exists }) => {
                if exists {
                    Step::Continue { stage: CompiledStage::PrepareOutput { binary } }
                } else {
                    Step::Failed {
                        error: BuildError::BinaryNotProduced {
                            path: self.get_binary_path(
                                ctx.project_path.as_str(),
                                binary.as_str(),
                            ),
                        },
                    }
                }
            },
            (CompiledStage::PrepareOutput { binary }, Reply::Created { created }) => {
                if created {
                    Step::Continue { stage: CompiledStage::CopyBinary { binary } }
                } else {
                    Step::Failed {
                        error: BuildError::OutputDirectoryUnavailable {
                            path: ctx.output_path.clone(),
                        },
                    }
                }
            },
            (CompiledStage::CopyBinary { binary }, Reply::Copied { copied }) => {
                if copied {
                    Step::Succeeded { report: BuildReport { output_empty: false } }
                } else {
                    Step::Failed {
                        error: BuildError::CopyFailed {
                            from: self.get_binary_path(
                                ctx.project_path.as_str(),
                                binary.as_str(),
                            ),
                            to: Self::artifact_path(ctx),
                        },
                    }
                }
            },
            (stage, _) => Step::Continue { stage },
        }
    }
}

/// A copy of the bytes.
fn copy_bytes(bytes: &Vec<u8>) -> (copy: Vec<u8>)
    ensures
        copy@ == bytes@,
{
    let mut copy: Vec<u8> = Vec::new();
    let mut i: usize = 0;
    while i < bytes.len()
        invariant
            i <= bytes.len(),
            copy@ == bytes@.take(i as int),
        decreases bytes.len() - i,
    {
        copy.push(bytes[i]);
        assert(copy@ =~= bytes@.take(i + 1));
        i += 1;
    }
    assert(bytes@.take(i as int) =~= bytes@);
    copy
}

/// How a package is chosen: a configured name beats a manifest at the
/// project root, which beats being first in the list.
///
/// With a name configured, the first package of that name is chosen,
/// whatever the manifests and the project path are; without such a package
/// the resolution fails. Without a name, the first package whose manifest is
/// the project root's is chosen; where no manifest is, the first package;
/// where there is no package, the resolution fails.
pub proof fn lemma_package_tie_break(
    build: RustBuildView,
    packages: Seq<PackageView>,
    project_path: Seq<char>,
)
    ensures
        build.package_name matches Some(name) ==> match build.resolve_package(
            packages,
            project_path,
        ) {
            Ok(i) => {
                &&& 0 <= i < packages.len()
                &&& packages[i].name == name
                &&& forall|j: int| 0 <= j < i ==> (#[trigger] packages[j]).name != name
            },
            Err(e) => {
                &&& e == BuildErrorView::PackageNotFound { name }
                &&& forall|j: int| 0 <= j < packages.len() ==> (#[trigger] packages[j]).name != name
            },
        },
        build.package_name is Some ==> forall|other: Seq<char>| #[trigger]
            build.resolve_package(packages, other) == build.resolve_package(packages, project_path),
        build.package_name is None ==> match build.resolve_package(packages, project_path) {
            Ok(i) => {
                let root = joined(project_path, manifest_name());
                &&& 0 <= i < packages.len()
                &&& same_path(packages[i].manifest_path, root) || i == 0
                &&& forall|j: int|
                    0 <= j < i ==> !same_path((#[trigger] packages[j]).manifest_path, root)
                &&& !same_path(packages[i].manifest_path, root) ==> forall|j: int|
                    0 <= j < packages.len() ==> !same_path(
                        (#[trigger] packages[j]).manifest_path,
                        root,
                    )
            },
            Err(e) => e == BuildErrorView::NoPackagesFound && packages.len() == 0,
        },
{
    match build.package_name {
        Some(name) => {
            lemma_first_match(packages, |p: PackageView| p.name == name, 0);
        },
        None => {
            let root = joined(project_path, manifest_name());
            lemma_first_match(packages, |p: PackageView| same_path(p.manifest_path, root), 0);
        },
    }
}

/// Of two packages, the first of which has its manifest at the project
/// root: without a configured name the first is chosen; with the name of the
/// second configured, the second is chosen, the manifest notwithstanding.
pub proof fn lemma_root_package_or_named(
    build: RustBuildView,
    first: PackageView,
    second: PackageView,
    project_path: Seq<char>,
)
    requires
        same_path(first.manifest_path, joined(project_path, manifest_name())),
    ensures
        build.package_name is None ==> build.resolve_package(seq![first, second], project_path)
            == Ok::<int, BuildErrorView>(0),
        build.package_name == Some(second.name) && first.name != second.name
            ==> build.resolve_package(seq![first, second], project_path) == Ok::<
            int,
            BuildErrorView,
        >(1),
{
    let packages = seq![first, second];
    match build.package_name {
        Some(name) => {
            if name == second.name && first.name != second.name {
                lemma_first_match_found(packages, |p: PackageView| p.name == name, 0, 1);
            }
        },
        None => {
            let root = joined(project_path, manifest_name());
            lemma_first_match_found(
                packages,
                |p: PackageView| same_path(p.manifest_path, root),
                0,
                0,
            );
        },
    }
}

/// How a binary is chosen within a package: only targets that are binaries
/// count; a configured name selects the first binary of that name, no name
/// selects the first binary. Where nothing is selected, the failure says
/// which: the name that was not found, or the names of all targets of a
/// package without binaries.
pub proof fn lemma_binary_tie_break(build: RustBuildView, package: PackageView)
    ensures
        match build.resolve_binary(package) {
            Ok(i) => {
                &&& 0 <= i < package.targets.len()
                &&& package.targets[i].is_binary()
                &&& build.binary_name matches Some(name) ==> package.targets[i].name == name
                &&& forall|j: int|
                    0 <= j < i ==> {
                        let earlier = #[trigger] package.targets[j];
                        !earlier.is_binary() || (build.binary_name matches Some(name)
                            && earlier.name != name)
                    }
            },
            Err(e) => match build.binary_name {
                Some(name) => {
                    &&& e == BuildErrorView::BinaryTargetNotFound { name, package: package.name }
                    &&& forall|j: int|
                        0 <= j < package.targets.len() ==> {
                            let any = #[trigger] package.targets[j];
                            !any.is_binary() || any.name != name
                        }
                },
                None => {
                    &&& e matches BuildErrorView::NoBinaryTargets { package: named, available }
                    &&& named == package.name
                    &&& available.len() == package.targets.len()
                    &&& forall|j: int|
                        0 <= j < package.targets.len() ==> {
                            &&& !(#[trigger] package.targets[j]).is_binary()
                            &&& available[j] == package.targets[j].name
                        }
                },
            },
        },
{
    match build.binary_name {
        Some(name) => {
            lemma_first_match(package.targets, |t: TargetView| t.is_binary() && t.name == name, 0);
        },
        None => {
            lemma_first_match(package.targets, |t: TargetView| t.is_binary(), 0);
        },
    }
}

/// Every command of a compiled build is the toolchain's, runs in the
/// project directory, has no deadline, and cannot outlive its caller. Only
/// the compilation writes to the caller's streams.
pub proof fn lemma_toolchain_commands(
    build: RustBuildView,
    ctx: BuildContextView,
    stage: CompiledStageView,
)
    ensures
        build.request(ctx, stage).starts_process() <==> stage is ProbeToolchain || stage
            is QueryMetadata || stage is Compile,
        build.request(ctx, stage).starts_process() ==> {
            let execution = build.request(ctx, stage).execution();
            &&& execution.command == toolchain()
            &&& execution.cwd == ctx.project_path
            &&& execution.well_formed()
            &&& execution.stdio == StdioMode::Inherited <==> stage is Compile
        },
{
}

/// A compiled build passes its stages in order, one at a time; a reply that
/// answers nothing leaves the stage as it is. The binary that was resolved
/// is the one that is checked for and copied.
pub proof fn lemma_compiled_stages_in_order(
    build: RustBuildView,
    ctx: BuildContextView,
    stage: CompiledStageView,
    reply: ReplyView,
)
    ensures
        build.advance(ctx, stage, reply) matches StepView::Continue { stage: next } ==> {
            &&& next == stage || next.rank() == stage.rank() + 1
            &&& stage.binary() is Some ==> next.binary() == stage.binary()
        },
        build.advance(ctx, stage, reply) is Succeeded ==> stage is CopyBinary && reply
            == (ReplyView::Copied { copied: true }),
{
}

/// Failures of validation come before the compilation is started: a failure
/// of the class of configuration or validation arises only in a stage ahead
/// of the one that compiles.
pub proof fn lemma_compiled_fail_fast(
    build: RustBuildView,
    ctx: BuildContextView,
    stage: CompiledStageView,
    reply: ReplyView,
)
    ensures
        build.advance(ctx, stage, reply) matches StepView::Failed { error } && error.fails_fast()
            ==> stage.rank() < 4,
{
    match (stage, reply) {
        (CompiledStageView::ParseMetadata { document }, ReplyView::Metadata { metadata: Some(m) }) => {
            lemma_package_tie_break(build, m.packages, ctx.project_path);
        },
        _ => {},
    }
}

/// The compilation's end decides as follows: exit code zero goes on to the
/// check for the binary; any other exit fails with the code, if there was
/// one; a compilation that could not be started or waited for fails as such.
pub proof fn lemma_compilation_end_decides(
    build: RustBuildView,
    ctx: BuildContextView,
    binary: Seq<char>,
    exit: ExitOutcome,
)
    ensures
        ({
            let step = build.advance(
                ctx,
                CompiledStageView::Compile { binary },
                ReplyView::Ran { exit },
            );
            &&& step is Continue <==> exit == ExitOutcome::Exited(Some(0i32))
            &&& step is Continue ==> step == (StepView::Continue {
                stage: CompiledStageView::CheckBinary { binary },
            })
            &&& exit matches ExitOutcome::Exited(code) ==> code != Some(0i32) ==> step == (
            StepView::<CompiledStageView>::Failed { error: BuildErrorView::BuildToolFailed { code } })
        }),
{
}

/// Where the binary is expected: with a target triple, in the triple's
/// directory below the build directory; without one, directly below it.
pub proof fn lemma_binary_path_composition(
    build: RustBuildView,
    project_path: Seq<char>,
    binary_name: Seq<char>,
)
    ensures
        build.target matches Some(target) ==> build.binary_path(project_path, binary_name)
            == joined(
            joined(
                joined(joined(project_path, build_dir_name()), target),
                build.profile.dir_name(),
            ),
            binary_name,
        ),
        build.target is None ==> build.binary_path(project_path, binary_name) == joined(
            joined(joined(project_path, build_dir_name()), build.profile.dir_name()),
            binary_name,
        ),
{
}

/// Only the answer to what was asked moves a compiled build: a reply of
/// another kind than the request of the stage leaves the build in that stage.
pub proof fn lemma_only_answers_count(
    build: RustBuildView,
    ctx: BuildContextView,
    stage: CompiledStageView,
    reply: ReplyView,
)
    requires
        !build.request(ctx, stage).answered_by(reply),
    ensures
        build.advance(ctx, stage, reply) == (StepView::Continue { stage }),
{
}

/// The metadata query's end decides as follows: a query that ran and ended
/// with exit code zero hands its output on to be read as metadata; any other
/// end fails the build, and the failure carries what the query wrote to its
/// error stream. Metadata that is read is resolved as it stands: its
/// packages and their targets in the order of the document.
pub proof fn lemma_metadata_query_decides(
    build: RustBuildView,
    ctx: BuildContextView,
    exit: ExitOutcome,
    stdout: Seq<u8>,
    stderr: Seq<u8>,
)
    ensures
        ({
            let step = build.advance(
                ctx,
                CompiledStageView::QueryMetadata,
                ReplyView::Captured { exit, stdout, stderr },
            );
            &&& exit == ExitOutcome::Exited(Some(0i32)) ==> step == (StepView::Continue {
                stage: CompiledStageView::ParseMetadata { document: stdout },
            })
            &&& exit != ExitOutcome::Exited(Some(0i32)) ==> exit_verdict(exit) is Err && step == (
            StepView::<CompiledStageView>::Failed {
                error: BuildErrorView::MetadataQueryFailed {
                    cause: exit_verdict(exit)->Err_0,
                    stderr,
                },
            })
        }),
        build.request(ctx, CompiledStageView::QueryMetadata) == (EffectView::RunCaptured {
            execution: RustBuildView::metadata_command(ctx),
        }),
        RustBuildView::metadata_command(ctx).cwd == ctx.project_path,
        RustBuildView::metadata_command(ctx).stdio == StdioMode::Captured,
        forall|document: Seq<u8>|
            #[trigger] build.advance(
                ctx,
                CompiledStageView::ParseMetadata { document },
                ReplyView::Metadata { metadata: None },
            ) == (StepView::<CompiledStageView>::Failed { error: BuildErrorView::MetadataInvalid }),
{
}

} // verus!
