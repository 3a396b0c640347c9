//! What a project's configuration says, and what stands in for what it leaves out.
use vstd::prelude::*;
use crate::backend::Build;
use crate::backend::BuildView;
use crate::paths::joined;
use crate::paths::path_join;
use crate::pipeline::SetupError;
use crate::pipeline::SetupErrorView;
use crate::text::opt_text;

verus! {

/// The name of the configuration file at the project root.
pub open spec fn spec_config_file() -> Seq<char> {
    "Nocti.toml"@
}

/// The content store's address where neither the configuration nor the
/// environment gives one.
pub open spec fn spec_default_registry_url() -> Seq<char> {
    "http://localhost:50001"@
}

/// The name-binding service's address where neither the configuration nor
/// the environment gives one.
pub open spec fn spec_default_control_plane_url() -> Seq<char> {
    "http://localhost:50002"@
}

/// An address as it is resolved: what the configuration says; failing that,
/// what the environment says; failing that, the fallback.
pub open spec fn spec_endpoint(
    configured: Option<Seq<char>>,
    environment: Option<Seq<char>>,
    fallback: Seq<char>,
) -> Seq<char> {
    match configured {
        Some(url) => url,
        None => match environment {
            Some(url) => url,
            None => fallback,
        },
    }
}

/// The name of the configuration file at the project root.
pub fn config_file() -> (name: &'static str)
    ensures
        name@ == spec_config_file(),
{
    "Nocti.toml"
}

/// The environment variable that may hold the content store's address.
pub fn registry_url_variable() -> (name: &'static str)
    ensures
        name@ == "NOCTI_REGISTRY_URL"@,
{
    "NOCTI_REGISTRY_URL"
}

/// The environment variable that may hold the name-binding service's address.
pub fn control_plane_url_variable() -> (name: &'static str)
    ensures
        name@ == "NOCTI_CONTROL_PLANE_URL"@,
{
    "NOCTI_CONTROL_PLANE_URL"
}

/// Resolves an address: the configured one, else the environment's, else the fallback.
pub fn endpoint(configured: Option<String>, environment: Option<String>, fallback: &str) -> (url:
    String)
    ensures
        url@ == spec_endpoint(opt_text(configured), opt_text(environment), fallback@),
{
    match configured {
        Some(url) => url,
        None => match environment {
            Some(url) => url,
            None => fallback.to_string(),
        },
    }
}

/// The content store's address for a configuration that gives none:
/// `environment` is the value of the variable named by
/// `registry_url_variable`, where it is set.
pub fn default_registry_url(environment: Option<String>) -> (url: String)
    ensures
        url@ == spec_endpoint(None, opt_text(environment), spec_default_registry_url()),
{
    endpoint(None, environment, "http://localhost:50001")
}

/// The name-binding service's address for a configuration that gives none:
/// `environment` is the value of the variable named by
/// `control_plane_url_variable`, where it is set.
pub fn default_control_plane_url(environment: Option<String>) -> (url: String)
    ensures
        url@ == spec_endpoint(None, opt_text(environment), spec_default_control_plane_url()),
{
    endpoint(None, environment, "http://localhost:50002")
}

/// Where the configuration file of a project is expected: at the project root.
pub open spec fn spec_config_path(project_path: Seq<char>) -> Seq<char> {
    joined(project_path, spec_config_file())
}

/// Where the configuration file of a project is expected.
pub fn config_path(project_path: &str) -> (path: String)
    ensures
        path@ == spec_config_path(project_path@),
{
    path_join(project_path, "Nocti.toml")
}

/// What the project's surroundings have to be before the configuration is
/// read: the project path a directory, the configuration a file in it. The
/// path is judged first, and the failure names the path that is at fault.
pub open spec fn spec_locate(
    project_path: Seq<char>,
    project_is_dir: bool,
    config_is_file: bool,
) -> Option<SetupErrorView> {
    if !project_is_dir {
        Some(SetupErrorView::InvalidProjectPath { path: project_path })
    } else if !config_is_file {
        Some(SetupErrorView::MissingConfigFile { path: spec_config_path(project_path) })
    } else {
        None
    }
}

/// Judges the project's surroundings before the configuration is read:
/// `project_is_dir` says whether the project path is a directory,
/// `config_is_file` whether the path given by `config_path` is a file.
pub fn locate(project_path: &str, project_is_dir: bool, config_is_file: bool) -> (failure: Option<
    SetupError,
>)
    ensures
        match failure {
            Some(reason) => spec_locate(project_path@, project_is_dir, config_is_file) == Some(
                reason@,
            ),
            None => spec_locate(project_path@, project_is_dir, config_is_file) is None,
        },
{
    if !project_is_dir {
        Some(SetupError::InvalidProjectPath { path: project_path.to_string() })
    } else if !config_is_file {
        Some(SetupError::MissingConfigFile { path: config_path(project_path) })
    } else {
        None
    }
}

/// A project's configuration, with every address resolved.
#[derive(Debug, Clone, PartialEq, Eq)]
pub struct Config {
    /// The logical name that the digest is bound to.
    pub project_name: String,
    pub build: Build,
    pub registry_url: String,
    pub control_plane_url: String,
}

/// The mathematical content of a [`Config`].
pub struct ConfigView {
    pub project_name: Seq<char>,
    pub build: BuildView,
    pub registry_url: Seq<char>,
    pub control_plane_url: Seq<char>,
}

impl View for Config {
    type V = ConfigView;

    open spec fn view(&self) -> ConfigView {
        ConfigView {
            project_name: self.project_name@,
            build: self.build@,
            registry_url: self.registry_url@,
            control_plane_url: self.control_plane_url@,
        }
    }
}

impl Config {
    /// The configuration of a project: what the file states, with each
    /// address it leaves out taken from the environment, else from the default.
    pub fn resolve(
        project_name: String,
        build: Build,
        registry_url: Option<String>,
        control_plane_url: Option<String>,
        registry_environment: Option<String>,
        control_plane_environment: Option<String>,
    ) -> (config: Config)
        ensures
            config@ == (ConfigView {
                project_name: project_name@,
                build: build@,
                registry_url: spec_endpoint(
                    opt_text(registry_url),
                    opt_text(registry_environment),
                    spec_default_registry_url(),
                ),
                control_plane_url: spec_endpoint(
                    opt_text(control_plane_url),
                    opt_text(control_plane_environment),
                    spec_default_control_plane_url(),
                ),
            }),
    {
        Config {
            project_name,
            build,
            registry_url: endpoint(registry_url, registry_environment, "http://localhost:50001"),
            control_plane_url: endpoint(
                control_plane_url,
                control_plane_environment,
                "http://localhost:50002",
            ),
        }
    }
}

} // verus!
