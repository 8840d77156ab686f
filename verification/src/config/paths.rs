//! Where the application keeps its files, by the platform's conventions.
use vstd::prelude::*;

verus! {

/// The directories the platform gives the application.
#[derive(Debug, Clone, PartialEq, Eq)]
pub struct ProjectPaths {
    pub cache_dir: String,
    pub config_dir: String,
    pub data_dir: String,
}

/// The path of `name` inside the directory `base`, as `std::path::Path::join` forms it.
pub uninterp spec fn joined_path(base: Seq<char>, name: Seq<char>) -> Seq<char>;

/// Joins a name to a directory path.
///
/// Calls `std::path::Path::join`; the result is named `joined_path` of the two texts.
#[verifier::external_body]
fn join_path(base: &str, name: &str) -> (p: String)
    ensures
        p@ == joined_path(base@, name@),
{
    std::path::Path::new(base).join(name).to_string_lossy().into_owned()
}

/// The qualifier of the application's project, by the platform's conventions.
pub const PROJECT_QUALIFIER: &'static str = "io";

/// The organization that publishes the application.
pub const PROJECT_ORGANIZATION: &'static str = "ymgyt";

/// The name of the application, which its directories are named after.
pub const PROJECT_APPLICATION: &'static str = "syndterm";

/// Whether `dirs` are directories that the platform, in some environment, gives the
/// application named `application` of `organization` under `qualifier`, as
/// `directories::ProjectDirs::from` finds them. Nothing more is known of it: the
/// directories depend on the platform and the environment.
pub uninterp spec fn project_dirs_for(
    qualifier: Seq<char>,
    organization: Seq<char>,
    application: Seq<char>,
    dirs: ProjectPaths,
) -> bool;

/// The directories the platform gives the application of `organization` named
/// `application`, when the platform has a home directory to put them in.
///
/// Calls `directories::ProjectDirs::from`; what it finds depends on the platform and
/// the environment, so of directories found only that they are the ones found for
/// these names is stated (`project_dirs_for`), and whether any are found is not.
#[verifier::external_body]
fn discover_project_dirs(qualifier: &str, organization: &str, application: &str) -> (p: Option<ProjectPaths>)
    ensures
        p matches Some(d) ==> project_dirs_for(qualifier@, organization@, application@, d),
{
    directories::ProjectDirs::from(qualifier, organization, application).map(|d| ProjectPaths {
        cache_dir: d.cache_dir().to_string_lossy().into_owned(),
        config_dir: d.config_dir().to_string_lossy().into_owned(),
        data_dir: d.data_dir().to_string_lossy().into_owned(),
    })
}

impl ProjectPaths {
    /// The directories of this application (`io`, `ymgyt`, `syndterm`), when the
    /// platform has them.
    pub fn discover() -> (p: Option<ProjectPaths>)
        ensures
            p matches Some(d) ==> project_dirs_for(PROJECT_QUALIFIER@, PROJECT_ORGANIZATION@, PROJECT_APPLICATION@, d),
    {
        discover_project_dirs(PROJECT_QUALIFIER, PROJECT_ORGANIZATION, PROJECT_APPLICATION)
    }
}

/// The cache directory.
pub fn cache_dir(dirs: &ProjectPaths) -> (s: &str)
    ensures
        s@ == dirs.cache_dir@,
{
    dirs.cache_dir.as_str()
}

/// The log file: `syndterm.log` in the data directory.
pub fn log_path(dirs: &ProjectPaths) -> (s: String)
    ensures
        s@ == joined_path(dirs.data_dir@, "syndterm.log"@),
{
    join_path(dirs.data_dir.as_str(), "syndterm.log")
}

/// The configuration file: `config.toml` in the configuration directory.
pub fn config_path(dirs: &ProjectPaths) -> (s: String)
    ensures
        s@ == joined_path(dirs.config_dir@, "config.toml"@),
{
    join_path(dirs.config_dir.as_str(), "config.toml")
}

} // verus!
