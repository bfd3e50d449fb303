//! Locations of the application's working directory, configuration file and
//! database, computed from a base directory. Resolving the base directory
//! itself (walking the file system, reading the environment) is the caller's
//! concern; these functions only assemble paths.

use vstd::prelude::*;

verus! {

/// The application name: the working directory is named `.<app name>`.
pub open spec fn spec_app_name() -> Seq<char> {
    "spbased"@
}

/// The file name of the database inside the working directory.
pub open spec fn spec_db_name() -> Seq<char> {
    "db.sqlite"@
}

/// The file name of the configuration file inside the working directory.
pub open spec fn spec_config_name() -> Seq<char> {
    "config.toml"@
}

/// The resolved root directory that holds the application's working
/// directory.
pub struct AppRoot {
    /// The root directory.
    pub root: String,
}

impl AppRoot {
    /// Wraps an already-resolved root directory.
    pub fn new(root: String) -> (r: AppRoot)
        ensures
            r.root@ == root@,
    {
        AppRoot { root }
    }
}

/// The resolved configuration: where the application works and where its
/// database lives.
pub struct AppConfig {
    /// The resolved root directory.
    pub app_root: String,
    /// The path of the database file.
    pub db_path: String,
}

impl AppConfig {
    /// Wraps resolved root and database locations.
    pub fn new(app_root: String, db_path: String) -> (r: AppConfig)
        ensures
            r.app_root@ == app_root@,
            r.db_path@ == db_path@,
    {
        AppConfig { app_root, db_path }
    }
}

/// The application's working directory under `dir`: `<dir>/.<app name>`.
pub fn app_work_dir(dir: &str) -> (r: String)
    ensures
        r@ == dir@ + "/."@ + spec_app_name(),
{
    let mut out = dir.to_owned();
    out.append("/.");
    out.append("spbased");
    out
}

/// The configuration file inside `config_root`.
pub fn config_file_path(config_root: &str) -> (r: String)
    ensures
        r@ == config_root@ + "/"@ + spec_config_name(),
{
    let mut out = config_root.to_owned();
    out.append("/");
    out.append("config.toml");
    out
}

/// The database file inside `data_root`.
pub fn db_file_path(data_root: &str) -> (r: String)
    ensures
        r@ == data_root@ + "/"@ + spec_db_name(),
{
    let mut out = data_root.to_owned();
    out.append("/");
    out.append("db.sqlite");
    out
}

} // verus!
