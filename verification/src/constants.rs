//! Names and directory layout of the interactive front end's data files,
//! computed from a platform data directory supplied by the caller.

use vstd::prelude::*;

verus! {

/// The project name used for data directories and log files.
pub open spec fn spec_project_name() -> Seq<char> {
    "spbased"@
}

/// The project name used for data directories and log files.
pub fn project_name() -> (r: &'static str)
    ensures
        r@ == spec_project_name(),
{
    "spbased"
}

/// The data directory of the application under the platform data directory.
pub fn data_dir_path(platform_data_dir: &str) -> (r: String)
    ensures
        r@ == platform_data_dir@ + "/"@ + spec_project_name(),
{
    let mut out = platform_data_dir.to_owned();
    out.append("/");
    out.append("spbased");
    out
}

/// The environment variable that selects the log level.
pub fn log_env() -> (r: String)
    ensures
        r@ == spec_project_name() + "_LOGLEVEL"@,
{
    let mut out = project_name().to_owned();
    out.append("_LOGLEVEL");
    out
}

/// The log directory inside the data directory.
pub fn log_dir_path(data_dir: &str) -> (r: String)
    ensures
        r@ == data_dir@ + "/logs"@,
{
    let mut out = data_dir.to_owned();
    out.append("/logs");
    out
}

/// The log file inside the log directory.
pub fn log_file_path(data_dir: &str) -> (r: String)
    ensures
        r@ == data_dir@ + "/logs/"@ + spec_project_name() + ".log"@,
{
    let mut out = log_dir_path(data_dir);
    out.append("/");
    out.append("spbased");
    out.append(".log");
    proof {
        reveal_strlit("/logs");
        reveal_strlit("/");
        reveal_strlit("/logs/");
    }
    assert(out@ =~= data_dir@ + "/logs/"@ + spec_project_name() + ".log"@);
    out
}

} // verus!
