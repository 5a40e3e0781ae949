//! Where log files go: one file per crate, under the `logs` directory.
use vstd::prelude::*;

verus! {

#[verifier::external_type_specification]
#[verifier::external_body]
pub struct ExPathBuf(std::path::PathBuf);

/// What `PathBuf::from(dir).join(file)` gives. It depends on the two texts
/// alone (the separator it puts between them is fixed by the platform the
/// crate is built for).
pub uninterp spec fn joined_path(dir: Seq<char>, file: Seq<char>) -> std::path::PathBuf;

/// `PathBuf::from(dir).join(file)`; the result is named `joined_path`.
#[verifier::external_body]
fn path_in(dir: &str, file: &str) -> (r: std::path::PathBuf)
    ensures
        r == joined_path(dir@, file@),
{
    std::path::PathBuf::from(dir).join(file)
}

/// The name of a crate's log file: the crate's name and ".log".
pub fn log_file_name(crate_name: &str) -> (r: String)
    ensures
        r@ == crate_name@ + ".log"@,
{
    let mut name = String::from_str(crate_name);
    name.append(".log");
    name
}

/// Get the log file path for a specific crate: its log file under `logs`.
pub fn get_log_path(crate_name: &str) -> (r: std::path::PathBuf)
    ensures
        r == joined_path("logs"@, crate_name@ + ".log"@),
{
    let file = log_file_name(crate_name);
    path_in("logs", file.as_str())
}

} // verus!
