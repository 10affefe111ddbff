//! Where the vault's files live, relative to the operator's home directory.

use vstd::prelude::*;

verus! {

/// `base` extended by `name` under the path rules of the platform the crate
/// is built for: a separator is put between them where one is needed, and
/// an absolute `name` replaces `base`.
pub uninterp spec fn joined_path(base: Seq<char>, name: Seq<char>) -> Seq<char>;

/// The name of the configuration file in the home directory.
pub open spec fn config_file_name() -> Seq<char> {
    ".kofl"@
}

/// The name of the file whose presence marks an open session.
pub open spec fn session_file_name() -> Seq<char> {
    ".kofl_session"@
}

/// The name of the data store in the home directory.
pub open spec fn data_file_name() -> Seq<char> {
    "kofl.sqlite"@
}

/// Calls `std::path::PathBuf::push` on the path made of `base`. The result
/// depends on the two texts alone.
#[verifier::external_body]
pub(crate) fn push_path(base: &str, name: &str) -> (path: String)
    ensures
        path@ == joined_path(base@, name@),
{
    let mut path = std::path::PathBuf::from(base);
    path.push(name);
    path.to_string_lossy().into_owned()
}

/// The path of `filename` inside the home directory; `None` when the home
/// directory is not known.
pub fn get_config_path(home_dir: Option<String>, filename: &str) -> (path: Option<String>)
    ensures
        match home_dir {
            Some(home) => path matches Some(p) && p@ == joined_path(home@, filename@),
            None => path is None,
        },
{
    match home_dir {
        Some(home) => Some(push_path(home.as_str(), filename)),
        None => None,
    }
}

/// The path whose existence tells that a vault has been configured.
pub fn config_file_path(home_dir: Option<String>) -> (path: Option<String>)
    ensures
        match home_dir {
            Some(home) => path matches Some(p) && p@ == joined_path(home@, config_file_name()),
            None => path is None,
        },
{
    get_config_path(home_dir, ".kofl")
}

/// The path whose existence tells that a session is open.
pub fn session_file_path(home_dir: Option<String>) -> (path: Option<String>)
    ensures
        match home_dir {
            Some(home) => path matches Some(p) && p@ == joined_path(home@, session_file_name()),
            None => path is None,
        },
{
    get_config_path(home_dir, ".kofl_session")
}

} // verus!
