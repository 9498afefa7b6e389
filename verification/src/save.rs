//! Where the player's save lives: the user's local data directory, apart
//! from the read-only game data.

use vstd::prelude::*;

use std::path::PathBuf;

verus! {

#[verifier::external_type_specification]
#[verifier::external_body]
pub struct ExPathBuf(PathBuf);

/// The game's directory name under the user's local data directory.
pub const APP_SLUG: &'static str = "pvz_rust";

/// The save file's name in [`user_data_dir`].
pub const SAVE_FILE_NAME: &'static str = "save.ron";

/// The path `std::path::PathBuf::join` gives for `base` and a segment with
/// the characters `segment`.
pub uninterp spec fn joined_path(base: PathBuf, segment: Seq<char>) -> PathBuf;

/// `dirs::data_local_dir`: the user's local data directory, when the
/// platform has one.  The outcome depends on the platform and environment;
/// nothing is stated of it.
#[verifier::external_body]
fn local_data_dir() -> (r: Option<PathBuf>) {
    dirs::data_local_dir()
}

/// `std::path::PathBuf::join`: `base` with `segment` appended; its result is
/// named [`joined_path`] of the two arguments.
#[verifier::external_body]
fn join_path(base: &PathBuf, segment: &str) -> (r: PathBuf)
    ensures
        r == joined_path(*base, segment@),
{
    base.join(segment)
}

/// The game's data directory under a local data directory.
pub fn user_data_dir_in(data_local: Option<PathBuf>) -> (r: Option<PathBuf>)
    ensures
        r == match data_local {
            Some(d) => Some(joined_path(d, "pvz_rust"@)),
            None => None,
        },
{
    match data_local {
        Some(d) => Some(join_path(&d, APP_SLUG)),
        None => None,
    }
}

/// The save file under a local data directory.
pub fn save_file_path_in(data_local: Option<PathBuf>) -> (r: Option<PathBuf>)
    ensures
        r == match data_local {
            Some(d) => Some(joined_path(joined_path(d, "pvz_rust"@), "save.ron"@)),
            None => None,
        },
{
    match user_data_dir_in(data_local) {
        Some(dir) => Some(join_path(&dir, SAVE_FILE_NAME)),
        None => None,
    }
}

/// The game's data directory; `None` when the platform has no local data directory.
pub fn user_data_dir() -> (r: Option<PathBuf>)
    ensures
        r matches Some(p) ==> exists|d: PathBuf| p == joined_path(d, "pvz_rust"@),
{
    user_data_dir_in(local_data_dir())
}

/// The save file's path; `None` when the platform has no local data directory.
pub fn save_file_path() -> (r: Option<PathBuf>)
    ensures
        r matches Some(p) ==> exists|d: PathBuf| p == joined_path(joined_path(d, "pvz_rust"@), "save.ron"@),
{
    save_file_path_in(local_data_dir())
}

} // verus!
