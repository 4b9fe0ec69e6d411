//! Construction of the paths below a Steam installation.

use vstd::prelude::*;
use vstd::string::*;

verus! {

/// The platform families whose Steam layout is known.
#[derive(Clone, Copy, Debug, PartialEq, Eq)]
pub enum Platform {
    Windows,
    Linux,
}

/// Name of the environment variable that anchors the user data on `platform`.
pub open spec fn spec_root_variable(platform: Platform) -> Seq<char> {
    match platform {
        Platform::Windows => "PROGRAMFILES(X86)"@,
        Platform::Linux => "HOME"@,
    }
}

/// What is appended to the anchor directory to reach the user data.
pub open spec fn root_suffix(platform: Platform) -> Seq<char> {
    match platform {
        Platform::Windows => "/Steam/userdata/"@,
        Platform::Linux => "/.steam/steam/userdata/"@,
    }
}

/// The user data root below the anchor directory `base`.
pub open spec fn spec_platform_root(platform: Platform, base: Seq<char>) -> Seq<char> {
    base + root_suffix(platform)
}

/// The folder that holds a user's configuration.
pub open spec fn spec_config_folder(user_folder: Seq<char>) -> Seq<char> {
    user_folder + "/config"@
}

/// The shortcuts file of a user.
pub open spec fn spec_shortcuts_file(user_folder: Seq<char>) -> Seq<char> {
    user_folder + "/config/shortcuts.vdf"@
}

/// The folder that holds a user's grid images.
pub open spec fn spec_grid_folder(user_folder: Seq<char>) -> Seq<char> {
    user_folder + "/config/grid"@
}

/// `head` followed by `tail`, as a new string.
pub fn joined(head: &str, tail: &str) -> (out: String)
    ensures
        out@ == head@ + tail@,
{
    let mut out = String::from_str(head);
    out.append(tail);
    out
}

/// Name of the environment variable that anchors the user data on `platform`.
pub fn root_variable(platform: Platform) -> (name: &'static str)
    ensures
        name@ == spec_root_variable(platform),
{
    match platform {
        Platform::Windows => "PROGRAMFILES(X86)",
        Platform::Linux => "HOME",
    }
}

/// The user data root below the anchor directory `base`, the value of the
/// variable that `root_variable` names.
pub fn platform_root(platform: Platform, base: &str) -> (root: String)
    ensures
        root@ == spec_platform_root(platform, base@),
{
    match platform {
        Platform::Windows => joined(base, "/Steam/userdata/"),
        Platform::Linux => joined(base, "/.steam/steam/userdata/"),
    }
}

/// The folder that holds the configuration of the user at `user_folder`.
pub fn config_folder(user_folder: &str) -> (path: String)
    ensures
        path@ == spec_config_folder(user_folder@),
{
    joined(user_folder, "/config")
}

/// Where the shortcuts file of the user at `user_folder` is, or would be.
pub fn shortcuts_file(user_folder: &str) -> (path: String)
    ensures
        path@ == spec_shortcuts_file(user_folder@),
{
    joined(user_folder, "/config/shortcuts.vdf")
}

/// The folder that holds the grid images of the user at `user_folder`.
pub fn grid_folder(user_folder: &str) -> (path: String)
    ensures
        path@ == spec_grid_folder(user_folder@),
{
    joined(user_folder, "/config/grid")
}

} // verus!
