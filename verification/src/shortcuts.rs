//! Resolution of one user's shortcuts: the file to use and what it holds.

use vstd::prelude::*;
use vstd::string::*;
use steam_shortcuts_util::shortcut::ShortcutOwned;
use crate::paths::{config_folder, shortcuts_file, spec_config_folder, spec_shortcuts_file};
use crate::users::{SteamUsersInfo, UserView};

verus! {

/// A shortcut as `steam_shortcuts_util` decodes it. The library hands such
/// records on and never looks inside one.
#[verifier::external_type_specification]
#[verifier::external_body]
pub struct ExShortcutOwned(steam_shortcuts_util::shortcut::ShortcutOwned);

/// What `steam_shortcuts_util::parse_shortcuts` makes of the bytes of a
/// shortcuts file: the shortcuts in file order, or the reason why the bytes
/// are no shortcuts file.
pub uninterp spec fn parsed_shortcuts(content: Seq<u8>) -> Result<Seq<ShortcutOwned>, Seq<char>>;

/// Views of a decoding's outcome.
pub open spec fn parsed_view(parsed: Result<Vec<ShortcutOwned>, String>) -> Result<
    Seq<ShortcutOwned>,
    Seq<char>,
> {
    match parsed {
        Ok(shortcuts) => Ok(shortcuts@),
        Err(reason) => Err(reason@),
    }
}

/// Decodes the bytes of a shortcuts file with
/// `steam_shortcuts_util::parse_shortcuts` and turns each borrowed record
/// into an owned one with `Shortcut::to_owned`. Trusted: the outcome depends
/// on the bytes alone and is what `parsed_shortcuts` names; the decoder
/// returns on every input.
#[verifier::external_body]
fn parse_shortcut_bytes(content: &[u8]) -> (parsed: Result<Vec<ShortcutOwned>, String>)
    ensures
        parsed_view(parsed) == parsed_shortcuts(content@),
{
    match steam_shortcuts_util::parse_shortcuts(content) {
        Ok(shortcuts) => Ok(shortcuts.iter().map(|shortcut| shortcut.to_owned()).collect()),
        Err(reason) => Err(reason),
    }
}

/// The shortcuts of one user and the file they belong in.
pub struct ShortcutInfo {
    /// The user's shortcuts file, whether it exists yet or not.
    pub path: String,
    /// The shortcuts that the file holds, in file order.
    pub shortcuts: Vec<ShortcutOwned>,
}

/// Mathematical value of a `ShortcutInfo`.
pub struct ShortcutInfoView {
    pub path: Seq<char>,
    pub shortcuts: Seq<ShortcutOwned>,
}

impl View for ShortcutInfo {
    type V = ShortcutInfoView;

    open spec fn view(&self) -> ShortcutInfoView {
        ShortcutInfoView { path: self.path@, shortcuts: self.shortcuts@ }
    }
}

/// What has to happen on disk before a user's shortcuts can be resolved.
pub enum ShortcutsAccess {
    /// Read the whole file at `path`.
    ReadFile { path: String },
    /// Create the folder at `path` with all its parents, unless it is there.
    CreateFolder { path: String },
}

/// Mathematical value of a `ShortcutsAccess`.
pub enum ShortcutsAccessView {
    ReadFile { path: Seq<char> },
    CreateFolder { path: Seq<char> },
}

impl View for ShortcutsAccess {
    type V = ShortcutsAccessView;

    open spec fn view(&self) -> ShortcutsAccessView {
        match *self {
            ShortcutsAccess::ReadFile { path } => ShortcutsAccessView::ReadFile { path: path@ },
            ShortcutsAccess::CreateFolder { path } => ShortcutsAccessView::CreateFolder {
                path: path@,
            },
        }
    }
}

/// How the access that `shortcuts_access` asked for went.
pub enum AccessOutcome {
    /// The file was read; these are its bytes.
    Content(Vec<u8>),
    /// The folder exists now.
    FolderReady,
    /// The access failed.
    Failed,
}

/// Mathematical value of an `AccessOutcome`.
pub enum AccessOutcomeView {
    Content(Seq<u8>),
    FolderReady,
    Failed,
}

impl View for AccessOutcome {
    type V = AccessOutcomeView;

    open spec fn view(&self) -> AccessOutcomeView {
        match *self {
            AccessOutcome::Content(bytes) => AccessOutcomeView::Content(bytes@),
            AccessOutcome::FolderReady => AccessOutcomeView::FolderReady,
            AccessOutcome::Failed => AccessOutcomeView::Failed,
        }
    }
}

/// Why a user's shortcuts could not be resolved.
#[derive(Debug)]
pub enum ShortcutsError {
    /// The shortcuts file at `path` was recorded for the user and could not be read.
    ReadFailed { path: String },
    /// The file at `path` is no shortcuts file; `reason` is the decoder's.
    DecodeFailed { path: String, reason: String },
    /// The configuration folder at `path` could not be created.
    FolderNotCreated { path: String },
}

/// Mathematical value of a `ShortcutsError`.
pub enum ShortcutsErrorView {
    ReadFailed { path: Seq<char> },
    DecodeFailed { path: Seq<char>, reason: Seq<char> },
    FolderNotCreated { path: Seq<char> },
}

impl View for ShortcutsError {
    type V = ShortcutsErrorView;

    open spec fn view(&self) -> ShortcutsErrorView {
        match *self {
            ShortcutsError::ReadFailed { path } => ShortcutsErrorView::ReadFailed { path: path@ },
            ShortcutsError::DecodeFailed { path, reason } => ShortcutsErrorView::DecodeFailed {
                path: path@,
                reason: reason@,
            },
            ShortcutsError::FolderNotCreated { path } => ShortcutsErrorView::FolderNotCreated {
                path: path@,
            },
        }
    }
}

/// Views of a resolution's outcome.
pub open spec fn resolution_view(outcome: Result<ShortcutInfo, ShortcutsError>) -> Result<
    ShortcutInfoView,
    ShortcutsErrorView,
> {
    match outcome {
        Ok(info) => Ok(info@),
        Err(error) => Err(error@),
    }
}

/// The access that a user's shortcuts need: an existing file is read, and
/// without one the configuration folder is made ready for a new file.
pub open spec fn spec_shortcuts_access(user: UserView) -> ShortcutsAccessView {
    match user.shortcut_path {
        Some(path) => ShortcutsAccessView::ReadFile { path },
        None => ShortcutsAccessView::CreateFolder { path: spec_config_folder(user.folder) },
    }
}

/// The resolution for a file at `path` whose decoding gave `parsed`.
pub open spec fn spec_info_from_parsed(
    path: Seq<char>,
    parsed: Result<Seq<ShortcutOwned>, Seq<char>>,
) -> Result<ShortcutInfoView, ShortcutsErrorView> {
    match parsed {
        Ok(shortcuts) => Ok(ShortcutInfoView { path, shortcuts }),
        Err(reason) => Err(ShortcutsErrorView::DecodeFailed { path, reason }),
    }
}

/// The resolution of a user's shortcuts, given how the access went.
///
/// With a recorded file: its decoded shortcuts under its own path; a failed
/// read or decoding is an error. Without one: no shortcuts, under the path
/// where the file will be, provided the configuration folder is ready.
pub open spec fn spec_shortcuts_for_user(user: UserView, outcome: AccessOutcomeView) -> Result<
    ShortcutInfoView,
    ShortcutsErrorView,
> {
    match user.shortcut_path {
        Some(path) => match outcome {
            AccessOutcomeView::Content(bytes) => spec_info_from_parsed(
                path,
                parsed_shortcuts(bytes),
            ),
            _ => Err(ShortcutsErrorView::ReadFailed { path }),
        },
        None => match outcome {
            AccessOutcomeView::FolderReady => Ok(
                ShortcutInfoView { path: spec_shortcuts_file(user.folder), shortcuts: Seq::empty() },
            ),
            _ => Err(ShortcutsErrorView::FolderNotCreated { path: spec_config_folder(user.folder) }),
        },
    }
}

/// What has to happen on disk before `get_shortcuts_for_user` can resolve the
/// shortcuts of `user`.
pub fn shortcuts_access(user: &SteamUsersInfo) -> (access: ShortcutsAccess)
    ensures
        access@ == spec_shortcuts_access(user@),
{
    match &user.shortcut_path {
        Some(path) => ShortcutsAccess::ReadFile { path: path.clone() },
        None => ShortcutsAccess::CreateFolder {
            path: config_folder(user.steam_user_data_folder.as_str()),
        },
    }
}

/// The resolution for the shortcuts file at `path`, given the outcome of
/// decoding its bytes: the decoded shortcuts, untouched and in order, or the
/// decoder's reason as an error.
pub fn info_from_parsed(path: String, parsed: Result<Vec<ShortcutOwned>, String>) -> (info: Result<
    ShortcutInfo,
    ShortcutsError,
>)
    ensures
        resolution_view(info) == spec_info_from_parsed(path@, parsed_view(parsed)),
{
    match parsed {
        Ok(shortcuts) => Ok(ShortcutInfo { path, shortcuts }),
        Err(reason) => Err(ShortcutsError::DecodeFailed { path, reason }),
    }
}

/// The shortcuts of `user` and the file they belong in, where `outcome` says
/// how the access that `shortcuts_access` names for `user` went.
pub fn get_shortcuts_for_user(user: &SteamUsersInfo, outcome: &AccessOutcome) -> (info: Result<
    ShortcutInfo,
    ShortcutsError,
>)
    ensures
        resolution_view(info) == spec_shortcuts_for_user(user@, outcome@),
        user.shortcut_path is None && *outcome is FolderReady ==> info is Ok
            && info->Ok_0.shortcuts@.len() == 0 && info->Ok_0.path@ == spec_shortcuts_file(
            user.steam_user_data_folder@,
        ),
        user.shortcut_path is Some && *outcome is Content ==> (match parsed_shortcuts(
            outcome->Content_0@,
        ) {
            Ok(shortcuts) => info is Ok && info->Ok_0.shortcuts@ == shortcuts && info->Ok_0.path@
                == user.shortcut_path->Some_0@,
            Err(_) => info is Err,
        }),
{
    match &user.shortcut_path {
        Some(path) => match outcome {
            AccessOutcome::Content(bytes) => {
                let parsed = parse_shortcut_bytes(bytes.as_slice());
                info_from_parsed(path.clone(), parsed)
            },
            _ => Err(ShortcutsError::ReadFailed { path: path.clone() }),
        },
        None => match outcome {
            AccessOutcome::FolderReady => Ok(
                ShortcutInfo {
                    path: shortcuts_file(user.steam_user_data_folder.as_str()),
                    shortcuts: Vec::new(),
                },
            ),
            _ => Err(
                ShortcutsError::FolderNotCreated {
                    path: config_folder(user.steam_user_data_folder.as_str()),
                },
            ),
        },
    }
}

/// Resolution depends on nothing but the user and what the disk held: two
/// resolutions of users with the same value, after accesses that went the
/// same way, are the same.
pub proof fn lemma_resolution_repeats(
    user: SteamUsersInfo,
    outcome: AccessOutcome,
    again_user: SteamUsersInfo,
    again_outcome: AccessOutcome,
    first: Result<ShortcutInfo, ShortcutsError>,
    second: Result<ShortcutInfo, ShortcutsError>,
)
    requires
        user@ == again_user@,
        outcome@ == again_outcome@,
        resolution_view(first) == spec_shortcuts_for_user(user@, outcome@),
        resolution_view(second) == spec_shortcuts_for_user(again_user@, again_outcome@),
    ensures
        resolution_view(first) == resolution_view(second),
{
}

/// Resolving a user without a shortcuts file creates no such file, so the
/// user is found unchanged afterwards and the same access is asked for again:
/// a second resolution needs the configuration folder, which is then already
/// there, and gives the same empty result under the same path.
pub proof fn lemma_fresh_resolution_is_stable(user: UserView)
    requires
        user.shortcut_path is None,
    ensures
        spec_shortcuts_access(user) == (ShortcutsAccessView::CreateFolder {
            path: spec_config_folder(user.folder),
        }),
        spec_shortcuts_for_user(user, AccessOutcomeView::FolderReady) == Ok::<
            ShortcutInfoView,
            ShortcutsErrorView,
        >(ShortcutInfoView { path: spec_shortcuts_file(user.folder), shortcuts: Seq::empty() }),
{
}

} // verus!
