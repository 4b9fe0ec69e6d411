//! Enumeration of the user folders below the user data root.

use vstd::prelude::*;
use vstd::string::*;
use crate::errors::{DiscoveryError, DiscoveryErrorView};
use crate::paths::{shortcuts_file, spec_shortcuts_file};

verus! {

/// One Steam user on this machine.
pub struct SteamUsersInfo {
    /// The user's folder below the user data root.
    pub steam_user_data_folder: String,
    /// The user's shortcuts file, if it was there when the folder was looked at.
    pub shortcut_path: Option<String>,
}

/// Mathematical value of a `SteamUsersInfo`.
pub struct UserView {
    pub folder: Seq<char>,
    pub shortcut_path: Option<Seq<char>>,
}

impl View for SteamUsersInfo {
    type V = UserView;

    open spec fn view(&self) -> UserView {
        UserView {
            folder: self.steam_user_data_folder@,
            shortcut_path: match self.shortcut_path {
                Some(path) => Some(path@),
                None => None,
            },
        }
    }
}

/// What a caller found for one entry of the user data root.
pub enum FolderEntry {
    /// The entry could not be read.
    Unreadable,
    /// A readable entry: its path, and whether the file that `shortcuts_file`
    /// names for it exists.
    Folder { path: String, has_shortcuts_file: bool },
}

/// Mathematical value of a `FolderEntry`.
pub enum FolderEntryView {
    Unreadable,
    Folder { path: Seq<char>, has_shortcuts_file: bool },
}

impl View for FolderEntry {
    type V = FolderEntryView;

    open spec fn view(&self) -> FolderEntryView {
        match *self {
            FolderEntry::Unreadable => FolderEntryView::Unreadable,
            FolderEntry::Folder { path, has_shortcuts_file } => FolderEntryView::Folder {
                path: path@,
                has_shortcuts_file,
            },
        }
    }
}

/// Views of the entries of a listing, in order.
pub open spec fn entry_views(entries: Seq<FolderEntry>) -> Seq<FolderEntryView> {
    entries.map_values(|entry: FolderEntry| entry@)
}

/// Views of users, in order.
pub open spec fn user_views(users: Seq<SteamUsersInfo>) -> Seq<UserView> {
    users.map_values(|user: SteamUsersInfo| user@)
}

/// The user that a readable folder stands for.
pub open spec fn user_of(path: Seq<char>, has_shortcuts_file: bool) -> UserView {
    UserView {
        folder: path,
        shortcut_path: if has_shortcuts_file {
            Some(spec_shortcuts_file(path))
        } else {
            None
        },
    }
}

/// The users of a listing: one for each readable entry, in the listing's
/// order; unreadable entries leave no trace.
pub open spec fn users_of(entries: Seq<FolderEntryView>) -> Seq<UserView>
    decreases entries.len(),
{
    if entries.len() == 0 {
        Seq::empty()
    } else {
        let before = users_of(entries.drop_last());
        match entries.last() {
            FolderEntryView::Unreadable => before,
            FolderEntryView::Folder { path, has_shortcuts_file } => before.push(
                user_of(path, has_shortcuts_file),
            ),
        }
    }
}

/// How many entries of a listing are readable.
pub open spec fn readable_count(entries: Seq<FolderEntryView>) -> nat
    decreases entries.len(),
{
    if entries.len() == 0 {
        0
    } else {
        let before = readable_count(entries.drop_last());
        match entries.last() {
            FolderEntryView::Unreadable => before,
            FolderEntryView::Folder { .. } => before + 1,
        }
    }
}

/// How many entries of a listing are unreadable.
pub open spec fn unreadable_count(entries: Seq<FolderEntryView>) -> nat
    decreases entries.len(),
{
    if entries.len() == 0 {
        0
    } else {
        let before = unreadable_count(entries.drop_last());
        match entries.last() {
            FolderEntryView::Unreadable => before + 1,
            FolderEntryView::Folder { .. } => before,
        }
    }
}

/// The outcome of enumerating the users below `root`, where `listing` is
/// `None` if `root` does not exist and else holds its entries.
pub open spec fn spec_shortcuts_paths(
    root: Seq<char>,
    listing: Option<Seq<FolderEntryView>>,
) -> Result<Seq<UserView>, DiscoveryErrorView> {
    match listing {
        None => Err(DiscoveryErrorView::SteamFolderNotFound { location_tried: root }),
        Some(entries) => Ok(users_of(entries)),
    }
}

/// Views of a listing that may be missing.
pub open spec fn listing_view(listing: Option<Vec<FolderEntry>>) -> Option<Seq<FolderEntryView>> {
    match listing {
        Some(entries) => Some(entry_views(entries@)),
        None => None,
    }
}

/// Views of an enumeration's outcome.
pub open spec fn users_outcome(
    outcome: Result<Vec<SteamUsersInfo>, DiscoveryError>,
) -> Result<Seq<UserView>, DiscoveryErrorView> {
    match outcome {
        Ok(users) => Ok(user_views(users@)),
        Err(error) => Err(error@),
    }
}

/// The user that one readable folder stands for.
pub fn user_for_folder(path: &str, has_shortcuts_file: bool) -> (user: SteamUsersInfo)
    ensures
        user@ == user_of(path@, has_shortcuts_file),
{
    let shortcut_path = if has_shortcuts_file {
        Some(shortcuts_file(path))
    } else {
        None
    };
    SteamUsersInfo { steam_user_data_folder: String::from_str(path), shortcut_path }
}

/// The users below the user data root `root`, one for each user's shortcuts
/// (or its absence). `listing` is `None` if `root` does not exist on disk, and
/// else holds what was found for each of its entries.
///
/// A missing root is the one failure, and the error carries `root` as given.
/// Unreadable entries are passed over; a root without readable entries gives
/// no users and no error.
pub fn get_shortcuts_paths(root: &str, listing: &Option<Vec<FolderEntry>>) -> (users: Result<
    Vec<SteamUsersInfo>,
    DiscoveryError,
>)
    ensures
        users_outcome(users) == spec_shortcuts_paths(root@, listing_view(*listing)),
        *listing is None ==> users_outcome(users) == Err::<Seq<UserView>, DiscoveryErrorView>(
            DiscoveryErrorView::SteamFolderNotFound { location_tried: root@ },
        ),
        listing matches Some(entries) ==> users is Ok && users->Ok_0.len() == readable_count(
            entry_views(entries@),
        ),
{
    proof {
        if let Some(entries) = listing {
            lemma_one_user_per_readable_entry(entry_views(entries@));
        }
    }
    match listing {
        None => Err(DiscoveryError::SteamFolderNotFound { location_tried: String::from_str(root) }),
        Some(entries) => {
            let mut users: Vec<SteamUsersInfo> = Vec::new();
            let mut at: usize = 0;
            while at < entries.len()
                invariant
                    at <= entries.len(),
                    user_views(users@) == users_of(entry_views(entries@).take(at as int)),
                decreases entries.len() - at,
            {
                proof {
                    let views = entry_views(entries@);
                    assert(views.take(at + 1).drop_last() == views.take(at as int));
                    assert(views.take(at + 1).last() == entries@[at as int]@);
                }
                match &entries[at] {
                    FolderEntry::Unreadable => {},
                    FolderEntry::Folder { path, has_shortcuts_file } => {
                        let ghost before = user_views(users@);
                        let user = user_for_folder(path.as_str(), *has_shortcuts_file);
                        users.push(user);
                        assert(user_views(users@) == before.push(user@));
                    },
                }
                at += 1;
            }
            assert(entry_views(entries@).take(at as int) == entry_views(entries@));
            Ok(users)
        },
    }
}

/// Enumeration yields exactly one user for each readable entry: a listing
/// with `readable_count` readable and `unreadable_count` unreadable entries
/// gives `readable_count` users, however the two kinds are mixed.
pub proof fn lemma_one_user_per_readable_entry(entries: Seq<FolderEntryView>)
    ensures
        users_of(entries).len() == readable_count(entries),
        readable_count(entries) + unreadable_count(entries) == entries.len(),
    decreases entries.len(),
{
    if entries.len() > 0 {
        lemma_one_user_per_readable_entry(entries.drop_last());
    }
}

/// Each user of an enumeration either has no shortcuts file or has the one
/// that `shortcuts_file` names for the user's folder.
pub proof fn lemma_users_point_below_their_folder(entries: Seq<FolderEntryView>, at: int)
    requires
        0 <= at < users_of(entries).len(),
    ensures
        users_of(entries)[at].shortcut_path is Some ==> users_of(entries)[at].shortcut_path
            == Some(spec_shortcuts_file(users_of(entries)[at].folder)),
    decreases entries.len(),
{
    if entries.len() > 0 {
        let before = users_of(entries.drop_last());
        if at < before.len() {
            lemma_users_point_below_their_folder(entries.drop_last(), at);
        }
    }
}

/// The users of an enumeration are those of its readable entries, so that
/// the order in which the root hands out its entries decides nothing but the
/// order of the users.
pub proof fn lemma_users_are_those_listed(
    entries: Seq<FolderEntryView>,
    path: Seq<char>,
    has_shortcuts_file: bool,
)
    ensures
        users_of(entries).contains(user_of(path, has_shortcuts_file)) <==> entries.contains(
            FolderEntryView::Folder { path, has_shortcuts_file },
        ),
    decreases entries.len(),
{
    if entries.len() > 0 {
        let init = entries.drop_last();
        let wanted = FolderEntryView::Folder { path, has_shortcuts_file };
        let user = user_of(path, has_shortcuts_file);
        lemma_users_are_those_listed(init, path, has_shortcuts_file);
        let before = users_of(init);
        if entries.contains(wanted) {
            let at = choose|at: int| 0 <= at < entries.len() && entries[at] == wanted;
            if at < init.len() {
                assert(init[at] == wanted);
            }
        }
        if init.contains(wanted) {
            let at = choose|at: int| 0 <= at < init.len() && init[at] == wanted;
            assert(entries[at] == wanted);
        }
        if entries.last() == wanted {
            assert(entries[entries.len() - 1] == wanted);
        }
        if let FolderEntryView::Folder { path: last_path, has_shortcuts_file: last_has } =
            entries.last() {
            let last = user_of(last_path, last_has);
            let all = before.push(last);
            if all.contains(user) {
                let at = choose|at: int| 0 <= at < all.len() && all[at] == user;
                if at < before.len() {
                    assert(before[at] == user);
                }
            }
            if before.contains(user) {
                let at = choose|at: int| 0 <= at < before.len() && before[at] == user;
                assert(all[at] == user);
            }
            if last == user {
                assert(all[before.len() as int] == user);
                assert(last_path == path);
                assert(last_has == has_shortcuts_file);
            }
        }
    }
}

} // verus!
