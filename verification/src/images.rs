//! Listing of the images in a user's grid folder.

use vstd::prelude::*;
use vstd::string::*;
use crate::paths::{grid_folder, spec_grid_folder};
use crate::users::{SteamUsersInfo, UserView};

verus! {

/// What a caller found for one entry of a grid folder.
pub enum ImageEntry {
    /// The entry could not be read.
    Unreadable,
    /// An entry, file or folder, with its base name.
    Named(String),
    /// An entry whose name is not valid text.
    Unnamed,
}

/// Mathematical value of an `ImageEntry`.
pub enum ImageEntryView {
    Unreadable,
    Named(Seq<char>),
    Unnamed,
}

impl View for ImageEntry {
    type V = ImageEntryView;

    open spec fn view(&self) -> ImageEntryView {
        match *self {
            ImageEntry::Unreadable => ImageEntryView::Unreadable,
            ImageEntry::Named(name) => ImageEntryView::Named(name@),
            ImageEntry::Unnamed => ImageEntryView::Unnamed,
        }
    }
}

/// How making sure of the grid folder and listing it went.
pub enum GridOutcome {
    /// The folder was missing and could not be created.
    NotCreated,
    /// The folder is there and could not be listed.
    NotListed,
    /// The folder's entries.
    Listed(Vec<ImageEntry>),
}

/// Mathematical value of a `GridOutcome`.
pub enum GridOutcomeView {
    NotCreated,
    NotListed,
    Listed(Seq<ImageEntryView>),
}

/// Views of the entries of a grid folder, in order.
pub open spec fn image_views(entries: Seq<ImageEntry>) -> Seq<ImageEntryView> {
    entries.map_values(|entry: ImageEntry| entry@)
}

impl View for GridOutcome {
    type V = GridOutcomeView;

    open spec fn view(&self) -> GridOutcomeView {
        match *self {
            GridOutcome::NotCreated => GridOutcomeView::NotCreated,
            GridOutcome::NotListed => GridOutcomeView::NotListed,
            GridOutcome::Listed(entries) => GridOutcomeView::Listed(image_views(entries@)),
        }
    }
}

/// Why a user's images could not be listed. Each variant carries the grid
/// folder's path.
#[derive(Debug)]
pub enum ImagesError {
    FolderNotCreated { path: String },
    FolderNotListed { path: String },
    /// An entry's name is not valid text.
    NameNotText { path: String },
}

/// Mathematical value of an `ImagesError`.
pub enum ImagesErrorView {
    FolderNotCreated { path: Seq<char> },
    FolderNotListed { path: Seq<char> },
    NameNotText { path: Seq<char> },
}

impl View for ImagesError {
    type V = ImagesErrorView;

    open spec fn view(&self) -> ImagesErrorView {
        match *self {
            ImagesError::FolderNotCreated { path } => ImagesErrorView::FolderNotCreated {
                path: path@,
            },
            ImagesError::FolderNotListed { path } => ImagesErrorView::FolderNotListed {
                path: path@,
            },
            ImagesError::NameNotText { path } => ImagesErrorView::NameNotText { path: path@ },
        }
    }
}

/// Views of names, in order.
pub open spec fn name_views(names: Seq<String>) -> Seq<Seq<char>> {
    names.map_values(|name: String| name@)
}

/// Views of a listing's outcome.
pub open spec fn images_view(outcome: Result<Vec<String>, ImagesError>) -> Result<
    Seq<Seq<char>>,
    ImagesErrorView,
> {
    match outcome {
        Ok(names) => Ok(name_views(names@)),
        Err(error) => Err(error@),
    }
}

/// Whether some entry has a name that is not valid text.
pub open spec fn has_unnamed(entries: Seq<ImageEntryView>) -> bool {
    exists|at: int| 0 <= at < entries.len() && entries[at] is Unnamed
}

/// The names of the named entries, in the listing's order.
pub open spec fn names_of(entries: Seq<ImageEntryView>) -> Seq<Seq<char>>
    decreases entries.len(),
{
    if entries.len() == 0 {
        Seq::empty()
    } else {
        let before = names_of(entries.drop_last());
        match entries.last() {
            ImageEntryView::Named(name) => before.push(name),
            _ => before,
        }
    }
}

/// The images of a user, given how listing the grid folder went.
///
/// Unreadable entries are passed over. A name that is not valid text fails
/// the whole listing, as does a folder that could not be created or listed.
pub open spec fn spec_users_images(user: UserView, outcome: GridOutcomeView) -> Result<
    Seq<Seq<char>>,
    ImagesErrorView,
> {
    let path = spec_grid_folder(user.folder);
    match outcome {
        GridOutcomeView::NotCreated => Err(ImagesErrorView::FolderNotCreated { path }),
        GridOutcomeView::NotListed => Err(ImagesErrorView::FolderNotListed { path }),
        GridOutcomeView::Listed(entries) => if has_unnamed(entries) {
            Err(ImagesErrorView::NameNotText { path })
        } else {
            Ok(names_of(entries))
        },
    }
}

/// The base names of what the grid folder of `user` holds, files and folders
/// alike, in the order of the listing. `outcome` says how creating the folder
/// that `grid_folder` names for the user, where it was missing, and listing it
/// went.
pub fn get_users_images(user: &SteamUsersInfo, outcome: &GridOutcome) -> (images: Result<
    Vec<String>,
    ImagesError,
>)
    ensures
        images_view(images) == spec_users_images(user@, outcome@),
        outcome matches GridOutcome::Listed(entries) && entries@.len() == 0 ==> images is Ok
            && images->Ok_0@.len() == 0,
{
    let folder = user.steam_user_data_folder.as_str();
    match outcome {
        GridOutcome::NotCreated => Err(ImagesError::FolderNotCreated { path: grid_folder(folder) }),
        GridOutcome::NotListed => Err(ImagesError::FolderNotListed { path: grid_folder(folder) }),
        GridOutcome::Listed(entries) => {
            let ghost views = image_views(entries@);
            let mut names: Vec<String> = Vec::new();
            let mut at: usize = 0;
            while at < entries.len()
                invariant
                    at <= entries.len(),
                    views == image_views(entries@),
                    outcome@ == GridOutcomeView::Listed(views),
                    folder@ == user@.folder,
                    !has_unnamed(views.take(at as int)),
                    name_views(names@) == names_of(views.take(at as int)),
                decreases entries.len() - at,
            {
                proof {
                    assert(views.take(at + 1).drop_last() == views.take(at as int));
                    assert(views.take(at + 1).last() == entries@[at as int]@);
                }
                match &entries[at] {
                    ImageEntry::Unreadable => {},
                    ImageEntry::Named(name) => {
                        let ghost before = name_views(names@);
                        names.push(name.clone());
                        assert(name_views(names@) == before.push(name@));
                    },
                    ImageEntry::Unnamed => {
                        assert(views[at as int] is Unnamed);
                        return Err(ImagesError::NameNotText { path: grid_folder(folder) });
                    },
                }
                proof {
                    let seen = views.take(at + 1);
                    if has_unnamed(seen) {
                        let bad = choose|bad: int| 0 <= bad < seen.len() && seen[bad] is Unnamed;
                        assert(views.take(at as int)[bad] is Unnamed);
                    }
                }
                at += 1;
            }
            assert(views.take(at as int) == views);
            Ok(names)
        },
    }
}

/// Listing depends on nothing but the user's folder and what the grid folder
/// held: two listings of users with the same folder, after outcomes of the
/// same value, are the same.
pub proof fn lemma_listing_repeats(
    user: SteamUsersInfo,
    outcome: GridOutcome,
    again_user: SteamUsersInfo,
    again_outcome: GridOutcome,
    first: Result<Vec<String>, ImagesError>,
    second: Result<Vec<String>, ImagesError>,
)
    requires
        user@.folder == again_user@.folder,
        outcome@ == again_outcome@,
        images_view(first) == spec_users_images(user@, outcome@),
        images_view(second) == spec_users_images(again_user@, again_outcome@),
    ensures
        images_view(first) == images_view(second),
{
}

/// A grid folder that was just created holds nothing, and its listing is
/// empty and no error.
pub proof fn lemma_empty_grid_lists_nothing(user: UserView)
    ensures
        spec_users_images(user, GridOutcomeView::Listed(Seq::empty())) == Ok::<
            Seq<Seq<char>>,
            ImagesErrorView,
        >(Seq::empty()),
{
}

/// The names that a listing yields are those of its named entries, so that
/// the order in which the folder hands out its entries decides nothing but
/// the order of the names.
pub proof fn lemma_names_are_those_listed(entries: Seq<ImageEntryView>, name: Seq<char>)
    ensures
        names_of(entries).contains(name) <==> entries.contains(ImageEntryView::Named(name)),
    decreases entries.len(),
{
    if entries.len() > 0 {
        let init = entries.drop_last();
        let wanted = ImageEntryView::Named(name);
        lemma_names_are_those_listed(init, name);
        let before = names_of(init);
        if entries.contains(wanted) {
            let at = choose|at: int| 0 <= at < entries.len() && entries[at] == wanted;
            if at < init.len() {
                assert(init[at] == wanted);
            }
        }
        if init.contains(wanted) {
            let at = choose|at: int| 0 <= at < init.len() && init[at] == wanted;
            assert(entries[at] == wanted);
        }
        if entries.last() == wanted {
            assert(entries[entries.len() - 1] == wanted);
        }
        if let ImageEntryView::Named(last) = entries.last() {
            let all = before.push(last);
            if all.contains(name) {
                let at = choose|at: int| 0 <= at < all.len() && all[at] == name;
                if at < before.len() {
                    assert(before[at] == name);
                }
            }
            if before.contains(name) {
                let at = choose|at: int| 0 <= at < before.len() && before[at] == name;
                assert(all[at] == name);
            }
            if last == name {
                assert(all[before.len() as int] == name);
            }
        }
    }
}

} // verus!
