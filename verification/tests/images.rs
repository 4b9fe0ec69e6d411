use steam_userdata::images::{get_users_images, GridOutcome, ImageEntry, ImagesError};
use steam_userdata::users::SteamUsersInfo;

fn user() -> SteamUsersInfo {
    SteamUsersInfo { steam_user_data_folder: "/r/42".to_string(), shortcut_path: None }
}

fn named(name: &str) -> ImageEntry {
    ImageEntry::Named(name.to_string())
}

#[test]
fn fresh_grid_folder_lists_nothing() {
    let images = get_users_images(&user(), &GridOutcome::Listed(vec![])).unwrap();
    assert!(images.is_empty());
}

#[test]
fn names_are_listed_whatever_the_order() {
    let one = get_users_images(&user(), &GridOutcome::Listed(vec![named("a.png"), named("b.jpg")]))
        .unwrap();
    let other = get_users_images(&user(), &GridOutcome::Listed(vec![named("b.jpg"), named("a.png")]))
        .unwrap();
    assert_eq!(one, vec!["a.png".to_string(), "b.jpg".to_string()]);
    assert_eq!(other, vec!["b.jpg".to_string(), "a.png".to_string()]);
    let mut one_sorted = one.clone();
    one_sorted.sort();
    let mut other_sorted = other.clone();
    other_sorted.sort();
    assert_eq!(one_sorted, other_sorted);
}

#[test]
fn unreadable_images_are_passed_over() {
    let entries = vec![ImageEntry::Unreadable, named("x.png"), ImageEntry::Unreadable];
    let images = get_users_images(&user(), &GridOutcome::Listed(entries)).unwrap();
    assert_eq!(images, vec!["x.png".to_string()]);
}

#[test]
fn name_that_is_not_text_fails_the_listing() {
    let entries = vec![named("x.png"), ImageEntry::Unnamed, named("y.png")];
    match get_users_images(&user(), &GridOutcome::Listed(entries)) {
        Err(ImagesError::NameNotText { path }) => assert_eq!(path, "/r/42/config/grid"),
        other => panic!("unexpected outcome: {:?}", other),
    }
}

#[test]
fn grid_folder_that_cannot_be_created_is_an_error() {
    match get_users_images(&user(), &GridOutcome::NotCreated) {
        Err(ImagesError::FolderNotCreated { path }) => assert_eq!(path, "/r/42/config/grid"),
        other => panic!("unexpected outcome: {:?}", other),
    }
}

#[test]
fn grid_folder_that_cannot_be_listed_is_an_error() {
    match get_users_images(&user(), &GridOutcome::NotListed) {
        Err(ImagesError::FolderNotListed { path }) => assert_eq!(path, "/r/42/config/grid"),
        other => panic!("unexpected outcome: {:?}", other),
    }
}

#[test]
fn listing_twice_gives_the_same_names() {
    let outcome = GridOutcome::Listed(vec![named("a.png"), ImageEntry::Unreadable, named("b.jpg")]);
    let first = get_users_images(&user(), &outcome).unwrap();
    let second = get_users_images(&user(), &outcome).unwrap();
    assert_eq!(first, second);
    assert_eq!(first.len(), 2);
}
