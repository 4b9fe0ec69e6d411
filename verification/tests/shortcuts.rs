use steam_shortcuts_util::shortcut::ShortcutOwned;
use steam_shortcuts_util::{shortcuts_to_bytes, Shortcut};
use steam_userdata::shortcuts::{
    get_shortcuts_for_user, info_from_parsed, shortcuts_access, AccessOutcome, ShortcutInfo,
    ShortcutsAccess, ShortcutsError,
};
use steam_userdata::users::SteamUsersInfo;

fn user_with_file() -> SteamUsersInfo {
    SteamUsersInfo {
        steam_user_data_folder: "/r/42".to_string(),
        shortcut_path: Some("/r/42/config/shortcuts.vdf".to_string()),
    }
}

fn user_without_file() -> SteamUsersInfo {
    SteamUsersInfo { steam_user_data_folder: "/r/43".to_string(), shortcut_path: None }
}

fn two_shortcuts_encoded() -> Vec<u8> {
    let first = Shortcut::new("0", "Celeste", "/games/celeste", "/games", "", "", "");
    let mut second = Shortcut::new("1", "Hades", "/games/hades", "/games", "/i.png", "", "-v");
    second.tags = vec!["Installed"];
    shortcuts_to_bytes(&vec![first, second])
}

fn resolved(outcome: Result<ShortcutInfo, ShortcutsError>) -> ShortcutInfo {
    match outcome {
        Ok(info) => info,
        Err(error) => panic!("unexpected error: {:?}", error),
    }
}

fn failed(outcome: Result<ShortcutInfo, ShortcutsError>) -> ShortcutsError {
    match outcome {
        Ok(_) => panic!("unexpected success"),
        Err(error) => error,
    }
}

#[test]
fn access_reads_a_recorded_file() {
    match shortcuts_access(&user_with_file()) {
        ShortcutsAccess::ReadFile { path } => assert_eq!(path, "/r/42/config/shortcuts.vdf"),
        ShortcutsAccess::CreateFolder { .. } => panic!("asked for a folder"),
    }
}

#[test]
fn access_creates_the_config_folder_without_a_file() {
    match shortcuts_access(&user_without_file()) {
        ShortcutsAccess::CreateFolder { path } => assert_eq!(path, "/r/43/config"),
        ShortcutsAccess::ReadFile { .. } => panic!("asked for a file"),
    }
}

#[test]
fn existing_file_is_decoded() {
    let bytes = two_shortcuts_encoded();
    let info = resolved(get_shortcuts_for_user(&user_with_file(), &AccessOutcome::Content(bytes)));
    assert_eq!(info.path, "/r/42/config/shortcuts.vdf");
    assert_eq!(info.shortcuts.len(), 2);
    assert_eq!(info.shortcuts[0].order, "0");
    assert_eq!(info.shortcuts[0].app_name, "Celeste");
    assert_eq!(info.shortcuts[0].exe, "/games/celeste");
    assert_eq!(info.shortcuts[1].app_name, "Hades");
    assert_eq!(info.shortcuts[1].icon, "/i.png");
    assert_eq!(info.shortcuts[1].launch_options, "-v");
    assert_eq!(info.shortcuts[1].tags, vec!["Installed".to_string()]);
}

#[test]
fn decoded_shortcuts_equal_the_decoders() {
    let bytes = two_shortcuts_encoded();
    let expected: Vec<ShortcutOwned> = steam_shortcuts_util::parse_shortcuts(&bytes)
        .unwrap()
        .iter()
        .map(|s| s.to_owned())
        .collect();
    let info = resolved(get_shortcuts_for_user(&user_with_file(), &AccessOutcome::Content(bytes.clone())));
    assert_eq!(info.shortcuts.len(), expected.len());
    for (got, want) in info.shortcuts.iter().zip(expected.iter()) {
        assert_eq!(got.borrow(), want.borrow());
    }
    let again = shortcuts_to_bytes(&info.shortcuts.iter().map(|s| s.borrow()).collect());
    assert_eq!(again, bytes);
}

#[test]
fn file_without_shortcuts_is_decoded_as_empty() {
    let bytes = shortcuts_to_bytes(&vec![]);
    let info = resolved(get_shortcuts_for_user(&user_with_file(), &AccessOutcome::Content(bytes)));
    assert_eq!(info.path, "/r/42/config/shortcuts.vdf");
    assert!(info.shortcuts.is_empty());
}

#[test]
fn corrupt_file_is_an_error() {
    let outcome = AccessOutcome::Content(b"this is no shortcuts file".to_vec());
    match failed(get_shortcuts_for_user(&user_with_file(), &outcome)) {
        ShortcutsError::DecodeFailed { path, reason } => {
            assert_eq!(path, "/r/42/config/shortcuts.vdf");
            assert!(!reason.is_empty());
        }
        other => panic!("wrong error: {:?}", other),
    }
}

#[test]
fn truncated_file_is_an_error() {
    let mut bytes = two_shortcuts_encoded();
    bytes.truncate(bytes.len() / 2);
    match failed(get_shortcuts_for_user(&user_with_file(), &AccessOutcome::Content(bytes))) {
        ShortcutsError::DecodeFailed { path, .. } => assert_eq!(path, "/r/42/config/shortcuts.vdf"),
        other => panic!("wrong error: {:?}", other),
    }
}

#[test]
fn failed_read_is_an_error() {
    match failed(get_shortcuts_for_user(&user_with_file(), &AccessOutcome::Failed)) {
        ShortcutsError::ReadFailed { path } => assert_eq!(path, "/r/42/config/shortcuts.vdf"),
        other => panic!("wrong error: {:?}", other),
    }
    match failed(get_shortcuts_for_user(&user_with_file(), &AccessOutcome::FolderReady)) {
        ShortcutsError::ReadFailed { path } => assert_eq!(path, "/r/42/config/shortcuts.vdf"),
        other => panic!("wrong error: {:?}", other),
    }
}

#[test]
fn user_without_file_gets_a_fresh_target() {
    let info = resolved(get_shortcuts_for_user(&user_without_file(), &AccessOutcome::FolderReady));
    assert_eq!(info.path, "/r/43/config/shortcuts.vdf");
    assert!(info.shortcuts.is_empty());
}

#[test]
fn folder_that_cannot_be_created_is_an_error() {
    match failed(get_shortcuts_for_user(&user_without_file(), &AccessOutcome::Failed)) {
        ShortcutsError::FolderNotCreated { path } => assert_eq!(path, "/r/43/config"),
        other => panic!("wrong error: {:?}", other),
    }
    let stray = AccessOutcome::Content(two_shortcuts_encoded());
    match failed(get_shortcuts_for_user(&user_without_file(), &stray)) {
        ShortcutsError::FolderNotCreated { path } => assert_eq!(path, "/r/43/config"),
        other => panic!("wrong error: {:?}", other),
    }
}

#[test]
fn resolving_twice_gives_the_same_result() {
    let user = user_without_file();
    let first = resolved(get_shortcuts_for_user(&user, &AccessOutcome::FolderReady));
    let second = resolved(get_shortcuts_for_user(&user, &AccessOutcome::FolderReady));
    assert_eq!(first.path, second.path);
    assert!(first.shortcuts.is_empty() && second.shortcuts.is_empty());

    let user = user_with_file();
    let bytes = two_shortcuts_encoded();
    let first = resolved(get_shortcuts_for_user(&user, &AccessOutcome::Content(bytes.clone())));
    let second = resolved(get_shortcuts_for_user(&user, &AccessOutcome::Content(bytes)));
    assert_eq!(first.path, second.path);
    assert_eq!(first.shortcuts.len(), second.shortcuts.len());
    for (a, b) in first.shortcuts.iter().zip(second.shortcuts.iter()) {
        assert_eq!(a.borrow(), b.borrow());
    }
}

#[test]
fn info_from_parsed_keeps_the_shortcuts() {
    let one = Shortcut::new("0", "Braid", "/games/braid", "/games", "", "", "").to_owned();
    let info = resolved(info_from_parsed("/p/shortcuts.vdf".to_string(), Ok(vec![one])));
    assert_eq!(info.path, "/p/shortcuts.vdf");
    assert_eq!(info.shortcuts.len(), 1);
    assert_eq!(info.shortcuts[0].app_name, "Braid");
}

#[test]
fn info_from_parsed_keeps_the_reason() {
    let outcome = info_from_parsed("/p/shortcuts.vdf".to_string(), Err("bad bytes".to_string()));
    match failed(outcome) {
        ShortcutsError::DecodeFailed { path, reason } => {
            assert_eq!(path, "/p/shortcuts.vdf");
            assert_eq!(reason, "bad bytes");
        }
        other => panic!("wrong error: {:?}", other),
    }
}
