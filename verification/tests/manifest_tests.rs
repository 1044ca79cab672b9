use bplist_fetch::manifest::{validate, Bplist, ManifestError, Song};

fn song(key: &str, name: &str) -> Song {
    Song {
        key: key.to_string(),
        hash: "abc123".to_string(),
        name: name.to_string(),
        uploader: "someone".to_string(),
    }
}

fn playlist(songs: Vec<Song>) -> Bplist {
    Bplist {
        playlist_title: "My list".to_string(),
        playlist_author: "An author".to_string(),
        playlist_description: "Some levels".to_string(),
        sync_url: "https://example.invalid/list".to_string(),
        songs,
    }
}

#[test]
fn valid_manifest_passes() {
    let m = playlist(vec![song("1a2b", "First"), song("3c4d", "Second")]);
    assert!(validate(&m).is_ok());
}

#[test]
fn empty_manifest_passes() {
    let m = playlist(vec![]);
    assert!(validate(&m).is_ok());
}

#[test]
fn missing_key_fails_fast() {
    // An item without a key is rejected before any download is attempted.
    let m = playlist(vec![song("1a2b", "First"), song("", "Broken"), song("3c4d", "Third")]);
    assert_eq!(validate(&m), Err(ManifestError::EmptyKey { index: 1 }));
}

#[test]
fn first_bad_item_is_named() {
    let m = playlist(vec![song("", "Broken")]);
    assert_eq!(validate(&m), Err(ManifestError::EmptyKey { index: 0 }));
}
