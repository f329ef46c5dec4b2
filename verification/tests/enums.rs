use mpris2_zbus::error::Error;
use mpris2_zbus::player::PlaybackStatus;
use mpris2_zbus::playlists::PlaylistOrdering;

#[test]
fn playback_status_round_trips() {
    for v in [
        PlaybackStatus::Playing,
        PlaybackStatus::Paused,
        PlaybackStatus::Stopped,
    ] {
        assert_eq!(PlaybackStatus::parse(&v.display()).unwrap(), v);
    }
}

#[test]
fn playlist_ordering_round_trips() {
    for v in [
        PlaylistOrdering::Alphabetical,
        PlaylistOrdering::CreationDate,
        PlaylistOrdering::ModifiedDate,
        PlaylistOrdering::LastPlayDate,
        PlaylistOrdering::UserDefined,
    ] {
        assert_eq!(PlaylistOrdering::parse(&v.display()).unwrap(), v);
    }
}

#[test]
fn playlist_ordering_tables_are_asymmetric() {
    // The alias "created" parses, but the variant displays as "Created":
    // display does not return the alias it was parsed from.
    let v = PlaylistOrdering::parse("created").unwrap();
    assert_eq!(v, PlaylistOrdering::CreationDate);
    assert_eq!(v.display(), "Created");
    assert_ne!(v.display(), "created");
    assert_eq!(PlaylistOrdering::parse("played").unwrap().display(), "Played");
    assert_eq!(PlaylistOrdering::parse("user").unwrap().display(), "User");
}

#[test]
fn playback_status_parses_loosely() {
    assert_eq!(
        PlaybackStatus::parse("PLAYING").unwrap(),
        PlaybackStatus::Playing
    );
    assert_eq!(
        PlaybackStatus::parse("  paused ").unwrap(),
        PlaybackStatus::Paused
    );
    assert_eq!(
        PlaybackStatus::parse("stopped").unwrap(),
        PlaybackStatus::Stopped
    );
}

#[test]
fn playback_status_rejects_unknown_token() {
    match PlaybackStatus::parse("buffering") {
        Err(Error::InvalidEnum { got, expected }) => {
            assert_eq!(got, "buffering");
            assert_eq!(expected, vec!["Playing", "Paused", "Stopped"]);
        }
        other => panic!("expected InvalidEnum, got {:?}", other),
    }
}

#[test]
fn playlist_ordering_rejects_display_only_lookalikes() {
    match PlaylistOrdering::parse("CreationDate") {
        Err(Error::InvalidEnum { got, expected }) => {
            assert_eq!(got, "CreationDate");
            assert_eq!(
                expected,
                vec!["Alphabetical", "Created", "Modified", "Played", "User"]
            );
        }
        other => panic!("expected InvalidEnum, got {:?}", other),
    }
}

#[test]
fn playlist_ordering_parses_all_aliases() {
    assert_eq!(
        PlaylistOrdering::parse(" Alphabetical ").unwrap(),
        PlaylistOrdering::Alphabetical
    );
    assert_eq!(
        PlaylistOrdering::parse("MODIFIED").unwrap(),
        PlaylistOrdering::ModifiedDate
    );
    assert_eq!(
        PlaylistOrdering::parse("user").unwrap(),
        PlaylistOrdering::UserDefined
    );
}
