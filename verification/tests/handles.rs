use mpris2_zbus::error::Error;
use mpris2_zbus::handle_optional;
use mpris2_zbus::media_player::MediaPlayer;
use mpris2_zbus::metadata::Value;
use mpris2_zbus::player::{PlaybackStatus, Player};
use mpris2_zbus::playlists::Playlists;
use mpris2_zbus::track::Track;
use mpris2_zbus::track_list::TrackList;

fn not_supported() -> Error {
    Error::ProtocolFault {
        name: "org.freedesktop.DBus.Error.NotSupported".to_string(),
        message: "not supported".to_string(),
    }
}

fn connection_reset() -> Error {
    Error::Transport {
        message: "connection reset".to_string(),
    }
}

#[test]
fn discovery_filters_to_the_mpris_namespace() {
    let names = vec![
        "org.mpris.MediaPlayer2.vlc".to_string(),
        "org.freedesktop.Notifications".to_string(),
    ];
    let players = MediaPlayer::available_players(&names);
    assert_eq!(players, vec!["org.mpris.MediaPlayer2.vlc".to_string()]);
}

#[test]
fn discovery_keeps_order_and_duplicates() {
    let names = vec![
        "org.mpris.MediaPlayer2.b".to_string(),
        "org.kde.StatusNotifierWatcher".to_string(),
        "org.mpris.MediaPlayer2.a".to_string(),
        "org.mpris.MediaPlayer2.b".to_string(),
    ];
    let players = MediaPlayer::available_players(&names);
    assert_eq!(
        players,
        vec![
            "org.mpris.MediaPlayer2.b".to_string(),
            "org.mpris.MediaPlayer2.a".to_string(),
            "org.mpris.MediaPlayer2.b".to_string(),
        ]
    );
}

#[test]
fn new_all_binds_every_discovered_player() {
    let names = vec![
        "org.mpris.MediaPlayer2.vlc".to_string(),
        "org.freedesktop.Notifications".to_string(),
        "org.mpris.MediaPlayer2.mpv".to_string(),
    ];
    let players = MediaPlayer::new_all(&names).unwrap();
    assert_eq!(players.len(), 2);
    assert_eq!(players[0].dest.name, "org.mpris.MediaPlayer2.vlc");
    assert_eq!(players[1].dest.name, "org.mpris.MediaPlayer2.mpv");
}

#[test]
fn handle_construction_validates_the_name() {
    assert!(MediaPlayer::new("org.mpris.MediaPlayer2.vlc".to_string()).is_ok());
    assert!(Player::new("org.mpris.MediaPlayer2.vlc".to_string()).is_ok());
    assert!(TrackList::new("org.mpris.MediaPlayer2.vlc".to_string()).is_ok());
    assert!(Playlists::new("org.mpris.MediaPlayer2.vlc".to_string()).is_ok());
    for bad in ["", "nodots", ".leading", "trailing.", "a..b", "org.9digit", "has space.x"] {
        match MediaPlayer::new(bad.to_string()) {
            Err(Error::Transport { .. }) => {}
            other => panic!("expected Transport for {:?}, got {:?}", bad, other),
        }
    }
}

#[test]
fn sub_handles_share_the_destination() {
    let m = MediaPlayer::new("org.mpris.MediaPlayer2.vlc".to_string()).unwrap();
    let p = m.player();
    assert_eq!(p.dest, m.dest);
    assert_eq!(p.media_player().dest, m.dest);
    let t = m.track_list(Ok(true)).unwrap().unwrap();
    assert_eq!(t.dest, m.dest);
}

#[test]
fn track_list_probe_false_is_absent_not_an_error() {
    let m = MediaPlayer::new("org.mpris.MediaPlayer2.vlc".to_string()).unwrap();
    assert_eq!(m.track_list(Ok(false)).unwrap(), None);
    match m.track_list(Err(connection_reset())) {
        Err(Error::Transport { message }) => assert_eq!(message, "connection reset"),
        other => panic!("expected Transport, got {:?}", other),
    }
}

#[test]
fn seek_is_gated_on_the_capability() {
    let p = Player::new("org.mpris.MediaPlayer2.vlc".to_string()).unwrap();
    // One second ahead, but the player cannot seek: not performed, and
    // there is no offset to send.
    assert_eq!(p.seek_ahead(Ok(false), 1_000_000).unwrap(), None);
    assert_eq!(p.seek_ahead(Ok(true), 1_000_000).unwrap(), Some(1_000_000));
    assert_eq!(p.seek_back(Ok(true), 250_000).unwrap(), Some(-250_000));
    assert_eq!(p.seek_back(Ok(false), 250_000).unwrap(), None);
    assert_eq!(p.seek(Ok(true), -5).unwrap(), Some(-5));
    match p.seek(Err(connection_reset()), 7) {
        Err(Error::Transport { .. }) => {}
        other => panic!("expected Transport, got {:?}", other),
    }
}

#[test]
fn optional_properties_translate_not_supported_to_absent() {
    let p = Player::new("org.mpris.MediaPlayer2.vlc".to_string()).unwrap();
    assert_eq!(p.rate::<f64>(Err(not_supported())).unwrap(), None);
    assert_eq!(p.rate(Ok(1.5f64)).unwrap(), Some(1.5));
    match p.rate::<f64>(Err(connection_reset())) {
        Err(Error::Transport { message }) => assert_eq!(message, "connection reset"),
        other => panic!("expected Transport, got {:?}", other),
    }
    assert_eq!(p.position(Err(not_supported())).unwrap(), None);
    assert_eq!(p.position(Ok(42)).unwrap(), Some(42));
    assert_eq!(p.minimum_rate::<f64>(Err(not_supported())).unwrap(), None);
    assert_eq!(p.maximum_rate(Ok(2.0f64)).unwrap(), Some(2.0));
    // The rule itself, on a bare read outcome.
    assert_eq!(handle_optional::<u32>(Err(not_supported())).unwrap(), None);
    assert_eq!(handle_optional(Ok(3u32)).unwrap(), Some(3));
}

#[test]
fn a_not_supported_protocol_fault_is_not_any_protocol_fault() {
    let p = Player::new("org.mpris.MediaPlayer2.vlc".to_string()).unwrap();
    let other_fault = Error::ProtocolFault {
        name: "org.freedesktop.DBus.Error.InvalidArgs".to_string(),
        message: "bad argument".to_string(),
    };
    match p.rate::<f64>(Err(other_fault)) {
        Err(Error::ProtocolFault { name, .. }) => {
            assert_eq!(name, "org.freedesktop.DBus.Error.InvalidArgs");
        }
        other => panic!("expected ProtocolFault, got {:?}", other),
    }
}

#[test]
fn available_rates_short_circuits_on_the_minimum() {
    let p = Player::new("org.mpris.MediaPlayer2.vlc".to_string()).unwrap();
    // Minimum absent: the whole range is absent, and the caller never
    // reads the maximum at all.
    assert_eq!(
        p.available_rates_minimum::<f64>(Err(not_supported())).unwrap(),
        None
    );
    // Minimum present, maximum absent: still absent.
    assert_eq!(
        p.available_rates_maximum(0.5f64, Err(not_supported())).unwrap(),
        None
    );
    // Both present: the range.
    assert_eq!(
        p.available_rates_maximum(0.5f64, Ok(2.0f64)).unwrap(),
        Some((0.5, 2.0))
    );
    // A hard failure on either read propagates.
    match p.available_rates_minimum::<f64>(Err(connection_reset())) {
        Err(Error::Transport { .. }) => {}
        other => panic!("expected Transport, got {:?}", other),
    }
}

#[test]
fn playback_status_read_parses_at_the_boundary() {
    let p = Player::new("org.mpris.MediaPlayer2.vlc".to_string()).unwrap();
    assert_eq!(
        p.playback_status(Ok("Playing".to_string())).unwrap(),
        PlaybackStatus::Playing
    );
    match p.playback_status(Ok("buffering".to_string())) {
        Err(Error::InvalidEnum { got, .. }) => assert_eq!(got, "buffering"),
        other => panic!("expected InvalidEnum, got {:?}", other),
    }
    match p.playback_status(Err(connection_reset())) {
        Err(Error::Transport { .. }) => {}
        other => panic!("expected Transport, got {:?}", other),
    }
}

#[test]
fn set_position_passes_the_arguments_through() {
    let p = Player::new("org.mpris.MediaPlayer2.vlc".to_string()).unwrap();
    let t = Track::new("/org/mpris/MediaPlayer2/Track/7".to_string()).unwrap();
    let (path, micros) = p.set_position(&t, 90_000_000);
    assert_eq!(path, "/org/mpris/MediaPlayer2/Track/7");
    assert_eq!(micros, 90_000_000);
}

#[test]
fn metadata_read_goes_through_the_bag() {
    let p = Player::new("org.mpris.MediaPlayer2.vlc".to_string()).unwrap();
    let raw = vec![
        ("xesam:title".to_string(), Value::Str("Song".to_string())),
        ("mpris:length".to_string(), Value::Int64(1000)),
    ];
    let m = p.metadata(Ok(raw.clone())).unwrap();
    assert_eq!(m.into_raw(), raw);
    match p.metadata(Err(connection_reset())) {
        Err(Error::Transport { .. }) => {}
        other => panic!("expected Transport, got {:?}", other),
    }
}

#[test]
fn new_all_fails_fast_on_a_malformed_announced_name() {
    // The name matches the namespace prefix, so discovery keeps it, but
    // it ends in an empty element: binding it fails, and the whole
    // batch fails with it.
    let names = vec![
        "org.mpris.MediaPlayer2.vlc".to_string(),
        "org.mpris.MediaPlayer2.".to_string(),
    ];
    match MediaPlayer::new_all(&names) {
        Err(Error::Transport { .. }) => {}
        other => panic!("expected Transport, got {:?}", other),
    }
}
