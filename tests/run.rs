use playerctl_core::{
    IconToken, PlayerError, PlayerOp, PlayerReport, Playerctl, PlayerctlAction, PlayerctlDevice,
    TrackMetadata,
};

fn track(title: &str) -> TrackMetadata {
    TrackMetadata {
        artist: Some("Radiohead".to_string()),
        album_artist: None,
        title: Some(title.to_string()),
        album: None,
        track_number: None,
        disc_number: None,
        auto_rating: None,
        url: None,
    }
}

fn failed(op: PlayerOp) -> Result<IconToken, PlayerError> {
    Err(PlayerError { op })
}

fn all_of(n: usize) -> PlayerctlDevice {
    PlayerctlDevice::All((0..n).map(|i| format!("org.mpris.MediaPlayer2.p{}", i)).collect())
}

#[test]
fn new_starts_without_outcome() {
    let p = Playerctl::new(PlayerctlAction::Play, PlayerctlDevice::Single("mpv".to_string()), None);
    assert_eq!(p.icon, None);
    assert_eq!(p.label, None);
    assert_eq!(p.action, PlayerctlAction::Play);
}

#[test]
fn second_of_three_succeeds() {
    let mut p = Playerctl::new(PlayerctlAction::Play, all_of(3), None);
    p.run(vec![
        PlayerReport { icon: failed(PlayerOp::Play), metadata: None },
        PlayerReport { icon: Ok(IconToken::Play), metadata: None },
        PlayerReport { icon: failed(PlayerOp::Play), metadata: None },
    ]);
    assert_eq!(p.icon.as_deref(), Some("play-large-symbolic"));
    assert_eq!(p.label, None);
}

#[test]
fn first_success_wins_over_later_ones() {
    let mut p = Playerctl::new(PlayerctlAction::PlayPause, all_of(3), None);
    p.run(vec![
        PlayerReport { icon: failed(PlayerOp::ReadStatus), metadata: None },
        PlayerReport { icon: Ok(IconToken::Pause), metadata: None },
        PlayerReport { icon: Ok(IconToken::Play), metadata: None },
    ]);
    assert_eq!(p.icon.as_deref(), Some("pause-large-symbolic"));
}

#[test]
fn metadata_and_icon_may_come_from_different_players() {
    let mut p = Playerctl::new(PlayerctlAction::Stop, all_of(2), None);
    p.run(vec![
        PlayerReport { icon: failed(PlayerOp::Stop), metadata: Some(track("Reckoner")) },
        PlayerReport { icon: Ok(IconToken::Stop), metadata: Some(track("Nude")) },
    ]);
    assert_eq!(p.icon.as_deref(), Some("stop-large-symbolic"));
    assert_eq!(p.label.as_deref(), Some("Radiohead - Reckoner"));
}

#[test]
fn no_players_give_empty_icon_and_no_label() {
    let mut p = Playerctl::new(PlayerctlAction::Next, all_of(0), Some("{title}".to_string()));
    p.run(Vec::new());
    assert_eq!(p.icon.as_deref(), Some(""));
    assert_eq!(p.label, None);
}

#[test]
fn single_failure_gives_empty_icon_and_no_label() {
    let mut p = Playerctl::new(PlayerctlAction::Next, PlayerctlDevice::Single("mpv".to_string()), None);
    p.run(vec![PlayerReport { icon: failed(PlayerOp::Next), metadata: Some(track("Nude")) }]);
    assert_eq!(p.icon.as_deref(), Some(""));
    assert_eq!(p.label, None);
}

#[test]
fn single_success_gives_icon_and_label() {
    let mut p = Playerctl::new(
        PlayerctlAction::Next,
        PlayerctlDevice::Single("mpv".to_string()),
        Some("{title} by {artist}".to_string()),
    );
    p.run(vec![PlayerReport { icon: Ok(IconToken::SeekForward), metadata: Some(track("Nude")) }]);
    assert_eq!(p.icon.as_deref(), Some("media-seek-forward-symbolic"));
    assert_eq!(p.label.as_deref(), Some("Nude by Radiohead"));
}

#[test]
fn metadata_is_wanted_once() {
    let single = Playerctl::new(PlayerctlAction::Play, PlayerctlDevice::Single("mpv".to_string()), None);
    assert!(single.wants_metadata(false, true));
    assert!(!single.wants_metadata(false, false));
    let many = Playerctl::new(PlayerctlAction::Play, all_of(2), None);
    assert!(many.wants_metadata(false, false));
    assert!(!many.wants_metadata(true, true));
}

#[test]
fn fmt_string_uses_configured_template() {
    let p = Playerctl::new(PlayerctlAction::Play, all_of(1), Some("{album}".to_string()));
    let mut m = track("Nude");
    m.album = Some("In Rainbows".to_string());
    assert_eq!(p.fmt_string(&m), Some("In Rainbows".to_string()));
}
