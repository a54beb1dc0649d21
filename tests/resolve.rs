use playerctl_core::{
    contains_text, find_named, same_text, BusQuery, BusReply, PlayerctlDevice, PlayerctlDeviceRaw,
    ResolveError, ResolveStep, Resolver,
};

fn names(list: &[&str]) -> Vec<String> {
    list.iter().map(|s| s.to_string()).collect()
}

fn single(step: ResolveStep) -> String {
    match step {
        ResolveStep::Resolved(Ok(PlayerctlDevice::Single(name))) => name,
        other => panic!("expected a single player, got {:?}", other),
    }
}

fn asks(step: &ResolveStep) -> BusQuery {
    match step {
        ResolveStep::Ask(q) => *q,
        other => panic!("expected a question, got {:?}", other),
    }
}

const RUNNING: [&str; 3] = [
    "org.mpris.MediaPlayer2.spotify",
    "org.mpris.MediaPlayer2.firefox.instance_1_42",
    "org.mpris.MediaPlayer2.mpv",
];

#[test]
fn selector_texts() {
    assert!(matches!(PlayerctlDeviceRaw::from("auto".to_string()), Ok(PlayerctlDeviceRaw::Auto)));
    assert!(matches!(PlayerctlDeviceRaw::from(String::new()), Ok(PlayerctlDeviceRaw::Auto)));
    assert!(matches!(PlayerctlDeviceRaw::from("all".to_string()), Ok(PlayerctlDeviceRaw::All)));
    assert!(matches!(PlayerctlDeviceRaw::from("shift".to_string()), Ok(PlayerctlDeviceRaw::Shift)));
    assert!(matches!(PlayerctlDeviceRaw::from("unshift".to_string()), Ok(PlayerctlDeviceRaw::Unshift)));
    match PlayerctlDeviceRaw::from("spotify".to_string()) {
        Ok(PlayerctlDeviceRaw::Named(n)) => assert_eq!(n, "spotify"),
        other => panic!("{:?}", other),
    }
}

#[test]
fn text_helpers() {
    assert!(same_text("abc", "abc"));
    assert!(!same_text("abc", "abd"));
    assert!(!same_text("abc", "ab"));
    assert!(contains_text("org.mpris.MediaPlayer2.mpv", "mpv"));
    assert!(contains_text("mpv", ""));
    assert!(!contains_text("mpv", "mpvx"));
    assert!(!contains_text("org.mpris.MediaPlayer2.vlc", "spotify"));
}

#[test]
fn find_named_takes_first_match() {
    let list = names(&RUNNING);
    assert_eq!(find_named(&list, "firefox"), Some(1));
    assert_eq!(find_named(&list, "MediaPlayer2"), Some(0));
    assert_eq!(find_named(&list, "vlc"), None);
    assert_eq!(find_named(&Vec::new(), "vlc"), None);
}

#[test]
fn named_selector_picks_matching_player() {
    let mut r = Resolver::new(PlayerctlDeviceRaw::Named("mpv".to_string()));
    assert_eq!(r.pending, Some(BusQuery::EnumerateAll));
    let step = r.step(BusReply::Names(Ok(names(&RUNNING))));
    assert_eq!(single(step), "org.mpris.MediaPlayer2.mpv");
    assert_eq!(r.pending, None);
}

#[test]
fn named_selector_without_match_fails() {
    for running in [names(&RUNNING), Vec::new()] {
        let mut r = Resolver::new(PlayerctlDeviceRaw::Named("vlc".to_string()));
        let step = r.step(BusReply::Names(Ok(running)));
        assert!(matches!(step, ResolveStep::Resolved(Err(ResolveError::NoPlayerFound))));
    }
}

#[test]
fn all_over_no_players_is_empty() {
    let mut r = Resolver::new(PlayerctlDeviceRaw::All);
    assert_eq!(r.pending, Some(BusQuery::EnumerateAll));
    match r.step(BusReply::Names(Ok(Vec::new()))) {
        ResolveStep::Resolved(Ok(PlayerctlDevice::All(list))) => assert!(list.is_empty()),
        other => panic!("{:?}", other),
    }
}

#[test]
fn all_keeps_enumeration_order() {
    let mut r = Resolver::new(PlayerctlDeviceRaw::All);
    match r.step(BusReply::Names(Ok(names(&RUNNING)))) {
        ResolveStep::Resolved(Ok(PlayerctlDevice::All(list))) => assert_eq!(list, names(&RUNNING)),
        other => panic!("{:?}", other),
    }
}

#[test]
fn all_fails_when_bus_is_down() {
    let mut r = Resolver::new(PlayerctlDeviceRaw::All);
    let step = r.step(BusReply::Names(Err(ResolveError::BusUnreachable)));
    assert!(matches!(step, ResolveStep::Resolved(Err(ResolveError::BusUnreachable))));
}

#[test]
fn auto_uses_multiplexer_first_player() {
    let mut r = Resolver::new(PlayerctlDeviceRaw::Auto);
    assert_eq!(r.pending, Some(BusQuery::PlayerNames));
    let step = r.step(BusReply::Names(Ok(names(&["firefox.instance_1_42", "spotify"]))));
    assert_eq!(asks(&step), BusQuery::EnumerateAll);
    let step = r.step(BusReply::Names(Ok(names(&RUNNING))));
    assert_eq!(single(step), "org.mpris.MediaPlayer2.firefox.instance_1_42");
}

#[test]
fn auto_falls_back_when_multiplexer_is_missing() {
    let mut r = Resolver::new(PlayerctlDeviceRaw::Auto);
    let step = r.step(BusReply::Names(Err(ResolveError::BusUnreachable)));
    assert_eq!(asks(&step), BusQuery::FindActive);
    let step = r.step(BusReply::Name(Ok("org.mpris.MediaPlayer2.mpv".to_string())));
    assert_eq!(single(step), "org.mpris.MediaPlayer2.mpv");
}

#[test]
fn auto_falls_back_when_multiplexer_lists_nothing() {
    let mut r = Resolver::new(PlayerctlDeviceRaw::Auto);
    let step = r.step(BusReply::Names(Ok(Vec::new())));
    assert_eq!(asks(&step), BusQuery::FindActive);
    let step = r.step(BusReply::Name(Err(ResolveError::NoPlayerFound)));
    assert!(matches!(step, ResolveStep::Resolved(Err(ResolveError::NoPlayerFound))));
}

#[test]
fn auto_falls_back_when_name_matches_nothing() {
    let mut r = Resolver::new(PlayerctlDeviceRaw::Auto);
    r.step(BusReply::Names(Ok(names(&["vlc"]))));
    let step = r.step(BusReply::Names(Ok(names(&RUNNING))));
    assert_eq!(asks(&step), BusQuery::FindActive);
    let step = r.step(BusReply::Name(Ok("org.mpris.MediaPlayer2.spotify".to_string())));
    assert_eq!(single(step), "org.mpris.MediaPlayer2.spotify");
}

#[test]
fn shift_and_unshift_pick_new_active_player() {
    for (sel, q) in [(PlayerctlDeviceRaw::Shift, BusQuery::Shift), (PlayerctlDeviceRaw::Unshift, BusQuery::Unshift)] {
        let mut r = Resolver::new(sel);
        assert_eq!(r.pending, Some(q));
        let step = r.step(BusReply::Name(Ok("org.mpris.MediaPlayer2.spotify".to_string())));
        assert_eq!(asks(&step), BusQuery::EnumerateAll);
        assert_eq!(single(r.step(BusReply::Names(Ok(names(&RUNNING))))), "org.mpris.MediaPlayer2.spotify");
    }
}

#[test]
fn shift_propagates_multiplexer_error() {
    let mut r = Resolver::new(PlayerctlDeviceRaw::Shift);
    let step = r.step(BusReply::Name(Err(ResolveError::BusUnreachable)));
    assert!(matches!(step, ResolveStep::Resolved(Err(ResolveError::BusUnreachable))));
}

#[test]
fn reply_that_does_not_fit_fails() {
    let mut r = Resolver::new(PlayerctlDeviceRaw::Shift);
    let step = r.step(BusReply::Names(Ok(names(&RUNNING))));
    assert!(matches!(step, ResolveStep::Resolved(Err(ResolveError::BusUnreachable))));
    let step = r.step(BusReply::Name(Ok("x".to_string())));
    assert!(matches!(step, ResolveStep::Resolved(Err(ResolveError::BusUnreachable))));
}
