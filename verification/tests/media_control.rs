use std::time::{Duration, Instant};

use kairpods_service::bus_names::BusFailure;
use kairpods_service::media_control::{
    control_owner, control_owner_details, finish_resume, first_mpris_player,
    get_cached_playing_players, is_enabled, is_playing_status, is_supported_mpris_service_name,
    observe_control_owner, players_to_resume, playing_players, record_paused_players,
    refresh_control_owner, remember_playing_players, set_cached_playing_players, set_enabled,
    supported_mpris_players, update_control_owner, update_control_owner_at, ControlOwner,
    ControlOwnerState, MediaControlState, PLAYING_PLAYERS_CACHE_TTL_NS,
};

fn names(list: &[&str]) -> Vec<String> {
    list.iter().map(|s| s.to_string()).collect()
}

#[test]
fn filters_supported_mpris_players() {
    assert!(is_supported_mpris_service_name(
        "org.mpris.MediaPlayer2.firefox"
    ));
    assert!(!is_supported_mpris_service_name("org.kde.foo"));
    assert!(!is_supported_mpris_service_name(
        "org.mpris.MediaPlayer2.kdeconnect.instance"
    ));
    assert!(!is_supported_mpris_service_name(
        "org.mpris.MediaPlayer2.KDEConnect.instance"
    ));
}

#[test]
fn playing_players_cache_honors_ttl() {
    let epoch = Instant::now();
    let now = Instant::now().duration_since(epoch).as_nanos() as u64;
    let players = vec!["org.mpris.MediaPlayer2.firefox".to_string()];
    let mut state = MediaControlState::new();

    set_cached_playing_players(&mut state, players.clone(), now);
    assert_eq!(get_cached_playing_players(&state, now), Some(players.clone()));
    let later = now + PLAYING_PLAYERS_CACHE_TTL_NS + Duration::from_millis(1).as_nanos() as u64;
    assert_eq!(get_cached_playing_players(&state, later), None);
}

#[test]
fn cache_serves_up_to_the_ttl_and_not_before_it_was_stored() {
    let mut state = MediaControlState::new();
    assert_eq!(get_cached_playing_players(&state, 5), None);
    let players = names(&["org.mpris.MediaPlayer2.vlc"]);
    set_cached_playing_players(&mut state, players.clone(), 1_000);
    assert_eq!(get_cached_playing_players(&state, 1_000 + 300_000_000), Some(players.clone()));
    assert_eq!(get_cached_playing_players(&state, 1_000 + 300_000_001), None);
    assert_eq!(get_cached_playing_players(&state, 999), None);
}

#[test]
fn empty_listing_is_not_cached() {
    let mut state = MediaControlState::new();
    remember_playing_players(&mut state, Vec::new(), 10);
    assert!(state.playing_players_cache.is_none());
    let players = names(&["org.mpris.MediaPlayer2.spotify"]);
    remember_playing_players(&mut state, players.clone(), 10);
    assert_eq!(get_cached_playing_players(&state, 10), Some(players));
}

#[test]
fn owner_names() {
    assert_eq!(ControlOwner::Linux.as_str(), "linux");
    assert_eq!(ControlOwner::Remote.as_str(), "remote");
    assert_eq!(ControlOwner::Unknown.as_str(), "unknown");
    let state = MediaControlState::new();
    assert_eq!(control_owner(&state), "unknown");
    assert!(control_owner_details(&state).is_none());
}

#[test]
fn update_records_only_changes() {
    let mut state = ControlOwnerState::new();
    assert!(update_control_owner_at(&mut state, ControlOwner::Linux, "first".to_string(), 90, 42));
    let details = state.details.as_ref().unwrap();
    assert_eq!(details.reason, "first");
    assert_eq!(details.observed_at_ms, 42);
    assert_eq!(details.owner_since_ms, 42);
    assert_eq!(details.last_transition_ms, 42);
    assert_eq!(details.confidence_percent, 90);
    assert!(!update_control_owner_at(&mut state, ControlOwner::Linux, "second".to_string(), 30, 50));
    assert_eq!(state.details.as_ref().unwrap().reason, "first");
    assert_eq!(state.details.as_ref().unwrap().observed_at_ms, 42);
}

#[test]
fn update_with_clock_stamps_three_equal_times() {
    let mut state = ControlOwnerState::new();
    assert!(update_control_owner(&mut state, ControlOwner::Remote, "r".to_string(), 75));
    let d = state.details.as_ref().unwrap();
    assert_eq!(d.observed_at_ms, d.owner_since_ms);
    assert_eq!(d.owner_since_ms, d.last_transition_ms);
    assert!(d.observed_at_ms > 0);
    assert_eq!(state.owner, ControlOwner::Remote);
}

#[test]
fn observation_of_each_listing() {
    let local = Ok(names(&["org.freedesktop.DBus", "org.mpris.MediaPlayer2.firefox"]));
    assert_eq!(
        observe_control_owner("startup", &local),
        (ControlOwner::Linux, "startup: local mpris players present".to_string(), 90)
    );
    let bridge = Ok(names(&["org.mpris.MediaPlayer2.kdeconnect.mpris_abc"]));
    assert_eq!(
        observe_control_owner("tick", &bridge),
        (ControlOwner::Remote, "tick: only kdeconnect mpris players present".to_string(), 75)
    );
    let both = Ok(names(&[
        "org.mpris.MediaPlayer2.KDEConnect.x",
        "org.mpris.MediaPlayer2.mpv",
    ]));
    assert_eq!(observe_control_owner("t", &both).0, ControlOwner::Linux);
    let none = Ok(names(&["org.kde.kdeconnect"]));
    assert_eq!(
        observe_control_owner("t", &none),
        (ControlOwner::Unknown, "t: no mpris players detected".to_string(), 30)
    );
    let no_bus: Result<Vec<String>, BusFailure> = Err(BusFailure::SessionBus("gone".to_string()));
    assert_eq!(
        observe_control_owner("t", &no_bus),
        (ControlOwner::Unknown, "t: session bus unavailable".to_string(), 20)
    );
    let no_proxy: Result<Vec<String>, BusFailure> = Err(BusFailure::DbusProxy("e1".to_string()));
    assert_eq!(
        observe_control_owner("t", &no_proxy),
        (ControlOwner::Unknown, "t: dbus proxy failed: e1".to_string(), 20)
    );
    let no_list: Result<Vec<String>, BusFailure> = Err(BusFailure::ListNames("e2".to_string()));
    assert_eq!(
        observe_control_owner("t", &no_list),
        (ControlOwner::Unknown, "t: list_names failed: e2".to_string(), 20)
    );
}

#[test]
fn refresh_changes_owner_once() {
    let mut state = MediaControlState::new();
    let local = Ok(names(&["org.mpris.MediaPlayer2.firefox"]));
    assert!(refresh_control_owner(&mut state, "boot", &local));
    assert_eq!(control_owner(&state), "linux");
    let details = control_owner_details(&state).unwrap();
    assert_eq!(details.reason, "boot: local mpris players present");
    assert_eq!(details.confidence_percent, 90);
    assert!(!refresh_control_owner(&mut state, "again", &local));
    assert_eq!(control_owner_details(&state).unwrap().reason, "boot: local mpris players present");
    let empty: Result<Vec<String>, BusFailure> = Ok(Vec::new());
    assert!(refresh_control_owner(&mut state, "later", &empty));
    assert_eq!(control_owner(&state), "unknown");
}

#[test]
fn pause_then_resume_gives_back_paused_players() {
    let mut state = MediaControlState::new();
    assert!(!is_enabled(&state));
    set_enabled(&mut state, true);
    assert!(is_enabled(&state));
    assert_eq!(players_to_resume(&state), None);
    let playing = names(&["a", "b", "c"]);
    record_paused_players(&mut state, &playing, &vec![true, false, true]);
    assert_eq!(players_to_resume(&state), Some(names(&["a", "c"])));
    finish_resume(&mut state);
    assert_eq!(players_to_resume(&state), None);
}

#[test]
fn failed_pauses_keep_earlier_record() {
    let mut state = MediaControlState::new();
    set_enabled(&mut state, true);
    record_paused_players(&mut state, &names(&["x"]), &vec![true]);
    record_paused_players(&mut state, &names(&["y", "z"]), &vec![false, false]);
    assert_eq!(players_to_resume(&state), Some(names(&["x"])));
    set_enabled(&mut state, false);
    assert_eq!(players_to_resume(&state), None);
}

#[test]
fn discovery_keeps_local_players_in_order() {
    let bus = names(&[
        "org.freedesktop.DBus",
        "org.mpris.MediaPlayer2.vlc",
        "org.mpris.MediaPlayer2.kdeconnect.phone",
        ":1.42",
        "org.mpris.MediaPlayer2.firefox.instance_1",
    ]);
    assert_eq!(
        supported_mpris_players(&bus),
        names(&["org.mpris.MediaPlayer2.vlc", "org.mpris.MediaPlayer2.firefox.instance_1"])
    );
    assert_eq!(first_mpris_player(&bus), Some("org.mpris.MediaPlayer2.vlc".to_string()));
    assert_eq!(first_mpris_player(&names(&["org.kde.x"])), None);
    assert!(!is_supported_mpris_service_name("org.mpris.MediaPlayer2"));
}

#[test]
fn playback_probes() {
    assert!(is_playing_status("Playing"));
    assert!(!is_playing_status("Paused"));
    assert!(!is_playing_status("Playing "));
    assert!(!is_playing_status(""));
    let services = names(&["p", "q", "r", "s"]);
    let probes = vec![Some(true), Some(false), None, Some(true)];
    assert_eq!(playing_players(&services, &probes), names(&["p", "s"]));
}
