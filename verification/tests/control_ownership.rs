use kairpods_service::bus_names::BusFailure;
use kairpods_service::control_ownership::{ControlOwner, OwnershipEngine};
use kairpods_service::media_control::{observe_control_owner, ControlOwner as ObservedOwner};

fn names(list: &[&str]) -> Vec<String> {
    list.iter().map(|s| s.to_string()).collect()
}

#[test]
fn local_player_keeps_control_on_linux() {
    let engine = OwnershipEngine::new();
    let d = engine.decide_for_media_command(&Ok(names(&[
        "org.mpris.MediaPlayer2.kdeconnect.x",
        "org.mpris.MediaPlayer2.rhythmbox",
    ])));
    assert_eq!(d.owner, ControlOwner::Linux);
    assert_eq!(d.reason, "local MPRIS player detected");
}

#[test]
fn bridge_alone_hands_control_to_remote() {
    let engine = OwnershipEngine::new();
    let d = engine.decide_for_media_command(&Ok(names(&["org.mpris.MediaPlayer2.KDEConnect.y"])));
    assert_eq!(d.owner, ControlOwner::Remote);
    assert_eq!(d.reason, "no local MPRIS player but KDE Connect MPRIS bridge is present");
}

#[test]
fn default_names_the_last_ear_hint() {
    let mut engine = OwnershipEngine::default();
    let bus = Ok(names(&["org.freedesktop.Notifications"]));
    let d = engine.decide_for_media_command(&bus);
    assert_eq!(d.owner, ControlOwner::Linux);
    assert_eq!(d.reason, "defaulting to local ownership (no ear-detection hint available)");
    engine.on_ear_detection(true);
    assert_eq!(
        engine.decide_for_media_command(&bus).reason,
        "defaulting to local ownership (last ear-detection hint: both in-ear)"
    );
    engine.on_ear_detection(false);
    let d = engine.decide_for_media_command(&bus);
    assert_eq!(d.owner, ControlOwner::Linux);
    assert_eq!(
        d.reason,
        "defaulting to local ownership (last ear-detection hint: one or more out-of-ear)"
    );
    let copy = d.clone();
    assert_eq!(copy.reason, d.reason);
}

#[test]
fn bus_failures_default_to_linux() {
    let engine = OwnershipEngine::new();
    let d = engine.decide_for_media_command(&Err(BusFailure::SessionBus("no bus".to_string())));
    assert_eq!(d.owner, ControlOwner::Linux);
    assert_eq!(
        d.reason,
        "defaulting to local ownership (failed to connect to session bus: no bus)"
    );
    let d = engine.decide_for_media_command(&Err(BusFailure::DbusProxy("p".to_string())));
    assert_eq!(d.reason, "defaulting to local ownership (failed to create D-Bus proxy: p)");
    let d = engine.decide_for_media_command(&Err(BusFailure::ListNames("l".to_string())));
    assert_eq!(d.reason, "defaulting to local ownership (failed to list bus names: l)");
    assert_eq!(d.owner, ControlOwner::Linux);
}

#[test]
fn decision_agrees_with_refresh_observation() {
    let engine = OwnershipEngine::new();
    let cases: Vec<Result<Vec<String>, BusFailure>> = vec![
        Ok(names(&["org.mpris.MediaPlayer2.vlc"])),
        Ok(names(&["org.mpris.MediaPlayer2.kdeconnect.p"])),
        Ok(names(&["org.kde.StatusNotifierWatcher"])),
        Err(BusFailure::ListNames("x".to_string())),
    ];
    let expected = [
        (ObservedOwner::Linux, ControlOwner::Linux),
        (ObservedOwner::Remote, ControlOwner::Remote),
        (ObservedOwner::Unknown, ControlOwner::Linux),
        (ObservedOwner::Unknown, ControlOwner::Linux),
    ];
    for (bus, (observed, decided)) in cases.iter().zip(expected) {
        assert_eq!(observe_control_owner("r", bus).0, observed);
        assert_eq!(engine.decide_for_media_command(bus).owner, decided);
    }
}
